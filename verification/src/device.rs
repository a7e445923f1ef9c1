//! The capability contract that every platform adapter satisfies, and the
//! derivation algorithms that are platform-independent.
//!
//! Each adapter exposes the canonical readable surface of one battery
//! through [`BatteryDevice`], described by a ghost [`SnapshotModel`].  On
//! top of that surface, state of charge, state of health and the two
//! remaining-time estimates are computed here, once, for every adapter.

use vstd::prelude::*;

use crate::state::State;
use crate::technology::Technology;
use crate::units::{bounded_pair, ElectricPotential, Energy, Power, Ratio, ThermodynamicTemperature, Time};

verus! {

/// The canonical point-in-time reading of one battery, in canonical
/// magnitudes: microjoules, microwatts, microvolts, millikelvin.
pub ghost struct SnapshotModel {
    /// Energy currently stored, in microjoules.
    pub energy: int,
    /// Last reported full-charge capacity, in microjoules.
    pub energy_full: int,
    /// Factory design capacity, in microjoules.
    pub energy_full_design: int,
    /// Magnitude of the charge or discharge rate, in microwatts; its
    /// direction is carried by `state`.
    pub energy_rate: int,
    /// Instantaneous voltage, in microvolts.
    pub voltage: int,
    /// Canonical charge-state classification.
    pub state: State,
    /// Temperature in millikelvin, where the platform reports one.
    pub temperature: Option<int>,
    /// Charge cycles seen by the battery, where reported.
    pub cycle_count: Option<u32>,
    /// Vendor name, where reported.
    pub vendor: Option<Seq<char>>,
    /// Model or device name, where reported.
    pub model_name: Option<Seq<char>>,
    /// Serial number, where reported.
    pub serial_number: Option<Seq<char>>,
    /// Chemistry tag.
    pub technology: Technology,
}

/// An optional temperature agrees with its model value in millikelvin.
pub open spec fn temperature_matches(r: Option<ThermodynamicTemperature>, m: Option<int>) -> bool {
    match r {
        Some(t) => m == Some(t.value()),
        None => m is None,
    }
}

/// An optional borrowed string agrees with its model character sequence.
pub open spec fn name_matches(r: Option<&str>, m: Option<Seq<char>>) -> bool {
    match r {
        Some(s) => m == Some(s@),
        None => m is None,
    }
}

/// An optional time agrees with its model value in seconds.
pub open spec fn time_matches(r: Option<Time>, m: Option<int>) -> bool {
    match r {
        Some(t) => m == Some(t.value()),
        None => m is None,
    }
}

/// The readable surface of one battery.  Every accessor reports the
/// matching field of the adapter's snapshot model; values are canonical
/// SI magnitudes regardless of the units the platform source used.
pub trait BatteryDevice: Sized {
    /// The canonical reading this device currently holds.
    spec fn snapshot(&self) -> SnapshotModel;

    /// Energy currently stored.
    fn energy(&self) -> (r: Energy)
        ensures
            r.value() == self.snapshot().energy,
    ;

    /// Last reported full-charge capacity.
    fn energy_full(&self) -> (r: Energy)
        ensures
            r.value() == self.snapshot().energy_full,
    ;

    /// Factory design capacity.
    fn energy_full_design(&self) -> (r: Energy)
        ensures
            r.value() == self.snapshot().energy_full_design,
    ;

    /// Magnitude of the instantaneous charge or discharge rate.
    fn energy_rate(&self) -> (r: Power)
        ensures
            r.value() == self.snapshot().energy_rate,
    ;

    /// Canonical charge-state classification.
    fn state(&self) -> (r: State)
        ensures
            r == self.snapshot().state,
    ;

    /// Instantaneous voltage.
    fn voltage(&self) -> (r: ElectricPotential)
        ensures
            r.value() == self.snapshot().voltage,
    ;

    /// Battery temperature, where the platform reports one.
    fn temperature(&self) -> (r: Option<ThermodynamicTemperature>)
        ensures
            temperature_matches(r, self.snapshot().temperature),
    ;

    /// Vendor name, where reported.
    fn vendor(&self) -> (r: Option<&str>)
        ensures
            name_matches(r, self.snapshot().vendor),
    ;

    /// Model or device name, where reported.
    fn model(&self) -> (r: Option<&str>)
        ensures
            name_matches(r, self.snapshot().model_name),
    ;

    /// Serial number, where reported.
    fn serial_number(&self) -> (r: Option<&str>)
        ensures
            name_matches(r, self.snapshot().serial_number),
    ;

    /// Chemistry tag.
    fn technology(&self) -> (r: Technology)
        ensures
            r == self.snapshot().technology,
    ;

    /// Charge cycles seen by the battery, where reported.
    fn cycle_count(&self) -> (r: Option<u32>)
        ensures
            r == self.snapshot().cycle_count,
    ;
}

/// Seconds until the battery is full: defined exactly when the device is
/// charging at a positive rate, as the missing energy over that rate.
pub open spec fn spec_time_to_full(m: SnapshotModel) -> Option<int> {
    if m.state == State::Charging && m.energy_rate > 0 {
        Some((if m.energy_full >= m.energy { m.energy_full - m.energy } else { 0int }) / m.energy_rate)
    } else {
        None
    }
}

/// Seconds until the battery is empty: defined exactly when the device
/// is discharging at a positive rate, as the stored energy over that
/// rate.
pub open spec fn spec_time_to_empty(m: SnapshotModel) -> Option<int> {
    if m.state == State::Discharging && m.energy_rate > 0 {
        Some(m.energy / m.energy_rate)
    } else {
        None
    }
}

/// Fraction of the full-charge capacity currently stored, clamped into
/// the unit interval even when sensor noise reports more energy than the
/// capacity.
pub fn state_of_charge<D: BatteryDevice>(device: &D) -> (r: Ratio)
    ensures
        (r.numer(), r.denom()) == bounded_pair(device.snapshot().energy, device.snapshot().energy_full),
        0 <= r.numer() <= r.denom(),
{
    let stored = device.energy();
    let full = device.energy_full();
    stored.bounded_ratio(&full)
}

/// Fraction of the design capacity still usable, clamped into the unit
/// interval; only meaningful when the design capacity is known.
pub fn state_of_health<D: BatteryDevice>(device: &D) -> (r: Ratio)
    ensures
        (r.numer(), r.denom()) == bounded_pair(
            device.snapshot().energy_full,
            device.snapshot().energy_full_design,
        ),
        0 <= r.numer() <= r.denom(),
{
    let full = device.energy_full();
    let design = device.energy_full_design();
    full.bounded_ratio(&design)
}

/// Time until full, from the instantaneous rate; unavailable rather than
/// nonsensical when the device is not charging or the rate is zero.
pub fn time_to_full<D: BatteryDevice>(device: &D) -> (r: Option<Time>)
    ensures
        time_matches(r, spec_time_to_full(device.snapshot())),
{
    let state = device.state();
    let rate = device.energy_rate();
    if state == State::Charging && !rate.is_zero() {
        let stored = device.energy();
        let full = device.energy_full();
        Some(full.surplus_over(&stored).duration_at(&rate))
    } else {
        None
    }
}

/// Time until empty, from the instantaneous rate; unavailable rather
/// than nonsensical when the device is not discharging or the rate is
/// zero.
pub fn time_to_empty<D: BatteryDevice>(device: &D) -> (r: Option<Time>)
    ensures
        time_matches(r, spec_time_to_empty(device.snapshot())),
{
    let state = device.state();
    let rate = device.energy_rate();
    if state == State::Discharging && !rate.is_zero() {
        let stored = device.energy();
        Some(stored.duration_at(&rate))
    } else {
        None
    }
}

/// State of charge and state of health always lie in the unit interval,
/// whatever raw magnitudes the source reported.
pub proof fn lemma_bounded_ratio_in_unit_interval(part: int, whole: int)
    ensures
        ({
            let (n, d) = bounded_pair(part, whole);
            0 <= n <= d && 1 <= d
        }),
{
}

/// Time to empty is unavailable whenever the rate is zero or the state
/// is not discharging.
pub proof fn lemma_time_to_empty_unavailable(m: SnapshotModel)
    requires
        m.energy_rate == 0 || m.state != State::Discharging,
    ensures
        spec_time_to_empty(m) is None,
{
}

/// Time to full is unavailable whenever the rate is zero or the state is
/// not charging.
pub proof fn lemma_time_to_full_unavailable(m: SnapshotModel)
    requires
        m.energy_rate == 0 || m.state != State::Charging,
    ensures
        spec_time_to_full(m) is None,
{
}

} // verus!
