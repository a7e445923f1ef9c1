//! The two fixed binary structures the ioctl platform fills for one
//! battery: static information and dynamic status, together with the
//! bitflag and sentinel constants their fields use.

use vstd::prelude::*;

use crate::state::State;
use crate::technology::{spec_technology_from, spec_trimmed_len, Technology};
use crate::units::spec_abs;

verus! {

// Power-state bitflags of the status structure.
pub const BATTERY_POWER_ON_LINE: u32 = 0x00000001;
pub const BATTERY_DISCHARGING: u32 = 0x00000002;
pub const BATTERY_CHARGING: u32 = 0x00000004;
pub const BATTERY_CRITICAL: u32 = 0x00000008;

// Capability bitflags of the information structure.
pub const BATTERY_CAPACITY_RELATIVE: u32 = 0x40000000;
pub const BATTERY_SYSTEM_BATTERY: u32 = 0x80000000;

// Sentinel magnitudes denoting an unknown reading.
pub const BATTERY_UNKNOWN_CAPACITY: u32 = 0xFFFFFFFF;
pub const BATTERY_UNKNOWN_VOLTAGE: u32 = 0xFFFFFFFF;

/// The unknown-rate sentinel: the platform's raw constant is the bit
/// pattern `0x80000000`, which the signed rate field carries as the
/// smallest representable value.
pub const BATTERY_UNKNOWN_RATE: i32 = i32::MIN;

/// The chemistry tag of a raw chemistry field, `Unknown` when the tag
/// is unrecognized.
pub open spec fn spec_chemistry_technology(c: Seq<u8>) -> Technology {
    match spec_technology_from(c.subrange(0, spec_trimmed_len(c, c.len() as int))) {
        Some(tech) => tech,
        None => Technology::Unknown,
    }
}

/// Static description of one battery, as the information ioctl fills
/// it.
#[derive(Debug, Clone, Copy, Default)]
pub struct BatteryInformation {
    pub capabilities: u32,
    pub technology: u8,
    pub chemistry: [u8; 4],
    pub designed_capacity: u32,
    pub full_charged_capacity: u32,
    pub default_alert1: u32,
    pub default_alert2: u32,
    pub critical_bias: u32,
    pub cycle_count: u32,
}

impl BatteryInformation {
    pub fn is_system_battery(&self) -> (r: bool)
        ensures
            r == (self.capabilities & BATTERY_SYSTEM_BATTERY != 0),
    {
        (self.capabilities & BATTERY_SYSTEM_BATTERY) != 0
    }

    /// Whether capacities are reported relative to an unknown scale
    /// rather than as absolute quantities.
    pub fn is_relative(&self) -> (r: bool)
        ensures
            r == (self.capabilities & BATTERY_CAPACITY_RELATIVE != 0),
    {
        (self.capabilities & BATTERY_CAPACITY_RELATIVE) != 0
    }

    /// The chemistry named by the fixed-width chemistry field.
    pub fn technology(&self) -> (r: Technology)
        ensures
            r == spec_chemistry_technology(self.chemistry@),
    {
        Technology::from_chemistry(self.chemistry.as_slice())
    }

    /// Design capacity in milliwatt hours.
    pub fn designed_capacity(&self) -> (r: u32)
        ensures
            r == self.designed_capacity,
    {
        self.designed_capacity
    }

    /// Last full-charge capacity in milliwatt hours.
    pub fn full_charged_capacity(&self) -> (r: u32)
        ensures
            r == self.full_charged_capacity,
    {
        self.full_charged_capacity
    }

    /// The cycle count, absent when the platform reports none.
    pub fn cycle_count(&self) -> (r: Option<u32>)
        ensures
            r == if self.cycle_count == 0 {
                Option::<u32>::None
            } else {
                Some(self.cycle_count)
            },
    {
        if self.cycle_count == 0 {
            None
        } else {
            Some(self.cycle_count)
        }
    }
}

/// The charge-state classification the status bitflags carry, in
/// priority order: charging wins, then a critically low charge, then
/// discharging; a battery on external power that is not charging is
/// full; anything else is unknown.
pub open spec fn spec_status_state(power_state: u32) -> State {
    if power_state & BATTERY_CHARGING != 0 {
        State::Charging
    } else if power_state & BATTERY_CRITICAL != 0 {
        State::Empty
    } else if power_state & BATTERY_DISCHARGING != 0 {
        State::Discharging
    } else if power_state & BATTERY_POWER_ON_LINE != 0 {
        State::Full
    } else {
        State::Unknown
    }
}

/// Dynamic reading of one battery, as the status ioctl fills it.
#[derive(Debug, Clone, Copy, Default)]
pub struct BatteryStatus {
    pub power_state: u32,
    pub capacity: u32,
    pub voltage: u32,
    pub rate: i32,
}

impl BatteryStatus {
    pub fn is_charging(&self) -> (r: bool)
        ensures
            r == (self.power_state & BATTERY_CHARGING != 0),
    {
        (self.power_state & BATTERY_CHARGING) != 0
    }

    pub fn is_critical(&self) -> (r: bool)
        ensures
            r == (self.power_state & BATTERY_CRITICAL != 0),
    {
        (self.power_state & BATTERY_CRITICAL) != 0
    }

    pub fn is_discharging(&self) -> (r: bool)
        ensures
            r == (self.power_state & BATTERY_DISCHARGING != 0),
    {
        (self.power_state & BATTERY_DISCHARGING) != 0
    }

    pub fn is_power_on_line(&self) -> (r: bool)
        ensures
            r == (self.power_state & BATTERY_POWER_ON_LINE != 0),
    {
        (self.power_state & BATTERY_POWER_ON_LINE) != 0
    }

    /// The canonical classification of the power-state bitflags.
    pub fn state(&self) -> (r: State)
        ensures
            r == spec_status_state(self.power_state),
    {
        if self.is_charging() {
            State::Charging
        } else if self.is_critical() {
            State::Empty
        } else if self.is_discharging() {
            State::Discharging
        } else if self.is_power_on_line() && !self.is_charging() {
            State::Full
        } else {
            State::Unknown
        }
    }

    /// Voltage in millivolts; the sentinel magnitude denotes an
    /// unknown reading rather than a value.
    pub fn voltage(&self) -> (r: Option<u32>)
        ensures
            r == if self.voltage == BATTERY_UNKNOWN_VOLTAGE {
                Option::<u32>::None
            } else {
                Some(self.voltage)
            },
    {
        if self.voltage == BATTERY_UNKNOWN_VOLTAGE {
            None
        } else {
            Some(self.voltage)
        }
    }

    /// Remaining capacity in milliwatt hours; the sentinel magnitude
    /// denotes an unknown reading rather than a value.
    pub fn capacity(&self) -> (r: Option<u32>)
        ensures
            r == if self.capacity == BATTERY_UNKNOWN_CAPACITY {
                Option::<u32>::None
            } else {
                Some(self.capacity)
            },
    {
        if self.capacity == BATTERY_UNKNOWN_CAPACITY {
            None
        } else {
            Some(self.capacity)
        }
    }

    /// The magnitude of the current charge or discharge rate in
    /// milliwatts; the sentinel denotes an unknown reading.
    pub fn rate(&self) -> (r: Option<i32>)
        ensures
            match r {
                Some(v) => self.rate != BATTERY_UNKNOWN_RATE && v == spec_abs(self.rate as int),
                None => self.rate == BATTERY_UNKNOWN_RATE,
            },
    {
        if self.rate == BATTERY_UNKNOWN_RATE {
            None
        } else if self.rate < 0 {
            Some(-self.rate)
        } else {
            Some(self.rate)
        }
    }
}

} // verus!
