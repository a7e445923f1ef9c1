//! The ioctl adapter itself: one battery's canonical reading built
//! from the fixed binary structures the platform fills.

use vstd::prelude::*;

use crate::device::{BatteryDevice, SnapshotModel};
use crate::errors::{Error, ErrorKind};
use crate::state::State;
use crate::technology::Technology;
use crate::units::{ElectricPotential, Energy, Power, ThermodynamicTemperature};
use super::ioctl::{spec_chemistry_technology, spec_status_state, BatteryInformation, BatteryStatus, BATTERY_CAPACITY_RELATIVE, BATTERY_UNKNOWN_CAPACITY, BATTERY_UNKNOWN_RATE, BATTERY_UNKNOWN_VOLTAGE};

verus! {

/// Everything the raw-acquisition collaborator reads for one battery
/// in one pass: the query tag that identifies the battery to the
/// platform, both ioctl structures, and the optional extras.
#[derive(Debug)]
pub struct DeviceReading {
    pub tag: u32,
    pub information: BatteryInformation,
    pub status: BatteryStatus,
    pub temperature_decikelvin: Option<u64>,
    pub device_name: Option<String>,
    pub manufacturer: Option<String>,
    pub serial_number: Option<String>,
}

/// The view of an optional owned string.
pub open spec fn opt_view(o: Option<String>) -> Option<Seq<char>> {
    match o {
        Some(s) => Some(s@),
        None => None,
    }
}

/// The dynamic fields one refresh derives from a reading.
pub ghost struct PowerFields {
    pub state: State,
    pub energy_rate: int,
    pub capacity: int,
    pub design_capacity: int,
    pub full_charged_capacity: int,
    pub voltage: int,
    pub temperature: Option<int>,
    pub cycle_count: Option<u32>,
}

/// What one refresh derives from a reading, or the message of the
/// sentinel that forbids it.  An unknown rate degrades to a zero rate;
/// an unknown capacity or voltage is an error, because energy and
/// voltage are load-bearing for every derived field.  A temperature
/// beyond the canonical range is treated as absent.
pub open spec fn spec_power_refresh(r: DeviceReading) -> Result<PowerFields, Seq<char>> {
    if r.status.capacity == BATTERY_UNKNOWN_CAPACITY {
        Err("Device capacity value is unknown"@)
    } else if r.status.voltage == BATTERY_UNKNOWN_VOLTAGE {
        Err("Device voltage value is unknown"@)
    } else {
        Ok(PowerFields {
            state: spec_status_state(r.status.power_state),
            energy_rate: if r.status.rate == BATTERY_UNKNOWN_RATE {
                0
            } else {
                crate::units::spec_abs(r.status.rate as int) * 1_000
            },
            capacity: r.status.capacity * 3_600_000,
            design_capacity: r.information.designed_capacity * 3_600_000,
            full_charged_capacity: r.information.full_charged_capacity * 3_600_000,
            voltage: r.status.voltage * 1_000,
            temperature: match r.temperature_decikelvin {
                Some(d) => if d * 100 <= i64::MAX {
                    Some((d * 100) as int)
                } else {
                    None
                },
                None => None,
            },
            cycle_count: if r.information.cycle_count == 0 {
                None
            } else {
                Some(r.information.cycle_count)
            },
        })
    }
}

/// The unknown-capacity and unknown-voltage sentinels make a refresh
/// fail as invalid data, while the unknown-rate sentinel only degrades
/// the rate to exactly zero.
pub proof fn lemma_sentinel_handling(r: DeviceReading)
    ensures
        r.status.capacity == BATTERY_UNKNOWN_CAPACITY ==> spec_power_refresh(r) == Err::<
            PowerFields,
            Seq<char>,
        >("Device capacity value is unknown"@),
        r.status.capacity != BATTERY_UNKNOWN_CAPACITY && r.status.voltage
            == BATTERY_UNKNOWN_VOLTAGE ==> spec_power_refresh(r) == Err::<
            PowerFields,
            Seq<char>,
        >("Device voltage value is unknown"@),
        r.status.capacity != BATTERY_UNKNOWN_CAPACITY && r.status.voltage
            != BATTERY_UNKNOWN_VOLTAGE && r.status.rate == BATTERY_UNKNOWN_RATE
            ==> (spec_power_refresh(r) matches Ok(f) && f.energy_rate == 0),
{
}

/// The full canonical snapshot a reading yields at discovery time.
pub open spec fn spec_power_snapshot(r: DeviceReading, f: PowerFields) -> SnapshotModel {
    SnapshotModel {
        energy: f.capacity,
        energy_full: f.full_charged_capacity,
        energy_full_design: f.design_capacity,
        energy_rate: f.energy_rate,
        voltage: f.voltage,
        state: f.state,
        temperature: f.temperature,
        cycle_count: f.cycle_count,
        vendor: opt_view(r.manufacturer),
        model_name: opt_view(r.device_name),
        serial_number: opt_view(r.serial_number),
        technology: spec_chemistry_technology(r.information.chemistry@),
    }
}

/// One battery of the ioctl platform.  The query tag captured at
/// discovery time is the stable identity a later refresh presents to
/// the platform.
#[derive(Debug)]
pub struct PowerDevice {
    tag: u32,
    technology: Technology,
    state: State,
    voltage: ElectricPotential,
    energy_rate: Power,
    capacity: Energy,
    design_capacity: Energy,
    full_charged_capacity: Energy,
    temperature: Option<ThermodynamicTemperature>,
    cycle_count: Option<u32>,
    device_name: Option<String>,
    manufacturer: Option<String>,
    serial_number: Option<String>,
}

impl PowerDevice {
    /// Ghost view of the stable query tag.
    pub closed spec fn tag_model(&self) -> u32 {
        self.tag
    }

    /// Builds a device from its first reading.  A battery that only
    /// reports relative capacities does not satisfy the canonical
    /// model and yields no device at all rather than an error.
    pub fn try_from(reading: &DeviceReading) -> (r: Result<Option<PowerDevice>, Error>)
        ensures
            match r {
                Ok(Some(d)) => reading.information.capabilities & BATTERY_CAPACITY_RELATIVE == 0
                    && (spec_power_refresh(*reading) matches Ok(f)
                        && d.snapshot() == spec_power_snapshot(*reading, f))
                    && d.tag_model() == reading.tag,
                Ok(None) => reading.information.capabilities & BATTERY_CAPACITY_RELATIVE != 0,
                Err(e) => reading.information.capabilities & BATTERY_CAPACITY_RELATIVE == 0
                    && (spec_power_refresh(*reading) matches Err(m)
                        && e@.kind == ErrorKind::InvalidData
                        && e@.message == m),
            },
    {
        if reading.information.is_relative() {
            // Batteries with relative-only data are not supported.
            return Ok(None);
        }

        let device_name = match &reading.device_name {
            Some(s) => Some(s.clone()),
            None => None,
        };
        let manufacturer = match &reading.manufacturer {
            Some(s) => Some(s.clone()),
            None => None,
        };
        let serial_number = match &reading.serial_number {
            Some(s) => Some(s.clone()),
            None => None,
        };

        let mut device = PowerDevice {
            tag: reading.tag,
            technology: reading.information.technology(),
            state: State::Unknown,
            voltage: ElectricPotential::default(),
            energy_rate: Power::default(),
            capacity: Energy::default(),
            design_capacity: Energy::default(),
            full_charged_capacity: Energy::default(),
            temperature: None,
            cycle_count: None,
            device_name,
            manufacturer,
            serial_number,
        };
        match device.refresh(reading) {
            Ok(()) => Ok(Some(device)),
            Err(e) => Err(e),
        }
    }

    /// Overwrites every dynamic field from a fresh reading.  The
    /// update is all-or-nothing: on a sentinel error the previous
    /// reading is kept exactly as it was.
    pub fn refresh(&mut self, reading: &DeviceReading) -> (r: Result<(), Error>)
        ensures
            match r {
                Ok(()) => spec_power_refresh(*reading) matches Ok(f)
                    && final(self).snapshot() == (SnapshotModel {
                        energy: f.capacity,
                        energy_full: f.full_charged_capacity,
                        energy_full_design: f.design_capacity,
                        energy_rate: f.energy_rate,
                        voltage: f.voltage,
                        state: f.state,
                        temperature: f.temperature,
                        cycle_count: f.cycle_count,
                        ..old(self).snapshot()
                    })
                    && final(self).tag_model() == old(self).tag_model(),
                Err(e) => spec_power_refresh(*reading) matches Err(m)
                    && e@.kind == ErrorKind::InvalidData
                    && e@.message == m
                    && *final(self) == *old(self),
            },
    {
        let rate = match reading.status.rate() {
            // Battery neither charging nor discharging: the rate is
            // reported as zero rather than unknown.
            None => Power::from_microwatts(0),
            Some(value) => Power::from_milliwatts(value as u64),
        };
        let capacity = match reading.status.capacity() {
            None => return Err(Error::invalid_data("Device capacity value is unknown")),
            Some(value) => Energy::from_milliwatt_hours(value as u64),
        };
        let voltage = match reading.status.voltage() {
            None => return Err(Error::invalid_data("Device voltage value is unknown")),
            Some(value) => ElectricPotential::from_millivolts(value as u64),
        };
        let temperature = match reading.temperature_decikelvin {
            Some(value) => ThermodynamicTemperature::checked_from_decikelvin(value),
            None => None,
        };

        self.state = reading.status.state();
        self.energy_rate = rate;
        self.design_capacity = Energy::from_milliwatt_hours(reading.information.designed_capacity() as u64);
        self.full_charged_capacity = Energy::from_milliwatt_hours(reading.information.full_charged_capacity() as u64);
        self.cycle_count = reading.information.cycle_count();
        self.capacity = capacity;
        self.voltage = voltage;
        self.temperature = temperature;
        Ok(())
    }

    /// The stable query tag captured at discovery time.
    pub fn tag(&self) -> (r: u32)
        ensures
            r == self.tag_model(),
    {
        self.tag
    }
}

impl BatteryDevice for PowerDevice {
    closed spec fn snapshot(&self) -> SnapshotModel {
        SnapshotModel {
            energy: self.capacity.value(),
            energy_full: self.full_charged_capacity.value(),
            energy_full_design: self.design_capacity.value(),
            energy_rate: self.energy_rate.value(),
            voltage: self.voltage.value(),
            state: self.state,
            temperature: match self.temperature {
                Some(t) => Some(t.value()),
                None => None,
            },
            cycle_count: self.cycle_count,
            vendor: opt_view(self.manufacturer),
            model_name: opt_view(self.device_name),
            serial_number: opt_view(self.serial_number),
            technology: self.technology,
        }
    }

    fn energy(&self) -> (r: Energy) {
        self.capacity
    }

    fn energy_full(&self) -> (r: Energy) {
        self.full_charged_capacity
    }

    fn energy_full_design(&self) -> (r: Energy) {
        self.design_capacity
    }

    fn energy_rate(&self) -> (r: Power) {
        self.energy_rate
    }

    fn state(&self) -> (r: State) {
        self.state
    }

    fn voltage(&self) -> (r: ElectricPotential) {
        self.voltage
    }

    fn temperature(&self) -> (r: Option<ThermodynamicTemperature>) {
        self.temperature
    }

    fn vendor(&self) -> (r: Option<&str>) {
        match &self.manufacturer {
            Some(s) => Some(s.as_str()),
            None => None,
        }
    }

    fn model(&self) -> (r: Option<&str>) {
        match &self.device_name {
            Some(s) => Some(s.as_str()),
            None => None,
        }
    }

    fn serial_number(&self) -> (r: Option<&str>) {
        match &self.serial_number {
            Some(s) => Some(s.as_str()),
            None => None,
        }
    }

    fn technology(&self) -> (r: Technology) {
        self.technology
    }

    fn cycle_count(&self) -> (r: Option<u32>) {
        self.cycle_count
    }
}

} // verus!
