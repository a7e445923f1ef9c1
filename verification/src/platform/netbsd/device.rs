//! The sensor-table adapter itself: validation of one `acpibat` sensor
//! array, and the canonical device built from it.
//!
//! Only the `acpibat` battery driver is supported.  Its sensor array
//! carries a fixed record layout, and the last record is a metadata
//! dictionary identifying the device class.

use vstd::prelude::*;

use crate::device::{BatteryDevice, SnapshotModel};
use crate::errors::{Error, ErrorKind};
use crate::state::State;
use crate::technology::Technology;
use crate::text;
use crate::units::{spec_abs, abs_magnitude, ElectricCharge, ElectricCurrent, ElectricPotential, Energy, Power, Ratio, ThermodynamicTemperature, Time};
use super::utils::{spec_conversion_message, AsResult, GetResult};
use super::values::Value;

verus! {

// Record layout of the acpibat driver's sensor array.
pub const ACPIBAT_PRESENT: usize = 0;
pub const ACPIBAT_DVOLTAGE: usize = 1;
pub const ACPIBAT_VOLTAGE: usize = 2;
pub const ACPIBAT_DCAPACITY: usize = 3;
pub const ACPIBAT_LFCCAPACITY: usize = 4;
pub const ACPIBAT_CAPACITY: usize = 5;
pub const ACPIBAT_CHARGERATE: usize = 6;
pub const ACPIBAT_DISCHARGERATE: usize = 7;
pub const ACPIBAT_CHARGING: usize = 8;

/// Ghost description of a failed step: its error kind, and its exact
/// message where the adapter itself words the error — a failed shape
/// conversion carries one of the conversion messages instead.
pub ghost struct SpecFail {
    pub kind: ErrorKind,
    pub exact: Option<Seq<char>>,
}

pub open spec fn fail_invalid(m: Seq<char>) -> SpecFail {
    SpecFail { kind: ErrorKind::InvalidData, exact: Some(m) }
}

pub open spec fn fail_not_found(m: Seq<char>) -> SpecFail {
    SpecFail { kind: ErrorKind::NotFound, exact: Some(m) }
}

pub open spec fn fail_conversion() -> SpecFail {
    SpecFail { kind: ErrorKind::InvalidData, exact: None }
}

/// Whether a reported error agrees with a ghost failure description.
pub open spec fn error_matches(e: Error, f: SpecFail) -> bool {
    e@.kind == f.kind && match f.exact {
        Some(m) => e@.message == m,
        None => spec_conversion_message(e@.message),
    }
}

/// A record whose `state` field the kernel marked `valid`; any other
/// marking rejects the section.
pub open spec fn spec_validate(v: Value) -> Result<Value, SpecFail> {
    match v.string_at("state"@) {
        Some(s) => if s == "valid"@ {
            Ok(v)
        } else {
            Err(fail_invalid("Invalid section"@))
        },
        None => Err(fail_conversion()),
    }
}

/// The current value of a record that the kernel marked valid.
pub open spec fn spec_valid_cur(v: Value) -> Result<u64, SpecFail> {
    match spec_validate(v) {
        Ok(w) => match w.u64_at("cur-value"@) {
            Some(x) => Ok(x),
            None => Err(fail_conversion()),
        },
        Err(f) => Err(f),
    }
}

/// The fields read out of one sensor array, before any unit conversion.
pub ghost struct EnvModel {
    pub energy: u64,
    pub energy_full: u64,
    pub energy_full_design: u64,
    pub charge_rate: i64,
    pub discharge_rate: i64,
    pub voltage: u64,
    pub design_voltage: u64,
    pub charging: i64,
    pub punit: Seq<char>,
    pub eunit: Seq<char>,
}

/// What reading one named sensor yields: the raw snapshot on success,
/// and otherwise the failure of the first step that rejects it, in the
/// order the checks are made.  A name without the battery-driver prefix,
/// a metadata record of another device class, and a battery that only
/// reports relative percentages are rejections of the device, not read
/// failures; an absent battery is reported as not found.
pub open spec fn spec_envsys_new(name: Seq<char>, sensor: Value) -> Result<EnvModel, SpecFail> {
    if !text::spec_starts_with(name, "acpibat"@) {
        Err(fail_invalid("Not a valid battery"@))
    } else {
        match sensor.slice_model() {
            None => Err(fail_invalid("Cannot convert value to slice"@)),
            Some(records) => {
                if records.len() == 0 {
                    Err(fail_invalid("Cannot read sensor property"@))
                } else {
                    match records[records.len() - 1].dict_at("device-properties"@) {
                        None => Err(fail_invalid("Cannot convert value to Dict"@)),
                        Some(props) => match props.string_at("device-class"@) {
                            None => Err(fail_conversion()),
                            Some(class) => if class != "battery"@ {
                                Err(fail_invalid("Not a valid battery"@))
                            } else if records.len() < 9 {
                                Err(fail_invalid("Cannot read sensor property"@))
                            } else {
                                spec_envsys_presence(records)
                            },
                        },
                    }
                }
            },
        }
    }
}

/// The presence and percentage checks that follow the class check.
pub open spec fn spec_envsys_presence(records: Seq<Value>) -> Result<EnvModel, SpecFail> {
    match spec_valid_cur(records[ACPIBAT_PRESENT as int]) {
        Err(f) => Err(f),
        Ok(present) => if present != 1 {
            Err(fail_not_found("Battery absent"@))
        } else {
            match spec_validate(records[ACPIBAT_CAPACITY as int]) {
                Err(f) => Err(f),
                Ok(cap) => match cap.bool_at("want-percentage"@) {
                    None => Err(fail_conversion()),
                    Some(wants_percentage) => if !wants_percentage {
                        Err(fail_invalid("Not a valid battery"@))
                    } else {
                        spec_envsys_fields(records)
                    },
                },
            }
        },
    }
}

/// The raw field reads that follow a successful validation, in order.
pub open spec fn spec_envsys_fields(records: Seq<Value>) -> Result<EnvModel, SpecFail> {
    match spec_valid_cur(records[ACPIBAT_DVOLTAGE as int]) {
        Err(f) => Err(f),
        Ok(design_voltage) => match spec_valid_cur(records[ACPIBAT_VOLTAGE as int]) {
            Err(f) => Err(f),
            Ok(voltage) => match spec_valid_cur(records[ACPIBAT_DCAPACITY as int]) {
                Err(f) => Err(f),
                Ok(energy_full_design) => match spec_valid_cur(records[ACPIBAT_LFCCAPACITY as int]) {
                    Err(f) => Err(f),
                    Ok(energy_full) => match spec_valid_cur(records[ACPIBAT_CAPACITY as int]) {
                        Err(f) => Err(f),
                        Ok(energy) => match records[ACPIBAT_DCAPACITY as int].string_at("type"@) {
                            None => Err(fail_conversion()),
                            Some(eunit) => match records[ACPIBAT_CHARGERATE as int].i64_at("cur-value"@) {
                                None => Err(fail_conversion()),
                                Some(charge_rate) => match records[ACPIBAT_DISCHARGERATE as int].i64_at("cur-value"@) {
                                    None => Err(fail_conversion()),
                                    Some(discharge_rate) => match records[ACPIBAT_CHARGERATE as int].string_at("type"@) {
                                        None => Err(fail_conversion()),
                                        Some(punit) => match spec_validate(records[ACPIBAT_CHARGING as int]) {
                                            Err(f) => Err(f),
                                            Ok(chg) => match chg.i64_at("cur-value"@) {
                                                None => Err(fail_conversion()),
                                                Some(charging) => spec_envsys_health(
                                                    records,
                                                    EnvModel {
                                                        energy,
                                                        energy_full,
                                                        energy_full_design,
                                                        charge_rate,
                                                        discharge_rate,
                                                        voltage,
                                                        design_voltage,
                                                        charging,
                                                        punit,
                                                        eunit,
                                                    },
                                                ),
                                            },
                                        },
                                    },
                                },
                            },
                        },
                    },
                },
            },
        },
    }
}

/// A charging flag of zero beside a discharge-rate record the kernel
/// marked `invalid` denotes a battery that cannot currently report a
/// trustworthy rate; the flag is forced to the unhealthy sentinel.
pub open spec fn spec_envsys_health(records: Seq<Value>, m: EnvModel) -> Result<EnvModel, SpecFail> {
    if m.charging == 0 {
        match records[ACPIBAT_DISCHARGERATE as int].string_at("state"@) {
            None => Err(fail_conversion()),
            Some(rate_state) => if rate_state == "invalid"@ {
                Ok(EnvModel { charging: -1i64, ..m })
            } else {
                Ok(m)
            },
        }
    } else {
        Ok(m)
    }
}

/// A zero charging flag beside a discharge-rate record the kernel
/// marked invalid is forced to the unhealthy sentinel, exactly.
pub proof fn lemma_invalid_rate_state_forces_sentinel(records: Seq<Value>, m: EnvModel)
    requires
        m.charging == 0,
        records[ACPIBAT_DISCHARGERATE as int].string_at("state"@) == Some("invalid"@),
    ensures
        spec_envsys_health(records, m) == Ok::<EnvModel, SpecFail>(EnvModel { charging: -1i64, ..m }),
{
}

/// The unhealthy sentinel yields a reading whose rate is exactly zero,
/// classified `Unknown` whenever the capacity itself does not decide.
pub proof fn lemma_unhealthy_reading_is_unknown_with_zero_rate(m: EnvModel, snap: SnapshotModel)
    requires
        m.charging == -1,
        spec_sysmon_refresh(m) == Ok::<SnapshotModel, SpecFail>(snap),
    ensures
        snap.energy_rate == 0,
        snap.energy < snap.energy_full && snap.energy != 0 ==> snap.state == State::Unknown,
{
}

/// A reading whose stored energy reaches the full-charge capacity is
/// classified full, whatever the charging flag says.
pub proof fn lemma_full_when_energy_reaches_capacity(m: EnvModel, snap: SnapshotModel)
    requires
        spec_sysmon_refresh(m) == Ok::<SnapshotModel, SpecFail>(snap),
        snap.energy >= snap.energy_full,
    ensures
        snap.state == State::Full,
{
}

/// The raw per-sensor snapshot of one battery, as read from the sensor
/// array: magnitudes still in the kernel's units, with the unit tags
/// that select their interpretation.
#[derive(Debug, Default)]
pub struct EnvSysDevice {
    pub name: String,
    pub energy: u64,
    pub energy_full: u64,
    pub energy_full_design: u64,
    pub charge_rate: i64,
    pub discharge_rate: i64,
    pub voltage: u64,
    pub design_voltage: u64,
    pub charging: i64,
    pub punit: String,
    pub eunit: String,
}

impl EnvSysDevice {
    /// The ghost model of the fields this snapshot carries.
    pub open spec fn model(self) -> EnvModel {
        EnvModel {
            energy: self.energy,
            energy_full: self.energy_full,
            energy_full_design: self.energy_full_design,
            charge_rate: self.charge_rate,
            discharge_rate: self.discharge_rate,
            voltage: self.voltage,
            design_voltage: self.design_voltage,
            charging: self.charging,
            punit: self.punit@,
            eunit: self.eunit@,
        }
    }

    /// Reads one named sensor into a raw snapshot, exactly as
    /// [`spec_envsys_new`] describes.
    pub fn new(name: String, sensor: &Value) -> (r: Result<EnvSysDevice, Error>)
        ensures
            match r {
                Ok(d) => spec_envsys_new(name@, *sensor) matches Ok(m) && d.model() == m
                    && d.name@ == name@,
                Err(e) => spec_envsys_new(name@, *sensor) matches Err(f) && error_matches(e, f),
            },
    {
        // Only the acpibat driver is supported; the early check avoids
        // reading sensors of other drivers at all.
        if !text::str_starts_with(name.as_str(), "acpibat") {
            return Err(Error::invalid_data("Not a valid battery"));
        }

        let records: &[Value] = match sensor.as_rslice() {
            Ok(s) => s,
            Err(e) => return Err(e),
        };
        if records.len() == 0 {
            return Err(Error::invalid_data("Cannot read sensor property"));
        }

        // The last record is a metadata dictionary for device properties;
        // only a device of class `battery` is accepted.
        let props = match records[records.len() - 1].get_rdict("device-properties") {
            Ok(d) => d,
            Err(e) => return Err(e),
        };
        let class = match props.get_rstring("device-class") {
            Ok(s) => s,
            Err(e) => return Err(e),
        };
        if !text::str_equal(class, "battery") {
            return Err(Error::invalid_data("Not a valid battery"));
        }
        if records.len() < 9 {
            return Err(Error::invalid_data("Cannot read sensor property"));
        }

        let present = match Self::val_cur_value(&records[ACPIBAT_PRESENT]) {
            Ok(v) => v,
            Err(e) => return Err(e),
        };
        if present != 1 {
            return Err(Error::not_found("Battery absent"));
        }

        let capacity_record = match Self::validate(&records[ACPIBAT_CAPACITY]) {
            Ok(v) => v,
            Err(e) => return Err(e),
        };
        let wants_percentage = match capacity_record.get_rbool("want-percentage") {
            Ok(b) => b,
            Err(e) => return Err(e),
        };
        if !wants_percentage {
            return Err(Error::invalid_data("Not a valid battery"));
        }

        let design_voltage = match Self::val_cur_value(&records[ACPIBAT_DVOLTAGE]) {
            Ok(v) => v,
            Err(e) => return Err(e),
        };
        let voltage = match Self::val_cur_value(&records[ACPIBAT_VOLTAGE]) {
            Ok(v) => v,
            Err(e) => return Err(e),
        };
        let energy_full_design = match Self::val_cur_value(&records[ACPIBAT_DCAPACITY]) {
            Ok(v) => v,
            Err(e) => return Err(e),
        };
        let energy_full = match Self::val_cur_value(&records[ACPIBAT_LFCCAPACITY]) {
            Ok(v) => v,
            Err(e) => return Err(e),
        };
        let energy = match Self::val_cur_value(&records[ACPIBAT_CAPACITY]) {
            Ok(v) => v,
            Err(e) => return Err(e),
        };
        let eunit = match records[ACPIBAT_DCAPACITY].get_rstring("type") {
            Ok(s) => s.to_owned(),
            Err(e) => return Err(e),
        };
        let charge_rate = match records[ACPIBAT_CHARGERATE].get_ri64("cur-value") {
            Ok(v) => v,
            Err(e) => return Err(e),
        };
        let discharge_rate = match records[ACPIBAT_DISCHARGERATE].get_ri64("cur-value") {
            Ok(v) => v,
            Err(e) => return Err(e),
        };
        let punit = match records[ACPIBAT_CHARGERATE].get_rstring("type") {
            Ok(s) => s.to_owned(),
            Err(e) => return Err(e),
        };
        let charging_record = match Self::validate(&records[ACPIBAT_CHARGING]) {
            Ok(v) => v,
            Err(e) => return Err(e),
        };
        let mut charging = match charging_record.get_ri64("cur-value") {
            Ok(v) => v,
            Err(e) => return Err(e),
        };

        // A battery in trouble reports a zero charging flag beside a
        // discharge-rate record marked invalid.
        if charging == 0 {
            let rate_state = match records[ACPIBAT_DISCHARGERATE].get_rstring("state") {
                Ok(s) => s,
                Err(e) => return Err(e),
            };
            if text::str_equal(rate_state, "invalid") {
                charging = -1;
            }
        }

        Ok(EnvSysDevice {
            name,
            energy,
            energy_full,
            energy_full_design,
            charge_rate,
            discharge_rate,
            voltage,
            design_voltage,
            charging,
            punit,
            eunit,
        })
    }

    /// Accepts a record only when the kernel marked its state `valid`.
    pub fn validate(value: &Value) -> (r: Result<&Value, Error>)
        ensures
            match r {
                Ok(v) => spec_validate(*value) matches Ok(w) && w == *v,
                Err(e) => spec_validate(*value) matches Err(f) && error_matches(e, f),
            },
    {
        match value.get_rstring("state") {
            Ok(s) => if text::str_equal(s, "valid") {
                Ok(value)
            } else {
                Err(Error::invalid_data("Invalid section"))
            },
            Err(e) => Err(e),
        }
    }

    /// The current value of a record the kernel marked valid.
    pub fn val_cur_value(value: &Value) -> (r: Result<u64, Error>)
        ensures
            match r {
                Ok(x) => spec_valid_cur(*value) matches Ok(y) && x == y,
                Err(e) => spec_valid_cur(*value) matches Err(f) && error_matches(e, f),
            },
    {
        let validated = match Self::validate(value) {
            Ok(v) => v,
            Err(e) => return Err(e),
        };
        validated.get_ru64("cur-value")
    }
}

/// Microjoules held by a capacity reading of `raw` in the unit named by
/// `eunit`: charge units are scaled by the design voltage, energy units
/// are read directly.  A magnitude beyond the canonical range, or an
/// unsupported unit name, is a failure.
pub open spec fn spec_capacity_energy(raw: u64, eunit: Seq<char>, design_voltage: int) -> Result<int, SpecFail> {
    if eunit == "Ampere hour"@ {
        spec_charge_energy(raw, design_voltage)
    } else if eunit == "Watt hour"@ {
        if raw * 3_600 > u64::MAX {
            Err(fail_invalid("Value out of range"@))
        } else {
            Ok(raw * 3_600)
        }
    } else {
        Err(fail_invalid("Unit not supported"@))
    }
}

/// Microjoules of a charge of `raw` microampere hours at the design
/// voltage.
pub open spec fn spec_charge_energy(raw: u64, design_voltage: int) -> Result<int, SpecFail> {
    if raw * 3_600 > u64::MAX {
        Err(fail_invalid("Value out of range"@))
    } else if (raw * 3_600) * design_voltage / 1_000_000 > u64::MAX {
        Err(fail_invalid("Value out of range"@))
    } else {
        Ok((raw * 3_600) * design_voltage / 1_000_000)
    }
}

/// Microwatts of a rate of magnitude `raw` microamperes at the design
/// voltage.
pub open spec fn spec_current_power(raw: i64, design_voltage: int) -> Result<int, SpecFail> {
    if spec_abs(raw as int) * design_voltage / 1_000_000 > u64::MAX {
        Err(fail_invalid("Value out of range"@))
    } else {
        Ok(spec_abs(raw as int) * design_voltage / 1_000_000)
    }
}

/// The rate reported by the sensor, selected by the charging flag: the
/// charge rate while charging, the discharge rate while discharging,
/// and zero for the unhealthy sentinel.  A rate in current units is
/// scaled by the design voltage.
pub open spec fn spec_envsys_rate(d: EnvModel) -> Result<int, SpecFail> {
    if d.charging == 1 && d.punit == "Ampere"@ {
        spec_current_power(d.charge_rate, d.design_voltage as int)
    } else if d.charging == 1 && d.punit == "Watts"@ {
        Ok(spec_abs(d.charge_rate as int))
    } else if d.charging == 0 && d.punit == "Ampere"@ {
        spec_current_power(d.discharge_rate, d.design_voltage as int)
    } else if d.charging == 0 && d.punit == "Watts"@ {
        Ok(spec_abs(d.discharge_rate as int))
    } else if d.charging == -1 {
        Ok(0)
    } else {
        Err(fail_invalid("Unit not supported or invalid state"@))
    }
}

/// Final classification of the sensor reading: full if the stored
/// energy reaches the full-charge capacity, empty at exactly zero, and
/// otherwise by the charging flag, whose unhealthy sentinel yields
/// `Unknown`.
pub open spec fn spec_envsys_state(energy: int, energy_full: int, charging: i64) -> State {
    if energy >= energy_full {
        State::Full
    } else if energy == 0 {
        State::Empty
    } else if charging == 1 {
        State::Charging
    } else if charging == 0 {
        State::Discharging
    } else {
        State::Unknown
    }
}

/// The canonical reading derived from one raw sensor snapshot, or the
/// failure of the first conversion that rejects it.
pub open spec fn spec_sysmon_refresh(d: EnvModel) -> Result<SnapshotModel, SpecFail> {
    match spec_capacity_energy(d.energy, d.eunit, d.design_voltage as int) {
        Err(f) => Err(f),
        Ok(energy) => match spec_capacity_energy(d.energy_full, d.eunit, d.design_voltage as int) {
            Err(f) => Err(f),
            Ok(energy_full) => match spec_capacity_energy(d.energy_full_design, d.eunit, d.design_voltage as int) {
                Err(f) => Err(f),
                Ok(energy_full_design) => match spec_envsys_rate(d) {
                    Err(f) => Err(f),
                    Ok(energy_rate) => Ok(SnapshotModel {
                        energy,
                        energy_full,
                        energy_full_design,
                        energy_rate,
                        voltage: d.voltage as int,
                        state: spec_envsys_state(energy, energy_full, d.charging),
                        temperature: None,
                        cycle_count: None,
                        vendor: None,
                        model_name: None,
                        serial_number: None,
                        technology: Technology::Unknown,
                    }),
                },
            },
        },
    }
}

/// One battery of the sensor-table platform, holding the canonical
/// reading derived from its latest raw snapshot.  The sensor name is
/// the stable identity used to find the battery again in a later
/// whole-fleet snapshot.
#[derive(Debug, Default)]
pub struct SysMonDevice {
    pub name: String,
    pub energy: Energy,
    pub energy_full: Energy,
    pub energy_full_design: Energy,
    pub energy_rate: Power,
    pub state: State,
    pub voltage: ElectricPotential,
}

impl SysMonDevice {
    /// Builds a device from its first raw snapshot; a snapshot that
    /// cannot be converted yields the conversion's failure instead.
    pub fn new(data: EnvSysDevice) -> (r: Result<SysMonDevice, Error>)
        ensures
            match r {
                Ok(bat) => spec_sysmon_refresh(data.model()) matches Ok(m) && bat.snapshot() == m
                    && bat.name@ == data.name@,
                Err(e) => spec_sysmon_refresh(data.model()) matches Err(f) && error_matches(e, f),
            },
    {
        let mut bat = SysMonDevice {
            name: String::new(),
            energy: Energy::default(),
            energy_full: Energy::default(),
            energy_full_design: Energy::default(),
            energy_rate: Power::default(),
            state: State::Unknown,
            voltage: ElectricPotential::default(),
        };
        match bat.refresh(data) {
            Ok(()) => Ok(bat),
            Err(e) => Err(e),
        }
    }

    /// Replaces the whole reading with the one derived from a fresh raw
    /// snapshot.  The update is all-or-nothing: when any conversion
    /// fails, the previous reading is left exactly as it was.
    pub fn refresh(&mut self, data: EnvSysDevice) -> (r: Result<(), Error>)
        ensures
            match r {
                Ok(()) => spec_sysmon_refresh(data.model()) matches Ok(m)
                    && final(self).snapshot() == m
                    && final(self).name@ == data.name@,
                Err(e) => spec_sysmon_refresh(data.model()) matches Err(f) && error_matches(e, f)
                    && *final(self) == *old(self),
            },
    {
        let design_voltage = ElectricPotential::from_microvolts(data.design_voltage);

        let energy = match capacity_energy(data.energy, &data.eunit, &design_voltage) {
            Ok(e) => e,
            Err(e) => return Err(e),
        };
        let energy_full = match capacity_energy(data.energy_full, &data.eunit, &design_voltage) {
            Ok(e) => e,
            Err(e) => return Err(e),
        };
        let energy_full_design = match capacity_energy(data.energy_full_design, &data.eunit, &design_voltage) {
            Ok(e) => e,
            Err(e) => return Err(e),
        };

        let energy_rate = if data.charging == 1 && text::str_equal(data.punit.as_str(), "Ampere") {
            match current_power(data.charge_rate, &design_voltage) {
                Ok(p) => p,
                Err(e) => return Err(e),
            }
        } else if data.charging == 1 && text::str_equal(data.punit.as_str(), "Watts") {
            Power::from_microwatts(abs_magnitude(data.charge_rate))
        } else if data.charging == 0 && text::str_equal(data.punit.as_str(), "Ampere") {
            match current_power(data.discharge_rate, &design_voltage) {
                Ok(p) => p,
                Err(e) => return Err(e),
            }
        } else if data.charging == 0 && text::str_equal(data.punit.as_str(), "Watts") {
            Power::from_microwatts(abs_magnitude(data.discharge_rate))
        } else if data.charging == -1 {
            // The unhealthy sentinel: the sensor cannot currently report
            // a trustworthy rate, so none is claimed.
            Power::from_microwatts(0)
        } else {
            return Err(Error::invalid_data("Unit not supported or invalid state"));
        };

        let state = if energy.at_least(&energy_full) {
            State::Full
        } else if energy.is_zero() {
            State::Empty
        } else if data.charging == 1 {
            State::Charging
        } else if data.charging == 0 {
            State::Discharging
        } else {
            State::Unknown
        };

        self.name = data.name;
        self.energy = energy;
        self.energy_full = energy_full;
        self.energy_full_design = energy_full_design;
        self.energy_rate = energy_rate;
        self.state = state;
        self.voltage = ElectricPotential::from_microvolts(data.voltage);
        Ok(())
    }
}

/// One capacity reading converted into energy, per
/// [`spec_capacity_energy`].
fn capacity_energy(raw: u64, eunit: &String, design_voltage: &ElectricPotential) -> (r: Result<Energy, Error>)
    ensures
        match r {
            Ok(e) => spec_capacity_energy(raw, eunit@, design_voltage.value()) matches Ok(v)
                && e.value() == v,
            Err(e) => spec_capacity_energy(raw, eunit@, design_voltage.value()) matches Err(f)
                && error_matches(e, f),
        },
{
    if text::str_equal(eunit.as_str(), "Ampere hour") {
        let charge = match ElectricCharge::checked_from_microampere_hours(raw) {
            Some(c) => c,
            None => return Err(Error::invalid_data("Value out of range")),
        };
        match charge.checked_energy_at(design_voltage) {
            Some(e) => Ok(e),
            None => Err(Error::invalid_data("Value out of range")),
        }
    } else if text::str_equal(eunit.as_str(), "Watt hour") {
        match Energy::checked_from_microwatt_hours(raw) {
            Some(e) => Ok(e),
            None => Err(Error::invalid_data("Value out of range")),
        }
    } else {
        Err(Error::invalid_data("Unit not supported"))
    }
}

/// One rate reading in current units converted into power, per
/// [`spec_current_power`].
fn current_power(raw: i64, design_voltage: &ElectricPotential) -> (r: Result<Power, Error>)
    ensures
        match r {
            Ok(p) => spec_current_power(raw, design_voltage.value()) matches Ok(v)
                && p.value() == v,
            Err(e) => spec_current_power(raw, design_voltage.value()) matches Err(f)
                && error_matches(e, f),
        },
{
    let current = ElectricCurrent::from_microamperes(abs_magnitude(raw));
    match current.checked_power_at(design_voltage) {
        Some(p) => Ok(p),
        None => Err(Error::invalid_data("Value out of range")),
    }
}

impl BatteryDevice for SysMonDevice {
    closed spec fn snapshot(&self) -> SnapshotModel {
        SnapshotModel {
            energy: self.energy.value(),
            energy_full: self.energy_full.value(),
            energy_full_design: self.energy_full_design.value(),
            energy_rate: self.energy_rate.value(),
            voltage: self.voltage.value(),
            state: self.state,
            temperature: None,
            cycle_count: None,
            vendor: None,
            model_name: None,
            serial_number: None,
            technology: Technology::Unknown,
        }
    }

    fn energy(&self) -> (r: Energy) {
        self.energy
    }

    fn energy_full(&self) -> (r: Energy) {
        self.energy_full
    }

    fn energy_full_design(&self) -> (r: Energy) {
        self.energy_full_design
    }

    fn energy_rate(&self) -> (r: Power) {
        self.energy_rate
    }

    fn state(&self) -> (r: State) {
        self.state
    }

    fn voltage(&self) -> (r: ElectricPotential) {
        self.voltage
    }

    fn temperature(&self) -> (r: Option<ThermodynamicTemperature>) {
        None
    }

    fn vendor(&self) -> (r: Option<&str>) {
        None
    }

    fn model(&self) -> (r: Option<&str>) {
        None
    }

    fn serial_number(&self) -> (r: Option<&str>) {
        None
    }

    fn technology(&self) -> (r: Technology) {
        Technology::Unknown
    }

    fn cycle_count(&self) -> (r: Option<u32>) {
        None
    }
}

} // verus!
