//! Adapter for the property-dictionary platform: one battery is a
//! keyed dictionary of boolean, numeric and string properties, and
//! capacity is reported in charge units that energy is derived from at
//! the instantaneous voltage.

use vstd::prelude::*;

use crate::device::{time_matches, BatteryDevice, SnapshotModel};
use crate::errors::{Error, ErrorKind};
use crate::state::State;
use crate::technology::Technology;
use crate::text;
use crate::units::{bounded_pair, spec_abs, abs_magnitude, ElectricCharge, ElectricCurrent, ElectricPotential, Energy, Power, Ratio, ThermodynamicTemperature, Time};

verus! {

/// One property of the keyed snapshot: the adapter only ever reads
/// booleans, numbers and strings.
#[derive(Debug)]
pub enum PropertyValue {
    Boolean(bool),
    Number(i32),
    Text(String),
}

/// The already-parsed property dictionary the raw-acquisition
/// collaborator hands the adapter; the first entry with a given key
/// wins.  Hardware families that publish their absolute capacities
/// under vendor-prefixed keys are the collaborator's business: it
/// presents them here as `MaxCapacity` and `CurrentCapacity`.
#[derive(Debug)]
pub struct PropertyDict {
    pub entries: Vec<(String, PropertyValue)>,
}

/// The first property stored under `key`, if any.
pub open spec fn spec_prop_lookup(entries: Seq<(String, PropertyValue)>, key: Seq<char>) -> Option<
    PropertyValue,
>
    decreases entries.len(),
{
    if entries.len() == 0 {
        None
    } else if entries[0].0@ == key {
        Some(entries[0].1)
    } else {
        spec_prop_lookup(entries.drop_first(), key)
    }
}

proof fn lemma_prop_lookup_step(entries: Seq<(String, PropertyValue)>, key: Seq<char>, i: int)
    requires
        0 <= i < entries.len(),
        entries[i].0@ != key,
    ensures
        spec_prop_lookup(entries.skip(i), key) == spec_prop_lookup(entries.skip(i + 1), key),
{
    assert(entries.skip(i).drop_first() =~= entries.skip(i + 1));
    assert(entries.skip(i)[0] == entries[i]);
}

impl PropertyDict {
    pub fn new() -> (r: PropertyDict)
        ensures
            r.entries@.len() == 0,
    {
        PropertyDict { entries: Vec::new() }
    }

    /// Appends a property; an existing entry with the same key keeps
    /// priority on lookup.
    pub fn push(&mut self, key: String, value: PropertyValue)
        ensures
            final(self).entries@ == old(self).entries@.push((key, value)),
    {
        self.entries.push((key, value));
    }

    /// The first property stored under `key`, if any.
    pub fn get(&self, key: &str) -> (r: Option<&PropertyValue>)
        ensures
            match r {
                Some(v) => spec_prop_lookup(self.entries@, key@) == Some(*v),
                None => spec_prop_lookup(self.entries@, key@) is None,
            },
    {
        let ghost all = self.entries@;
        proof {
            assert(all.skip(0) =~= all);
        }
        let mut i: usize = 0;
        while i < self.entries.len()
            invariant
                all == self.entries@,
                i <= all.len(),
                spec_prop_lookup(all, key@) == spec_prop_lookup(all.skip(i as int), key@),
            decreases all.len() - i,
        {
            if text::str_equal(self.entries[i].0.as_str(), key) {
                assert(all.skip(i as int)[0] == all[i as int]);
                return Some(&self.entries[i].1);
            }
            proof {
                lemma_prop_lookup_step(all, key@, i as int);
            }
            i = i + 1;
        }
        proof {
            assert(all.skip(all.len() as int) =~= Seq::<(String, PropertyValue)>::empty());
        }
        None
    }
}

/// The boolean stored under `key`, if any.
pub open spec fn spec_bool_at(d: PropertyDict, key: Seq<char>) -> Option<bool> {
    match spec_prop_lookup(d.entries@, key) {
        Some(PropertyValue::Boolean(b)) => Some(b),
        _ => None,
    }
}

/// The number stored under `key`, if any.
pub open spec fn spec_i32_at(d: PropertyDict, key: Seq<char>) -> Option<i32> {
    match spec_prop_lookup(d.entries@, key) {
        Some(PropertyValue::Number(n)) => Some(n),
        _ => None,
    }
}

/// The text stored under `key`, if any.
pub open spec fn spec_string_at(d: PropertyDict, key: Seq<char>) -> Option<Seq<char>> {
    match spec_prop_lookup(d.entries@, key) {
        Some(PropertyValue::Text(s)) => Some(s@),
        _ => None,
    }
}

/// A signed 32-bit reading reinterpreted as the unsigned magnitude the
/// platform stored in it.
pub open spec fn spec_u32_of(i: i32) -> int {
    if i >= 0 {
        i as int
    } else {
        i + 0x1_0000_0000
    }
}

/// The instantaneous values parsed from one property snapshot, in
/// canonical magnitudes: microvolts, microamperes, microcoulombs,
/// millikelvin, seconds.
pub ghost struct InstantModel {
    pub fully_charged: Option<bool>,
    pub external_connected: bool,
    pub is_charging: bool,
    pub voltage: int,
    pub amperage: int,
    pub design_capacity: Option<int>,
    pub max_capacity: int,
    pub current_capacity: int,
    pub temperature: Option<int>,
    pub cycle_count: Option<u32>,
    pub time_remaining: Option<int>,
}

/// Whether every product of a capacity or rate with the voltage stays
/// in the canonical range, so that derived energies are representable.
pub open spec fn spec_instant_bounded(m: InstantModel) -> bool {
    &&& m.current_capacity * m.voltage / 1_000_000 <= u64::MAX
    &&& m.max_capacity * m.voltage / 1_000_000 <= u64::MAX
    &&& match m.design_capacity {
        Some(dc) => dc * m.voltage / 1_000_000 <= u64::MAX,
        None => true,
    }
    &&& m.amperage * m.voltage / 1_000_000 <= u64::MAX
}

/// What parsing one property snapshot yields.  A required key that is
/// missing or of the wrong shape is a malformed snapshot, rejected as
/// invalid data under the key's own name; optional keys simply leave
/// their field absent.  The
/// capacity-times-voltage products must stay representable, else the
/// snapshot is rejected as out of range.
pub open spec fn spec_instant(d: PropertyDict) -> Result<InstantModel, (ErrorKind, Seq<char>)> {
    match spec_bool_at(d, "ExternalConnected"@) {
        None => Err((ErrorKind::InvalidData, "ExternalConnected"@)),
        Some(external_connected) => match spec_bool_at(d, "IsCharging"@) {
            None => Err((ErrorKind::InvalidData, "IsCharging"@)),
            Some(is_charging) => match spec_i32_at(d, "Voltage"@) {
                None => Err((ErrorKind::InvalidData, "Voltage"@)),
                Some(voltage_raw) => match spec_i32_at(d, "Amperage"@) {
                    None => Err((ErrorKind::InvalidData, "Amperage"@)),
                    Some(amperage_raw) => match spec_i32_at(d, "MaxCapacity"@) {
                        None => Err((ErrorKind::InvalidData, "MaxCapacity"@)),
                        Some(max_raw) => match spec_i32_at(d, "CurrentCapacity"@) {
                            None => Err((ErrorKind::InvalidData, "CurrentCapacity"@)),
                            Some(current_raw) => {
                                let m = InstantModel {
                                    fully_charged: spec_bool_at(d, "FullyCharged"@),
                                    external_connected,
                                    is_charging,
                                    voltage: spec_u32_of(voltage_raw) * 1_000,
                                    amperage: spec_abs(amperage_raw as int) * 1_000,
                                    design_capacity: match spec_i32_at(d, "DesignCapacity"@) {
                                        Some(raw) => Some(spec_u32_of(raw) * 3_600_000),
                                        None => None,
                                    },
                                    max_capacity: spec_u32_of(max_raw) * 3_600_000,
                                    current_capacity: spec_u32_of(current_raw) * 3_600_000,
                                    temperature: match spec_i32_at(d, "Temperature"@) {
                                        Some(raw) => Some(raw * 10 + 273_150),
                                        None => None,
                                    },
                                    cycle_count: match spec_i32_at(d, "CycleCount"@) {
                                        Some(raw) => Some((spec_u32_of(raw)) as u32),
                                        None => None,
                                    },
                                    time_remaining: match spec_i32_at(d, "TimeRemaining"@) {
                                        Some(raw) => if raw == i32::MAX || raw < 0 {
                                            None
                                        } else {
                                            Some(raw * 60)
                                        },
                                        None => None,
                                    },
                                };
                                if spec_instant_bounded(m) {
                                    Ok(m)
                                } else {
                                    Err((ErrorKind::InvalidData, "Value out of range"@))
                                }
                            },
                        },
                    },
                },
            },
        },
    }
}

/// The instantaneous reading of one battery, parsed from a property
/// snapshot.
#[derive(Debug)]
pub struct InstantData {
    fully_charged: Option<bool>,
    external_connected: bool,
    is_charging: bool,
    voltage: ElectricPotential,
    amperage: ElectricCurrent,
    design_capacity: Option<ElectricCharge>,
    max_capacity: ElectricCharge,
    current_capacity: ElectricCharge,
    temperature: Option<ThermodynamicTemperature>,
    cycle_count: Option<u32>,
    time_remaining: Option<Time>,
}

impl InstantData {
    #[verifier::type_invariant]
    spec fn bounded(self) -> bool {
        spec_instant_bounded(self.model())
    }

    /// The ghost model of this reading.
    pub closed spec fn model(self) -> InstantModel {
        InstantModel {
            fully_charged: self.fully_charged,
            external_connected: self.external_connected,
            is_charging: self.is_charging,
            voltage: self.voltage.value(),
            amperage: self.amperage.value(),
            design_capacity: match self.design_capacity {
                Some(c) => Some(c.value()),
                None => None,
            },
            max_capacity: self.max_capacity.value(),
            current_capacity: self.current_capacity.value(),
            temperature: match self.temperature {
                Some(t) => Some(t.value()),
                None => None,
            },
            cycle_count: self.cycle_count,
            time_remaining: match self.time_remaining {
                Some(t) => Some(t.value()),
                None => None,
            },
        }
    }

    /// Parses one property snapshot, exactly as [`spec_instant`]
    /// describes.
    pub fn try_from(props: &PropertyDict) -> (r: Result<InstantData, Error>)
        ensures
            match r {
                Ok(d) => spec_instant(*props) matches Ok(m) && d.model() == m,
                Err(e) => spec_instant(*props) matches Err(f) && e@.kind == f.0
                    && e@.message == f.1,
            },
    {
        let fully_charged = match Self::get_bool(props, "FullyCharged") {
            Ok(b) => Some(b),
            Err(_) => None,
        };
        let external_connected = match Self::get_bool(props, "ExternalConnected") {
            Ok(b) => b,
            Err(e) => return Err(e),
        };
        let is_charging = match Self::get_bool(props, "IsCharging") {
            Ok(b) => b,
            Err(e) => return Err(e),
        };
        let voltage_raw = match Self::get_u32(props, "Voltage") {
            Ok(v) => v,
            Err(e) => return Err(e),
        };
        let amperage_raw = match Self::get_i32(props, "Amperage") {
            Ok(v) => v,
            Err(e) => return Err(e),
        };
        let design_raw = match Self::get_u32(props, "DesignCapacity") {
            Ok(v) => Some(v),
            Err(_) => None,
        };
        let max_raw = match Self::get_u32(props, "MaxCapacity") {
            Ok(v) => v,
            Err(e) => return Err(e),
        };
        let current_raw = match Self::get_u32(props, "CurrentCapacity") {
            Ok(v) => v,
            Err(e) => return Err(e),
        };
        let temperature = match Self::get_i32(props, "Temperature") {
            Ok(v) => Some(ThermodynamicTemperature::from_centidegrees_celsius(v as i64)),
            Err(_) => None,
        };
        let cycle_count = match Self::get_u32(props, "CycleCount") {
            Ok(v) => Some(v),
            Err(_) => None,
        };
        let time_remaining = match Self::get_i32(props, "TimeRemaining") {
            Ok(v) => if v == i32::MAX || v < 0 {
                None
            } else {
                Some(Time::from_minutes(v as u64))
            },
            Err(_) => None,
        };

        let voltage = ElectricPotential::from_millivolts(voltage_raw as u64);
        let amperage = ElectricCurrent::from_milliamperes(abs_magnitude(amperage_raw as i64));
        let design_capacity = match design_raw {
            Some(raw) => Some(ElectricCharge::from_milliampere_hours(raw as u64)),
            None => None,
        };
        let max_capacity = ElectricCharge::from_milliampere_hours(max_raw as u64);
        let current_capacity = ElectricCharge::from_milliampere_hours(current_raw as u64);

        // The capacity and rate products with the voltage must stay
        // representable, so that every derived energy exists.
        if current_capacity.checked_energy_at(&voltage).is_none() {
            return Err(Error::invalid_data("Value out of range"));
        }
        if max_capacity.checked_energy_at(&voltage).is_none() {
            return Err(Error::invalid_data("Value out of range"));
        }
        if let Some(dc) = &design_capacity {
            if dc.checked_energy_at(&voltage).is_none() {
                return Err(Error::invalid_data("Value out of range"));
            }
        }
        if amperage.checked_power_at(&voltage).is_none() {
            return Err(Error::invalid_data("Value out of range"));
        }

        Ok(InstantData {
            fully_charged,
            external_connected,
            is_charging,
            voltage,
            amperage,
            design_capacity,
            max_capacity,
            current_capacity,
            temperature,
            cycle_count,
            time_remaining,
        })
    }

    /// The boolean stored under `raw_key`; a missing or non-boolean
    /// property is rejected as invalid data under the key's own name.
    fn get_bool(props: &PropertyDict, raw_key: &str) -> (r: Result<bool, Error>)
        ensures
            match r {
                Ok(b) => spec_bool_at(*props, raw_key@) == Some(b),
                Err(e) => spec_bool_at(*props, raw_key@) is None
                    && e@.kind == ErrorKind::InvalidData && e@.message == raw_key@,
            },
    {
        match props.get(raw_key) {
            Some(PropertyValue::Boolean(b)) => Ok(*b),
            _ => Err(Error::invalid_data(raw_key)),
        }
    }

    /// The number stored under `raw_key`, reinterpreted as the
    /// unsigned magnitude the platform stored in it.
    fn get_u32(props: &PropertyDict, raw_key: &str) -> (r: Result<u32, Error>)
        ensures
            match r {
                Ok(v) => spec_i32_at(*props, raw_key@) matches Some(raw)
                    && v == spec_u32_of(raw),
                Err(e) => spec_i32_at(*props, raw_key@) is None
                    && e@.kind == ErrorKind::InvalidData && e@.message == raw_key@,
            },
    {
        match props.get(raw_key) {
            Some(PropertyValue::Number(n)) => {
                if *n >= 0 {
                    Ok(*n as u32)
                } else {
                    Ok(((*n as i64) + 0x1_0000_0000) as u32)
                }
            },
            _ => Err(Error::invalid_data(raw_key)),
        }
    }

    /// The number stored under `raw_key`.
    fn get_i32(props: &PropertyDict, raw_key: &str) -> (r: Result<i32, Error>)
        ensures
            match r {
                Ok(v) => spec_i32_at(*props, raw_key@) == Some(v),
                Err(e) => spec_i32_at(*props, raw_key@) is None
                    && e@.kind == ErrorKind::InvalidData && e@.message == raw_key@,
            },
    {
        match props.get(raw_key) {
            Some(PropertyValue::Number(n)) => Ok(*n),
            _ => Err(Error::invalid_data(raw_key)),
        }
    }

    /// The text stored under `raw_key`.
    fn get_string(props: &PropertyDict, raw_key: &str) -> (r: Result<String, Error>)
        ensures
            match r {
                Ok(s) => spec_string_at(*props, raw_key@) == Some(s@),
                Err(e) => spec_string_at(*props, raw_key@) is None
                    && e@.kind == ErrorKind::InvalidData && e@.message == raw_key@,
            },
    {
        match props.get(raw_key) {
            Some(PropertyValue::Text(s)) => Ok(s.clone()),
            _ => Err(Error::invalid_data(raw_key)),
        }
    }
}

/// The classification the property snapshot carries, in priority
/// order: a battery without external power is discharging whatever the
/// other flags say; an explicit charging flag wins next; an exactly
/// zero capacity is empty; the fully-charged flag, taken as set when
/// absent, reports full; anything else is unknown.
pub open spec fn spec_darwin_state(m: InstantModel) -> State {
    if !m.external_connected {
        State::Discharging
    } else if m.is_charging {
        State::Charging
    } else if m.current_capacity == 0 {
        State::Empty
    } else if (match m.fully_charged {
        Some(b) => b,
        None => true,
    }) {
        State::Full
    } else {
        State::Unknown
    }
}

/// A battery that is not on external power is classified as
/// discharging, whatever the charging and fully-charged flags say.
pub proof fn lemma_unplugged_is_discharging(m: InstantModel)
    requires
        !m.external_connected,
    ensures
        spec_darwin_state(m) == State::Discharging,
{
}

/// One property-dictionary battery source: its latest parsed reading
/// and the vendor strings captured at discovery time.
#[derive(Debug)]
pub struct PowerSource {
    data: InstantData,
    manufacturer: Option<String>,
    device_name: Option<String>,
    serial_number: Option<String>,
}

impl PowerSource {
    /// The ghost model of the latest reading.
    pub closed spec fn data_model(&self) -> InstantModel {
        self.data.model()
    }

    /// Ghost views of the vendor strings.
    pub closed spec fn manufacturer_model(&self) -> Option<Seq<char>> {
        match self.manufacturer {
            Some(s) => Some(s@),
            None => None,
        }
    }

    pub closed spec fn device_name_model(&self) -> Option<Seq<char>> {
        match self.device_name {
            Some(s) => Some(s@),
            None => None,
        }
    }

    pub closed spec fn serial_number_model(&self) -> Option<Seq<char>> {
        match self.serial_number {
            Some(s) => Some(s@),
            None => None,
        }
    }

    /// Builds a source from its first property snapshot; the vendor
    /// strings are captured here and kept across refreshes.
    pub fn try_from(props: &PropertyDict) -> (r: Result<PowerSource, Error>)
        ensures
            match r {
                Ok(ps) => spec_instant(*props) matches Ok(m) && ps.data_model() == m
                    && ps.manufacturer_model() == spec_string_at(*props, "Manufacturer"@)
                    && ps.device_name_model() == spec_string_at(*props, "DeviceName"@)
                    && ps.serial_number_model() == spec_string_at(*props, "BatterySerialNumber"@),
                Err(e) => spec_instant(*props) matches Err(f) && e@.kind == f.0
                    && e@.message == f.1,
            },
    {
        let data = match InstantData::try_from(props) {
            Ok(d) => d,
            Err(e) => return Err(e),
        };
        let manufacturer = match InstantData::get_string(props, "Manufacturer") {
            Ok(s) => Some(s),
            Err(_) => None,
        };
        let device_name = match InstantData::get_string(props, "DeviceName") {
            Ok(s) => Some(s),
            Err(_) => None,
        };
        let serial_number = match InstantData::get_string(props, "BatterySerialNumber") {
            Ok(s) => Some(s),
            Err(_) => None,
        };
        Ok(PowerSource { data, manufacturer, device_name, serial_number })
    }

    /// Replaces the reading with one parsed from a fresh snapshot; the
    /// vendor strings are kept.  On a parse failure the previous
    /// reading is left exactly as it was.
    pub fn refresh(&mut self, props: &PropertyDict) -> (r: Result<(), Error>)
        ensures
            match r {
                Ok(()) => spec_instant(*props) matches Ok(m) && final(self).data_model() == m
                    && final(self).manufacturer_model() == old(self).manufacturer_model()
                    && final(self).device_name_model() == old(self).device_name_model()
                    && final(self).serial_number_model() == old(self).serial_number_model(),
                Err(e) => spec_instant(*props) matches Err(f) && e@.kind == f.0
                    && e@.message == f.1
                    && *final(self) == *old(self),
            },
    {
        let data = match InstantData::try_from(props) {
            Ok(d) => d,
            Err(e) => return Err(e),
        };
        self.data = data;
        Ok(())
    }

    pub fn fully_charged(&self) -> (r: bool)
        ensures
            r == match self.data_model().fully_charged {
                Some(b) => b,
                None => true,
            },
    {
        match self.data.fully_charged {
            Some(b) => b,
            None => true,
        }
    }

    pub fn external_connected(&self) -> (r: bool)
        ensures
            r == self.data_model().external_connected,
    {
        self.data.external_connected
    }

    pub fn is_charging(&self) -> (r: bool)
        ensures
            r == self.data_model().is_charging,
    {
        self.data.is_charging
    }

    pub fn voltage(&self) -> (r: ElectricPotential)
        ensures
            r.value() == self.data_model().voltage,
    {
        self.data.voltage
    }

    pub fn amperage(&self) -> (r: ElectricCurrent)
        ensures
            r.value() == self.data_model().amperage,
    {
        self.data.amperage
    }

    /// The design capacity, taken as zero when the platform does not
    /// report one.
    pub fn design_capacity(&self) -> (r: ElectricCharge)
        ensures
            r.value() == match self.data_model().design_capacity {
                Some(c) => c,
                None => 0int,
            },
    {
        match &self.data.design_capacity {
            Some(c) => *c,
            None => ElectricCharge::default(),
        }
    }

    pub fn max_capacity(&self) -> (r: ElectricCharge)
        ensures
            r.value() == self.data_model().max_capacity,
    {
        self.data.max_capacity
    }

    pub fn current_capacity(&self) -> (r: ElectricCharge)
        ensures
            r.value() == self.data_model().current_capacity,
    {
        self.data.current_capacity
    }

    pub fn temperature(&self) -> (r: Option<ThermodynamicTemperature>)
        ensures
            match r {
                Some(t) => self.data_model().temperature == Some(t.value()),
                None => self.data_model().temperature is None,
            },
    {
        self.data.temperature
    }

    pub fn cycle_count(&self) -> (r: Option<u32>)
        ensures
            r == self.data_model().cycle_count,
    {
        self.data.cycle_count
    }

    pub fn time_remaining(&self) -> (r: Option<Time>)
        ensures
            time_matches(r, self.data_model().time_remaining),
    {
        self.data.time_remaining
    }

    pub fn manufacturer(&self) -> (r: Option<&str>)
        ensures
            match r {
                Some(s) => self.manufacturer_model() == Some(s@),
                None => self.manufacturer_model() is None,
            },
    {
        match &self.manufacturer {
            Some(s) => Some(s.as_str()),
            None => None,
        }
    }

    pub fn device_name(&self) -> (r: Option<&str>)
        ensures
            match r {
                Some(s) => self.device_name_model() == Some(s@),
                None => self.device_name_model() is None,
            },
    {
        match &self.device_name {
            Some(s) => Some(s.as_str()),
            None => None,
        }
    }

    pub fn serial_number(&self) -> (r: Option<&str>)
        ensures
            match r {
                Some(s) => self.serial_number_model() == Some(s@),
                None => self.serial_number_model() is None,
            },
    {
        match &self.serial_number {
            Some(s) => Some(s.as_str()),
            None => None,
        }
    }

}

/// Seconds until full as this platform reports them: the source's own
/// remaining-time estimate, taken only while the battery is charging
/// at a positive rate — a zero rate leaves the estimate unavailable
/// rather than nonsensical.
pub open spec fn spec_iokit_time_to_full(m: InstantModel) -> Option<int> {
    if spec_darwin_state(m) == State::Charging && m.amperage * m.voltage / 1_000_000 > 0 {
        m.time_remaining
    } else {
        None
    }
}

/// Seconds until empty as this platform reports them: the source's
/// own remaining-time estimate, taken only while the battery is
/// discharging at a positive rate — a zero rate leaves the estimate
/// unavailable rather than nonsensical.
pub open spec fn spec_iokit_time_to_empty(m: InstantModel) -> Option<int> {
    if spec_darwin_state(m) == State::Discharging && m.amperage * m.voltage / 1_000_000 > 0 {
        m.time_remaining
    } else {
        None
    }
}

/// The canonical snapshot a property-dictionary source denotes:
/// capacity is reported in charge units, so every energy field is the
/// corresponding charge scaled by the instantaneous voltage.
pub open spec fn iokit_snapshot(source: PowerSource) -> SnapshotModel {
    let m = source.data_model();
    SnapshotModel {
        energy: m.current_capacity * m.voltage / 1_000_000,
        energy_full: m.max_capacity * m.voltage / 1_000_000,
        energy_full_design: (match m.design_capacity {
            Some(dc) => dc,
            None => 0int,
        }) * m.voltage / 1_000_000,
        energy_rate: m.amperage * m.voltage / 1_000_000,
        voltage: m.voltage,
        state: spec_darwin_state(m),
        temperature: m.temperature,
        cycle_count: m.cycle_count,
        vendor: source.manufacturer_model(),
        model_name: source.device_name_model(),
        serial_number: source.serial_number_model(),
        technology: Technology::Unknown,
    }
}

/// One battery of the property-dictionary platform.  Capacity is
/// reported in charge units, so every energy field is derived from the
/// instantaneous voltage.
#[derive(Debug)]
pub struct IoKitDevice {
    source: PowerSource,
}

impl IoKitDevice {
    /// Ghost view of the underlying source.
    pub closed spec fn source_view(&self) -> PowerSource {
        self.source
    }

    /// Direct access to the underlying source.
    pub fn get_mut_ref(&mut self) -> (r: &mut PowerSource)
        ensures
            *r == old(self).source_view(),
            final(self).source_view() == *final(r),
    {
        &mut self.source
    }

    /// Replaces the reading with one parsed from a fresh property
    /// snapshot; on a parse failure the previous reading is kept.
    pub fn refresh(&mut self, props: &PropertyDict) -> (r: Result<(), Error>)
        ensures
            match r {
                Ok(()) => spec_instant(*props) matches Ok(m)
                    && final(self).source_view().data_model() == m
                    && final(self).source_view().manufacturer_model()
                        == old(self).source_view().manufacturer_model()
                    && final(self).source_view().device_name_model()
                        == old(self).source_view().device_name_model()
                    && final(self).source_view().serial_number_model()
                        == old(self).source_view().serial_number_model(),
                Err(e) => spec_instant(*props) matches Err(f) && e@.kind == f.0
                    && e@.message == f.1
                    && *final(self) == *old(self),
            },
    {
        self.source.refresh(props)
    }

    /// Fraction of the reported maximum capacity currently stored,
    /// computed over the raw charges and clamped into the unit
    /// interval.
    pub fn state_of_charge(&self) -> (r: Ratio)
        ensures
            (r.numer(), r.denom()) == bounded_pair(
                self.source_view().data_model().current_capacity,
                self.source_view().data_model().max_capacity,
            ),
            0 <= r.numer() <= r.denom(),
    {
        let current = self.source.current_capacity();
        let max = self.source.max_capacity();
        current.bounded_ratio(&max)
    }

    /// The platform's own remaining-time estimate, reported only while
    /// charging at a positive rate.
    pub fn time_to_full(&self) -> (r: Option<Time>)
        ensures
            time_matches(r, spec_iokit_time_to_full(self.source_view().data_model())),
    {
        let rate = self.energy_rate();
        if self.state() == State::Charging && !rate.is_zero() {
            self.source.time_remaining()
        } else {
            None
        }
    }

    /// The platform's own remaining-time estimate, reported only while
    /// discharging at a positive rate.
    pub fn time_to_empty(&self) -> (r: Option<Time>)
        ensures
            time_matches(r, spec_iokit_time_to_empty(self.source_view().data_model())),
    {
        let rate = self.energy_rate();
        if self.state() == State::Discharging && !rate.is_zero() {
            self.source.time_remaining()
        } else {
            None
        }
    }
}

/// A stored charge equal to a positive full charge yields a state of
/// charge of exactly one.
pub proof fn lemma_full_charge_ratio_is_one(device: &IoKitDevice)
    requires
        device.source_view().data_model().current_capacity
            == device.source_view().data_model().max_capacity,
        device.source_view().data_model().max_capacity > 0,
    ensures
        ({
            let (n, d) = bounded_pair(
                device.source_view().data_model().current_capacity,
                device.source_view().data_model().max_capacity,
            );
            n == d && d >= 1
        }),
{
}

/// A device whose source is not on external power reports itself
/// discharging, whatever the charging and fully-charged flags say.
pub proof fn lemma_unplugged_device_is_discharging(device: &IoKitDevice)
    requires
        !device.source_view().data_model().external_connected,
    ensures
        device.snapshot().state == State::Discharging,
{
}

impl From<PowerSource> for IoKitDevice {
    fn from(source: PowerSource) -> (r: IoKitDevice) {
        IoKitDevice { source }
    }
}

impl vstd::std_specs::convert::FromSpecImpl<PowerSource> for IoKitDevice {
    open spec fn obeys_from_spec() -> bool {
        true
    }

    closed spec fn from_spec(source: PowerSource) -> IoKitDevice {
        IoKitDevice { source }
    }
}

impl BatteryDevice for IoKitDevice {
    open spec fn snapshot(&self) -> SnapshotModel {
        iokit_snapshot(self.source_view())
    }

    fn energy(&self) -> (r: Energy) {
        proof {
            use_type_invariant(&self.source.data);
        }
        let current = self.source.current_capacity();
        let voltage = self.source.voltage();
        current.energy_at(&voltage)
    }

    fn energy_full(&self) -> (r: Energy) {
        proof {
            use_type_invariant(&self.source.data);
        }
        let max = self.source.max_capacity();
        let voltage = self.source.voltage();
        max.energy_at(&voltage)
    }

    fn energy_full_design(&self) -> (r: Energy) {
        proof {
            use_type_invariant(&self.source.data);
        }
        let design = self.source.design_capacity();
        let voltage = self.source.voltage();
        design.energy_at(&voltage)
    }

    fn energy_rate(&self) -> (r: Power) {
        proof {
            use_type_invariant(&self.source.data);
        }
        let amperage = self.source.amperage();
        let voltage = self.source.voltage();
        amperage.power_at(&voltage)
    }

    fn state(&self) -> (r: State) {
        if !self.source.external_connected() {
            State::Discharging
        } else if self.source.is_charging() {
            State::Charging
        } else if self.source.current_capacity().is_zero() {
            State::Empty
        } else if self.source.fully_charged() {
            State::Full
        } else {
            State::Unknown
        }
    }

    fn voltage(&self) -> (r: ElectricPotential) {
        self.source.voltage()
    }

    fn temperature(&self) -> (r: Option<ThermodynamicTemperature>) {
        self.source.temperature()
    }

    fn vendor(&self) -> (r: Option<&str>) {
        self.source.manufacturer()
    }

    fn model(&self) -> (r: Option<&str>) {
        self.source.device_name()
    }

    fn serial_number(&self) -> (r: Option<&str>) {
        self.source.serial_number()
    }

    fn technology(&self) -> (r: Technology) {
        Technology::Unknown
    }

    fn cycle_count(&self) -> (r: Option<u32>) {
        self.source.cycle_count()
    }
}

} // verus!
