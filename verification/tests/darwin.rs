//! The property-dictionary adapter: key parsing, the classification
//! priority, and charge-derived energies.

use battery::platform::darwin::{
    InstantData, IoKitDevice, PowerSource, PropertyDict, PropertyValue,
};
use battery::units::Ratio;
use battery::{BatteryDevice, ErrorKind, State, Technology};

struct PropSpec {
    fully_charged: Option<bool>,
    external_connected: Option<bool>,
    is_charging: Option<bool>,
    voltage: Option<i32>,
    amperage: Option<i32>,
    design_capacity: Option<i32>,
    max_capacity: Option<i32>,
    current_capacity: Option<i32>,
    temperature: Option<i32>,
    cycle_count: Option<i32>,
    time_remaining: Option<i32>,
    strings: Vec<(&'static str, &'static str)>,
}

impl PropSpec {
    fn plugged_in() -> PropSpec {
        PropSpec {
            fully_charged: Some(false),
            external_connected: Some(true),
            is_charging: Some(true),
            voltage: Some(11_500),
            amperage: Some(-2_000),
            design_capacity: Some(6_000),
            max_capacity: Some(5_000),
            current_capacity: Some(2_500),
            temperature: Some(2_960),
            cycle_count: Some(87),
            time_remaining: Some(90),
            strings: vec![
                ("Manufacturer", "ACME"),
                ("DeviceName", "bq20z451"),
                ("BatterySerialNumber", "C01234"),
            ],
        }
    }

    fn build(&self) -> PropertyDict {
        let mut dict = PropertyDict::new();
        let mut push_bool = |d: &mut PropertyDict, key: &str, v: Option<bool>| {
            if let Some(b) = v {
                d.push(key.to_string(), PropertyValue::Boolean(b));
            }
        };
        push_bool(&mut dict, "FullyCharged", self.fully_charged);
        push_bool(&mut dict, "ExternalConnected", self.external_connected);
        push_bool(&mut dict, "IsCharging", self.is_charging);
        let numbers = [
            ("Voltage", self.voltage),
            ("Amperage", self.amperage),
            ("DesignCapacity", self.design_capacity),
            ("MaxCapacity", self.max_capacity),
            ("CurrentCapacity", self.current_capacity),
            ("Temperature", self.temperature),
            ("CycleCount", self.cycle_count),
            ("TimeRemaining", self.time_remaining),
        ];
        for (key, value) in numbers {
            if let Some(n) = value {
                dict.push(key.to_string(), PropertyValue::Number(n));
            }
        }
        for (key, value) in &self.strings {
            dict.push(key.to_string(), PropertyValue::Text(value.to_string()));
        }
        dict
    }
}

#[test]
fn unplugged_is_discharging_whatever_the_flags_say() {
    let mut spec = PropSpec::plugged_in();
    spec.external_connected = Some(false);
    spec.is_charging = Some(true);
    spec.fully_charged = Some(true);
    let device = IoKitDevice::from(PowerSource::try_from(&spec.build()).unwrap());
    assert_eq!(device.state(), State::Discharging);
}

#[test]
fn charging_flag_wins_when_plugged_in() {
    let device = IoKitDevice::from(PowerSource::try_from(&PropSpec::plugged_in().build()).unwrap());
    assert_eq!(device.state(), State::Charging);
}

#[test]
fn zero_capacity_is_empty() {
    let mut spec = PropSpec::plugged_in();
    spec.is_charging = Some(false);
    spec.current_capacity = Some(0);
    let device = IoKitDevice::from(PowerSource::try_from(&spec.build()).unwrap());
    assert_eq!(device.state(), State::Empty);
}

#[test]
fn fully_charged_flag_defaults_to_true_when_absent() {
    let mut spec = PropSpec::plugged_in();
    spec.is_charging = Some(false);
    spec.fully_charged = None;
    let device = IoKitDevice::from(PowerSource::try_from(&spec.build()).unwrap());
    assert_eq!(device.state(), State::Full);

    let mut denied = PropSpec::plugged_in();
    denied.is_charging = Some(false);
    denied.fully_charged = Some(false);
    let device = IoKitDevice::from(PowerSource::try_from(&denied.build()).unwrap());
    assert_eq!(device.state(), State::Unknown);
}

#[test]
fn missing_required_key_is_invalid_data_under_its_name() {
    let mut spec = PropSpec::plugged_in();
    spec.voltage = None;
    let e = InstantData::try_from(&spec.build()).unwrap_err();
    assert_eq!(e.kind(), ErrorKind::InvalidData);
    assert_eq!(e.message(), "Voltage");

    let mut spec = PropSpec::plugged_in();
    spec.external_connected = None;
    let e = InstantData::try_from(&spec.build()).unwrap_err();
    assert_eq!(e.kind(), ErrorKind::InvalidData);
    assert_eq!(e.message(), "ExternalConnected");
}

#[test]
fn optional_keys_leave_their_fields_absent() {
    let mut spec = PropSpec::plugged_in();
    spec.design_capacity = None;
    spec.temperature = None;
    spec.cycle_count = None;
    spec.time_remaining = None;
    spec.strings = Vec::new();
    let device = IoKitDevice::from(PowerSource::try_from(&spec.build()).unwrap());
    assert_eq!(device.energy_full_design().as_microjoules(), 0);
    assert!(device.temperature().is_none());
    assert!(device.cycle_count().is_none());
    assert!(device.vendor().is_none());
    assert!(device.model().is_none());
    assert!(device.serial_number().is_none());
}

#[test]
fn energies_are_charge_times_voltage() {
    let device = IoKitDevice::from(PowerSource::try_from(&PropSpec::plugged_in().build()).unwrap());
    // 2500 mAh at 11.5 V store 28.75 Wh.
    assert_eq!(device.energy().as_milliwatt_hours(), 28_750);
    assert_eq!(device.energy_full().as_milliwatt_hours(), 57_500);
    assert_eq!(device.energy_full_design().as_milliwatt_hours(), 69_000);
    // The 2 A magnitude of the signed amperage at 11.5 V is 23 W.
    assert_eq!(device.energy_rate().as_milliwatts(), 23_000);
    assert_eq!(device.voltage().as_millivolts(), 11_500);
    // 29.60 degrees Celsius.
    assert_eq!(device.temperature().unwrap().as_millikelvin(), 302_750);
    assert_eq!(device.cycle_count(), Some(87));
    assert_eq!(device.technology(), Technology::Unknown);
    assert_eq!(device.vendor(), Some("ACME"));
    assert_eq!(device.model(), Some("bq20z451"));
    assert_eq!(device.serial_number(), Some("C01234"));
}

#[test]
fn state_of_charge_uses_raw_charges_and_clamps() {
    let device = IoKitDevice::from(PowerSource::try_from(&PropSpec::plugged_in().build()).unwrap());
    assert_eq!(device.state_of_charge(), Ratio::new(1, 2));

    let mut noisy = PropSpec::plugged_in();
    noisy.current_capacity = Some(5_600);
    let device = IoKitDevice::from(PowerSource::try_from(&noisy.build()).unwrap());
    assert!(device.state_of_charge().is_one());
}

#[test]
fn remaining_time_is_gated_by_the_state() {
    let charging = IoKitDevice::from(PowerSource::try_from(&PropSpec::plugged_in().build()).unwrap());
    assert_eq!(charging.time_to_full().unwrap().as_minutes(), 90);
    assert!(charging.time_to_empty().is_none());

    let mut spec = PropSpec::plugged_in();
    spec.external_connected = Some(false);
    let discharging = IoKitDevice::from(PowerSource::try_from(&spec.build()).unwrap());
    assert_eq!(discharging.time_to_empty().unwrap().as_minutes(), 90);
    assert!(discharging.time_to_full().is_none());
}

#[test]
fn zero_rate_leaves_remaining_time_unavailable() {
    // Discharging with a zero amperage: the platform estimate is not
    // trusted, because the derived rate is zero.
    let mut spec = PropSpec::plugged_in();
    spec.external_connected = Some(false);
    spec.amperage = Some(0);
    let device = IoKitDevice::from(PowerSource::try_from(&spec.build()).unwrap());
    assert_eq!(device.state(), State::Discharging);
    assert!(device.time_to_empty().is_none());

    // The same while charging.
    let mut spec = PropSpec::plugged_in();
    spec.amperage = Some(0);
    let device = IoKitDevice::from(PowerSource::try_from(&spec.build()).unwrap());
    assert_eq!(device.state(), State::Charging);
    assert!(device.time_to_full().is_none());
}

#[test]
fn sentinel_time_remaining_is_unavailable() {
    let mut spec = PropSpec::plugged_in();
    spec.time_remaining = Some(i32::MAX);
    let device = IoKitDevice::from(PowerSource::try_from(&spec.build()).unwrap());
    assert!(device.time_to_full().is_none());
}

#[test]
fn refresh_replaces_the_reading_and_keeps_vendor_strings() {
    let mut device = IoKitDevice::from(PowerSource::try_from(&PropSpec::plugged_in().build()).unwrap());

    let mut fresh = PropSpec::plugged_in();
    fresh.current_capacity = Some(4_000);
    fresh.strings = Vec::new();
    device.refresh(&fresh.build()).unwrap();
    assert_eq!(device.energy().as_milliwatt_hours(), 46_000);
    // Vendor strings were captured at discovery and stay.
    assert_eq!(device.vendor(), Some("ACME"));

    let mut broken = PropSpec::plugged_in();
    broken.max_capacity = None;
    let e = device.refresh(&broken.build()).unwrap_err();
    assert_eq!(e.kind(), ErrorKind::InvalidData);
    assert_eq!(e.message(), "MaxCapacity");
    // The failed refresh left the previous reading in place.
    assert_eq!(device.energy().as_milliwatt_hours(), 46_000);
}

#[test]
fn source_can_be_reached_for_direct_reads() {
    let mut device = IoKitDevice::from(PowerSource::try_from(&PropSpec::plugged_in().build()).unwrap());
    let source = device.get_mut_ref();
    assert!(source.external_connected());
    assert!(source.is_charging());
    assert!(!source.fully_charged());
    assert_eq!(source.voltage().as_millivolts(), 11_500);
    assert_eq!(source.amperage().as_milliamperes(), 2_000);
    assert_eq!(source.max_capacity().as_milliampere_hours(), 5_000);
    assert_eq!(source.current_capacity().as_milliampere_hours(), 2_500);
    assert_eq!(source.design_capacity().as_milliampere_hours(), 6_000);
    assert_eq!(source.time_remaining().unwrap().as_minutes(), 90);
    assert_eq!(source.manufacturer(), Some("ACME"));
    assert_eq!(source.device_name(), Some("bq20z451"));
    assert_eq!(source.serial_number(), Some("C01234"));
    assert_eq!(source.cycle_count(), Some(87));
}

#[test]
fn wrong_shape_under_a_required_key_is_invalid_data() {
    let mut dict = PropSpec::plugged_in().build();
    dict.push("ExternalConnected".to_string(), PropertyValue::Number(1));
    // The first entry with the key still wins; removing it exposes the
    // wrongly shaped one.
    let mut without = PropertyDict::new();
    for (k, v) in dict.entries.into_iter() {
        if k == "ExternalConnected" {
            continue;
        }
        without.push(k, v);
    }
    without.push("ExternalConnected".to_string(), PropertyValue::Number(1));
    let e = InstantData::try_from(&without).unwrap_err();
    assert_eq!(e.kind(), ErrorKind::InvalidData);
    assert_eq!(e.message(), "ExternalConnected");
}
