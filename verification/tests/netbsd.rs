//! The kernel sensor-table adapter: validation, unit selection, the
//! unhealthy-rate sentinel, enumeration skipping, and whole-fleet
//! refresh.

use std::sync::Arc;

use battery::device::{state_of_charge, time_to_empty};
use battery::platform::netbsd::values::{Dictionary, Value};
use battery::platform::netbsd::{EnvSysDevice, SysMonDevice, SysMonIterator, SysMonManager};
use battery::{BatteryDevice, ErrorKind, State};

fn dict(entries: Vec<(&str, Value)>) -> Dictionary {
    Dictionary { entries: entries.into_iter().map(|(k, v)| (k.to_string(), v)).collect() }
}

fn valid_value(v: i64) -> Value {
    Value::Dict(dict(vec![
        ("state", Value::Text("valid".to_string())),
        ("cur-value", Value::Integer(v as i128)),
    ]))
}

struct SensorSpec {
    device_class: &'static str,
    present: i64,
    design_voltage: i64,
    voltage: i64,
    design_capacity: i64,
    full_capacity: i64,
    capacity: i64,
    want_percentage: bool,
    capacity_unit: &'static str,
    charge_rate: i64,
    discharge_rate: i64,
    discharge_state: &'static str,
    rate_unit: &'static str,
    charging: i64,
}

impl SensorSpec {
    fn healthy_discharging() -> SensorSpec {
        SensorSpec {
            device_class: "battery",
            present: 1,
            design_voltage: 12_000_000,
            voltage: 11_500_000,
            design_capacity: 50_000_000,
            full_capacity: 40_000_000,
            capacity: 20_000_000,
            want_percentage: true,
            capacity_unit: "Watt hour",
            charge_rate: 0,
            discharge_rate: 10_000_000,
            discharge_state: "valid",
            rate_unit: "Watts",
            charging: 0,
        }
    }

    fn build(&self) -> Value {
        let mut records = vec![
            valid_value(self.present),
            valid_value(self.design_voltage),
            valid_value(self.voltage),
            Value::Dict(dict(vec![
                ("state", Value::Text("valid".to_string())),
                ("cur-value", Value::Integer(self.design_capacity as i128)),
                ("type", Value::Text(self.capacity_unit.to_string())),
            ])),
            valid_value(self.full_capacity),
            Value::Dict(dict(vec![
                ("state", Value::Text("valid".to_string())),
                ("cur-value", Value::Integer(self.capacity as i128)),
                ("want-percentage", Value::Boolean(self.want_percentage)),
            ])),
            Value::Dict(dict(vec![
                ("state", Value::Text("valid".to_string())),
                ("cur-value", Value::Integer(self.charge_rate as i128)),
                ("type", Value::Text(self.rate_unit.to_string())),
            ])),
            Value::Dict(dict(vec![
                ("state", Value::Text(self.discharge_state.to_string())),
                ("cur-value", Value::Integer(self.discharge_rate as i128)),
            ])),
            valid_value(self.charging),
        ];
        records.push(Value::Dict(dict(vec![(
            "device-properties",
            Value::Dict(dict(vec![("device-class", Value::Text(self.device_class.to_string()))])),
        )])));
        Value::Array(records)
    }
}

#[test]
fn healthy_sensor_reads_through() {
    let sensor = SensorSpec::healthy_discharging().build();
    let data = EnvSysDevice::new("acpibat0".to_string(), &sensor).unwrap();
    let device = SysMonDevice::new(data).unwrap();
    assert_eq!(device.name, "acpibat0");
    assert_eq!(device.state(), State::Discharging);
    assert_eq!(device.energy().as_watt_hours(), 20);
    assert_eq!(device.energy_full().as_watt_hours(), 40);
    assert_eq!(device.energy_full_design().as_watt_hours(), 50);
    assert_eq!(device.energy_rate().as_watts(), 10);
    assert_eq!(device.voltage().as_microvolts(), 11_500_000);
    // 20 Wh drained at 10 W: two hours left.
    assert_eq!(time_to_empty(&device).unwrap().as_seconds(), 7_200);
}

#[test]
fn ampere_hour_capacities_are_scaled_by_design_voltage() {
    let mut spec = SensorSpec::healthy_discharging();
    spec.capacity_unit = "Ampere hour";
    spec.capacity = 2_000_000;
    spec.full_capacity = 4_000_000;
    spec.design_capacity = 5_000_000;
    spec.rate_unit = "Ampere";
    spec.discharge_rate = 1_000_000;
    let data = EnvSysDevice::new("acpibat0".to_string(), &spec.build()).unwrap();
    let device = SysMonDevice::new(data).unwrap();
    // 2 Ah at the 12 V design voltage store 24 Wh.
    assert_eq!(device.energy().as_watt_hours(), 24);
    assert_eq!(device.energy_full().as_watt_hours(), 48);
    assert_eq!(device.energy_full_design().as_watt_hours(), 60);
    // 1 A at 12 V discharges 12 W.
    assert_eq!(device.energy_rate().as_watts(), 12);
}

#[test]
fn wrong_device_class_is_skipped_not_surfaced() {
    let mut spec = SensorSpec::healthy_discharging();
    spec.device_class = "fan";
    let sensor = spec.build();

    let e = EnvSysDevice::new("acpibat0".to_string(), &sensor).unwrap_err();
    assert_eq!(e.kind(), ErrorKind::InvalidData);
    assert_eq!(e.message(), "Not a valid battery");

    let fleet = Dictionary { entries: vec![("acpibat0".to_string(), sensor)] };
    let mut iter = SysMonIterator::new(Arc::new(SysMonManager::new()), fleet);
    assert!(iter.next().is_none());
}

#[test]
fn non_battery_driver_names_are_skipped() {
    let sensor = SensorSpec::healthy_discharging().build();
    let fleet = Dictionary { entries: vec![("coretemp0".to_string(), sensor)] };
    let mut iter = SysMonIterator::new(Arc::new(SysMonManager::new()), fleet);
    assert!(iter.next().is_none());
}

#[test]
fn absent_battery_is_skipped_not_surfaced() {
    let mut spec = SensorSpec::healthy_discharging();
    spec.present = 0;
    let sensor = spec.build();

    let e = EnvSysDevice::new("acpibat0".to_string(), &sensor).unwrap_err();
    assert_eq!(e.kind(), ErrorKind::NotFound);
    assert_eq!(e.message(), "Battery absent");

    let fleet = Dictionary { entries: vec![("acpibat0".to_string(), sensor)] };
    let mut iter = SysMonIterator::new(Arc::new(SysMonManager::new()), fleet);
    assert!(iter.next().is_none());
}

#[test]
fn relative_only_report_is_skipped() {
    let mut spec = SensorSpec::healthy_discharging();
    spec.want_percentage = false;
    let e = EnvSysDevice::new("acpibat0".to_string(), &spec.build()).unwrap_err();
    assert_eq!(e.kind(), ErrorKind::InvalidData);
    assert_eq!(e.message(), "Not a valid battery");
}

#[test]
fn enumeration_yields_real_failures_and_later_devices() {
    let broken = {
        let mut spec = SensorSpec::healthy_discharging();
        spec.capacity_unit = "Joule";
        spec.build()
    };
    let good = SensorSpec::healthy_discharging().build();
    let fleet = Dictionary {
        entries: vec![("acpibat0".to_string(), broken), ("acpibat1".to_string(), good)],
    };
    let mut iter = SysMonIterator::new(Arc::new(SysMonManager::new()), fleet);

    let first = iter.next().unwrap().unwrap_err();
    assert_eq!(first.kind(), ErrorKind::InvalidData);
    assert_eq!(first.message(), "Unit not supported");

    let second = iter.next().unwrap().unwrap();
    assert_eq!(second.name, "acpibat1");
    assert!(iter.next().is_none());
    assert_eq!(iter.size_hint(), (0, None));
}

#[test]
fn invalid_rate_state_forces_unknown_and_zero_rate() {
    let mut spec = SensorSpec::healthy_discharging();
    spec.charging = 0;
    spec.discharge_rate = 0;
    spec.discharge_state = "invalid";
    let data = EnvSysDevice::new("acpibat0".to_string(), &spec.build()).unwrap();
    assert_eq!(data.charging, -1);
    let device = SysMonDevice::new(data).unwrap();
    assert_eq!(device.state(), State::Unknown);
    assert_eq!(device.energy_rate().as_microwatts(), 0);
    assert!(time_to_empty(&device).is_none());
}

#[test]
fn invalid_section_is_a_real_error() {
    let mut spec = SensorSpec::healthy_discharging();
    spec.build();
    let mut sensor = spec.build();
    if let Value::Array(records) = &mut sensor {
        records[2] = Value::Dict(dict(vec![
            ("state", Value::Text("invalid".to_string())),
            ("cur-value", Value::Integer(11_500_000)),
        ]));
    }
    let e = EnvSysDevice::new("acpibat0".to_string(), &sensor).unwrap_err();
    assert_eq!(e.kind(), ErrorKind::InvalidData);
    assert_eq!(e.message(), "Invalid section");
}

#[test]
fn short_sensor_array_is_a_real_error() {
    let meta = Value::Dict(dict(vec![(
        "device-properties",
        Value::Dict(dict(vec![("device-class", Value::Text("battery".to_string()))])),
    )]));
    let sensor = Value::Array(vec![meta]);
    let e = EnvSysDevice::new("acpibat0".to_string(), &sensor).unwrap_err();
    assert_eq!(e.kind(), ErrorKind::InvalidData);
    assert_eq!(e.message(), "Cannot read sensor property");
}

#[test]
fn oversized_capacity_is_out_of_range() {
    let mut spec = SensorSpec::healthy_discharging();
    spec.capacity_unit = "Ampere hour";
    spec.rate_unit = "Ampere";
    spec.capacity = i64::MAX;
    let e = EnvSysDevice::new("acpibat0".to_string(), &spec.build())
        .and_then(SysMonDevice::new)
        .unwrap_err();
    assert_eq!(e.kind(), ErrorKind::InvalidData);
    assert_eq!(e.message(), "Value out of range");
}

#[test]
fn full_battery_reports_full_and_unit_charge() {
    // 8000 mWh stored of an 8000 mWh full charge.
    let mut spec = SensorSpec::healthy_discharging();
    spec.capacity = 8_000_000;
    spec.full_capacity = 8_000_000;
    spec.charging = 1;
    spec.charge_rate = 5_000_000;
    let data = EnvSysDevice::new("acpibat0".to_string(), &spec.build()).unwrap();
    let device = SysMonDevice::new(data).unwrap();
    assert_eq!(device.state(), State::Full);
    assert_eq!(device.energy().as_milliwatt_hours(), 8_000);
    let soc = state_of_charge(&device);
    assert!(soc.is_one());
    assert_eq!(soc.as_percent(), 100);
}

#[test]
fn empty_battery_reports_empty() {
    let mut spec = SensorSpec::healthy_discharging();
    spec.capacity = 0;
    let data = EnvSysDevice::new("acpibat0".to_string(), &spec.build()).unwrap();
    let device = SysMonDevice::new(data).unwrap();
    assert_eq!(device.state(), State::Empty);
}

#[test]
fn dictionary_reads_name_the_expected_shape() {
    let d = dict(vec![("cur-value", Value::Text("burning".to_string()))]);
    let e = d.get_ru64("cur-value").unwrap_err();
    assert_eq!(e.kind(), ErrorKind::InvalidData);
    assert_eq!(e.message(), "Cannot convert value to u64");
    let e = d.get_ri64("missing").unwrap_err();
    assert_eq!(e.message(), "Cannot convert value to i64");
    let e = d.get_rbool("cur-value").unwrap_err();
    assert_eq!(e.message(), "Cannot convert value to bool");
    let e = d.get_rstring("missing").unwrap_err();
    assert_eq!(e.message(), "Cannot convert value to string");
    let e = d.get_rdict("cur-value").unwrap_err();
    assert_eq!(e.message(), "Cannot convert value to Dict");
    assert_eq!(d.get_rstring("cur-value").unwrap(), "burning");
}

#[test]
fn refresh_of_vanished_identity_is_not_found_and_keeps_reading() {
    let sensor = SensorSpec::healthy_discharging().build();
    let data = EnvSysDevice::new("acpibat0".to_string(), &sensor).unwrap();
    let mut device = SysMonDevice::new(data).unwrap();
    let energy_before = device.energy().as_microjoules();
    let state_before = device.state();

    let manager = SysMonManager::new();
    let empty_fleet = Dictionary { entries: Vec::new() };
    let e = manager.refresh(&mut device, &empty_fleet).unwrap_err();
    assert_eq!(e.kind(), ErrorKind::NotFound);
    assert_eq!(e.message(), "Could not refresh battery");
    assert_eq!(device.energy().as_microjoules(), energy_before);
    assert_eq!(device.state(), state_before);
    assert_eq!(device.name, "acpibat0");
}

#[test]
fn refresh_picks_the_matching_fleet_entry() {
    let sensor = SensorSpec::healthy_discharging().build();
    let data = EnvSysDevice::new("acpibat0".to_string(), &sensor).unwrap();
    let mut device = SysMonDevice::new(data).unwrap();

    let mut fresher = SensorSpec::healthy_discharging();
    fresher.capacity = 30_000_000;
    let fleet = Dictionary {
        entries: vec![
            ("acpibat9".to_string(), SensorSpec::healthy_discharging().build()),
            ("acpibat0".to_string(), fresher.build()),
        ],
    };
    let manager = SysMonManager::new();
    manager.refresh(&mut device, &fleet).unwrap();
    assert_eq!(device.energy().as_watt_hours(), 30);
}
