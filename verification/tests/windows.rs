//! The ioctl adapter: bitflag classification, sentinel handling, and
//! enumeration over acquired readings.

use std::sync::Arc;

use battery::device::{state_of_charge, state_of_health, time_to_empty, time_to_full};
use battery::platform::windows::ioctl::{
    BATTERY_CAPACITY_RELATIVE, BATTERY_CHARGING, BATTERY_CRITICAL, BATTERY_DISCHARGING,
    BATTERY_POWER_ON_LINE, BATTERY_SYSTEM_BATTERY, BATTERY_UNKNOWN_CAPACITY,
    BATTERY_UNKNOWN_RATE, BATTERY_UNKNOWN_VOLTAGE,
};
use battery::platform::windows::{
    BatteryInformation, BatteryStatus, DeviceReading, PowerDevice, PowerIterator, PowerManager,
};
use battery::units::Ratio;
use battery::{BatteryDevice, Error, ErrorKind, State, Technology};

fn information() -> BatteryInformation {
    BatteryInformation {
        capabilities: BATTERY_SYSTEM_BATTERY,
        technology: 1,
        chemistry: *b"LION",
        designed_capacity: 10_000,
        full_charged_capacity: 8_000,
        default_alert1: 0,
        default_alert2: 0,
        critical_bias: 0,
        cycle_count: 120,
    }
}

fn status() -> BatteryStatus {
    BatteryStatus {
        power_state: BATTERY_DISCHARGING,
        capacity: 4_000,
        voltage: 11_400,
        rate: -5_000,
    }
}

fn reading() -> DeviceReading {
    DeviceReading {
        tag: 7,
        information: information(),
        status: status(),
        temperature_decikelvin: Some(2_982),
        device_name: Some("BAT1".to_string()),
        manufacturer: Some("ACME".to_string()),
        serial_number: Some("0042".to_string()),
    }
}

#[test]
fn status_bits_classify_in_priority_order() {
    let mut s = status();
    s.power_state = BATTERY_CHARGING | BATTERY_DISCHARGING | BATTERY_CRITICAL;
    assert_eq!(s.state(), State::Charging);
    s.power_state = BATTERY_CRITICAL | BATTERY_DISCHARGING;
    assert_eq!(s.state(), State::Empty);
    s.power_state = BATTERY_DISCHARGING;
    assert_eq!(s.state(), State::Discharging);
    s.power_state = BATTERY_POWER_ON_LINE;
    assert_eq!(s.state(), State::Full);
    s.power_state = 0;
    assert_eq!(s.state(), State::Unknown);
    assert!(!s.is_charging() && !s.is_critical() && !s.is_discharging() && !s.is_power_on_line());
}

#[test]
fn information_reads_capabilities_and_chemistry() {
    let info = information();
    assert!(info.is_system_battery());
    assert!(!info.is_relative());
    assert_eq!(info.technology(), Technology::LithiumIon);
    assert_eq!(info.designed_capacity(), 10_000);
    assert_eq!(info.full_charged_capacity(), 8_000);
    assert_eq!(info.cycle_count(), Some(120));
    let mut blank = info;
    blank.cycle_count = 0;
    assert_eq!(blank.cycle_count(), None);
}

#[test]
fn sentinels_mean_unknown_not_zero() {
    let mut s = status();
    s.voltage = BATTERY_UNKNOWN_VOLTAGE;
    assert_eq!(s.voltage(), None);
    s.voltage = 11_400;
    assert_eq!(s.voltage(), Some(11_400));
    s.capacity = BATTERY_UNKNOWN_CAPACITY;
    assert_eq!(s.capacity(), None);
    s.rate = BATTERY_UNKNOWN_RATE;
    assert_eq!(s.rate(), None);
    s.rate = -5_000;
    assert_eq!(s.rate(), Some(5_000));
}

#[test]
fn discovery_builds_the_canonical_reading() {
    let device = PowerDevice::try_from(&reading()).unwrap().unwrap();
    assert_eq!(device.tag(), 7);
    assert_eq!(device.state(), State::Discharging);
    assert_eq!(device.energy().as_milliwatt_hours(), 4_000);
    assert_eq!(device.energy_full().as_milliwatt_hours(), 8_000);
    assert_eq!(device.energy_full_design().as_milliwatt_hours(), 10_000);
    assert_eq!(device.energy_rate().as_milliwatts(), 5_000);
    assert_eq!(device.voltage().as_millivolts(), 11_400);
    assert_eq!(device.temperature().unwrap().as_decikelvin(), 2_982);
    assert_eq!(device.cycle_count(), Some(120));
    assert_eq!(device.vendor(), Some("ACME"));
    assert_eq!(device.model(), Some("BAT1"));
    assert_eq!(device.serial_number(), Some("0042"));
    assert_eq!(device.technology(), Technology::LithiumIon);
}

#[test]
fn derived_fields_follow_the_generic_algorithms() {
    let device = PowerDevice::try_from(&reading()).unwrap().unwrap();
    assert_eq!(state_of_charge(&device), Ratio::new(1, 2));
    assert_eq!(state_of_health(&device), Ratio::new(4, 5));
    // 4000 mWh drained at 5 W: 2880 seconds left.
    assert_eq!(time_to_empty(&device).unwrap().as_seconds(), 2_880);
    assert!(time_to_full(&device).is_none());
}

#[test]
fn state_of_charge_clamps_noisy_readings() {
    // More energy reported than the full-charge capacity: the ratio is
    // clamped to one instead of exceeding the unit interval.
    let mut r = reading();
    r.status.capacity = 9_000;
    let device = PowerDevice::try_from(&r).unwrap().unwrap();
    let soc = state_of_charge(&device);
    assert!(soc.is_one());
    assert!(soc.numerator() <= soc.denominator());
    // A zero design capacity leaves the health clamped too.
    let mut blank = reading();
    blank.information.designed_capacity = 0;
    let device = PowerDevice::try_from(&blank).unwrap().unwrap();
    let soh = state_of_health(&device);
    assert!(soh.numerator() <= soh.denominator());
}

#[test]
fn charging_reading_estimates_time_to_full() {
    let mut r = reading();
    r.status.power_state = BATTERY_CHARGING | BATTERY_POWER_ON_LINE;
    let device = PowerDevice::try_from(&r).unwrap().unwrap();
    assert_eq!(device.state(), State::Charging);
    // 4000 mWh missing, supplied at 5 W: 2880 seconds to full.
    assert_eq!(time_to_full(&device).unwrap().as_seconds(), 2_880);
    assert!(time_to_empty(&device).is_none());
}

#[test]
fn unknown_capacity_fails_refresh_with_invalid_data() {
    let mut r = reading();
    r.status.capacity = BATTERY_UNKNOWN_CAPACITY;
    let e = PowerDevice::try_from(&r).unwrap_err();
    assert_eq!(e.kind(), ErrorKind::InvalidData);
    assert_eq!(e.message(), "Device capacity value is unknown");
}

#[test]
fn unknown_voltage_fails_refresh_with_invalid_data() {
    let mut r = reading();
    r.status.voltage = BATTERY_UNKNOWN_VOLTAGE;
    let e = PowerDevice::try_from(&r).unwrap_err();
    assert_eq!(e.kind(), ErrorKind::InvalidData);
    assert_eq!(e.message(), "Device voltage value is unknown");
}

#[test]
fn unknown_rate_degrades_to_zero_without_failing() {
    let mut r = reading();
    r.status.rate = BATTERY_UNKNOWN_RATE;
    let device = PowerDevice::try_from(&r).unwrap().unwrap();
    assert_eq!(device.energy_rate().as_microwatts(), 0);
    // A zero rate leaves the time estimate unavailable.
    assert!(time_to_empty(&device).is_none());
}

#[test]
fn failed_refresh_keeps_the_previous_reading() {
    let mut device = PowerDevice::try_from(&reading()).unwrap().unwrap();
    let manager = PowerManager::new();

    let mut bad = reading();
    bad.status.capacity = BATTERY_UNKNOWN_CAPACITY;
    bad.status.power_state = BATTERY_CHARGING;
    let e = manager.refresh(&mut device, &bad).unwrap_err();
    assert_eq!(e.kind(), ErrorKind::InvalidData);
    assert_eq!(device.state(), State::Discharging);
    assert_eq!(device.energy().as_milliwatt_hours(), 4_000);

    let mut fresh = reading();
    fresh.status.capacity = 6_000;
    fresh.status.power_state = BATTERY_CHARGING;
    manager.refresh(&mut device, &fresh).unwrap();
    assert_eq!(device.state(), State::Charging);
    assert_eq!(device.energy().as_milliwatt_hours(), 6_000);
    // Static fields captured at discovery stay as they were.
    assert_eq!(device.vendor(), Some("ACME"));
    assert_eq!(device.tag(), 7);
}

#[test]
fn relative_batteries_are_omitted_from_enumeration() {
    let mut relative = reading();
    relative.information.capabilities |= BATTERY_CAPACITY_RELATIVE;
    assert!(PowerDevice::try_from(&relative).unwrap().is_none());

    let items = vec![
        Ok(relative),
        Err(Error::io("interface vanished")),
        Ok(reading()),
    ];
    let mut iter = PowerIterator::new(Arc::new(PowerManager::new()), items);
    assert_eq!(iter.size_hint(), (0, Some(3)));

    let first = iter.next().unwrap().unwrap_err();
    assert_eq!(first.kind(), ErrorKind::Io);
    assert_eq!(first.message(), "interface vanished");

    let second = iter.next().unwrap().unwrap();
    assert_eq!(second.tag(), 7);
    assert!(iter.next().is_none());
}

#[test]
fn oversized_temperature_is_treated_as_absent() {
    let mut r = reading();
    r.temperature_decikelvin = Some(u64::MAX);
    let device = PowerDevice::try_from(&r).unwrap().unwrap();
    assert!(device.temperature().is_none());
    r.temperature_decikelvin = None;
    let device = PowerDevice::try_from(&r).unwrap().unwrap();
    assert!(device.temperature().is_none());
}
