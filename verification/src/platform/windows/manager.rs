//! Refreshing one ioctl-platform battery from a fresh reading.

use vstd::prelude::*;

use crate::device::{BatteryDevice, SnapshotModel};
use crate::errors::{Error, ErrorKind};
use super::device::{spec_power_refresh, DeviceReading, PowerDevice};

verus! {

/// Process-scoped handle for the ioctl battery subsystem; it owns no
/// per-device state.
#[derive(Debug, Default)]
pub struct PowerManager;

impl PowerManager {
    pub fn new() -> (r: PowerManager) {
        PowerManager
    }

    /// Brings one device up to date from a fresh reading acquired for
    /// the query tag the device captured at discovery time.  On a
    /// sentinel error the device keeps its previous reading unchanged.
    pub fn refresh(&self, device: &mut PowerDevice, reading: &DeviceReading) -> (r: Result<(), Error>)
        ensures
            match r {
                Ok(()) => spec_power_refresh(*reading) matches Ok(f)
                    && final(device).snapshot() == (SnapshotModel {
                        energy: f.capacity,
                        energy_full: f.full_charged_capacity,
                        energy_full_design: f.design_capacity,
                        energy_rate: f.energy_rate,
                        voltage: f.voltage,
                        state: f.state,
                        temperature: f.temperature,
                        cycle_count: f.cycle_count,
                        ..old(device).snapshot()
                    })
                    && final(device).tag_model() == old(device).tag_model(),
                Err(e) => spec_power_refresh(*reading) matches Err(m)
                    && e@.kind == ErrorKind::InvalidData
                    && e@.message == m
                    && *final(device) == *old(device),
            },
    {
        device.refresh(reading)
    }
}

} // verus!
