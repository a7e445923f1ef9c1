//! Refreshing one sensor-table battery from a fresh whole-fleet
//! snapshot.

use vstd::prelude::*;

use crate::device::BatteryDevice;
use crate::errors::{Error, ErrorKind};
use super::device::{error_matches, spec_envsys_new, spec_sysmon_refresh, EnvSysDevice, SysMonDevice};
use super::values::{spec_lookup, Dictionary};

verus! {

/// Process-scoped handle for the sensor-table subsystem; it owns no
/// per-device state.
#[derive(Debug)]
pub struct SysMonManager;

impl SysMonManager {
    pub fn new() -> (r: SysMonManager) {
        SysMonManager
    }

    /// Brings one device up to date from a fresh whole-fleet snapshot.
    ///
    /// The kernel only exposes an all-devices-at-once read, so the
    /// caller re-fetches the whole fleet and this selects the one entry
    /// matching the device's stable sensor name; refreshing one device
    /// on this platform is never cheaper than refreshing all of them.
    /// A name absent from the new snapshot is reported as not found,
    /// and on any failure the device keeps its previous reading
    /// unchanged.
    pub fn refresh(&self, device: &mut SysMonDevice, fleet: &Dictionary) -> (r: Result<(), Error>)
        ensures
            match spec_lookup(fleet.entries@, old(device).name@) {
                None => r matches Err(e)
                    && e@.kind == ErrorKind::NotFound
                    && e@.message == "Could not refresh battery"@
                    && *final(device) == *old(device),
                Some(sensor) => match spec_envsys_new(old(device).name@, sensor) {
                    Err(f) => r matches Err(e) && error_matches(e, f)
                        && *final(device) == *old(device),
                    Ok(m) => match spec_sysmon_refresh(m) {
                        Err(f) => r matches Err(e) && error_matches(e, f)
                            && *final(device) == *old(device),
                        Ok(snap) => r is Ok
                            && final(device).snapshot() == snap
                            && final(device).name@ == old(device).name@,
                    },
                },
            },
    {
        match fleet.get(device.name.as_str()) {
            Some(sensor) => {
                let data = match EnvSysDevice::new(device.name.clone(), sensor) {
                    Ok(d) => d,
                    Err(e) => return Err(e),
                };
                device.refresh(data)
            },
            None => Err(Error::not_found("Could not refresh battery")),
        }
    }
}

} // verus!
