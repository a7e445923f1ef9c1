//! Enumeration over the per-device readings acquired in one pass over
//! the platform's battery class.
//!
//! Batteries that only report relative capacities are silently
//! skipped; a reading that could not be acquired, or that carries a
//! sentinel where a required field belongs, is yielded as an error
//! element without ending the enumeration.

use vstd::prelude::*;

use std::sync::Arc;

use crate::device::BatteryDevice;
use crate::errors::{Error, ErrorKind};
use super::device::{spec_power_refresh, spec_power_snapshot, DeviceReading, PowerDevice};
use super::ioctl::BATTERY_CAPACITY_RELATIVE;
use super::manager::PowerManager;

verus! {

/// An acquired reading that the enumeration does not report: a
/// battery with relative-only data.
pub open spec fn spec_relative_item(item: Result<DeviceReading, Error>) -> bool {
    item matches Ok(reading)
        && reading.information.capabilities & BATTERY_CAPACITY_RELATIVE != 0
}

/// The first item at or after `i` that the enumeration reports.
pub open spec fn spec_power_yield_index(items: Seq<Result<DeviceReading, Error>>, i: int) -> int
    decreases items.len() - i,
    when i <= items.len()
{
    if i >= items.len() {
        i
    } else if spec_relative_item(items[i]) {
        spec_power_yield_index(items, i + 1)
    } else {
        i
    }
}

/// A finite, single-pass enumeration of the batteries acquired in one
/// pass; each element is either a device or the failure that kept one
/// plausible battery from being read.
#[derive(Debug)]
pub struct PowerIterator {
    manager: Arc<PowerManager>,
    items: Vec<Result<DeviceReading, Error>>,
    current: usize,
}

impl PowerIterator {
    #[verifier::type_invariant]
    spec fn wf(self) -> bool {
        self.current <= self.items@.len()
    }

    /// Ghost view of the acquired readings this enumeration walks.
    pub closed spec fn items_model(&self) -> Seq<Result<DeviceReading, Error>> {
        self.items@
    }

    /// Ghost position of the next item to consider.
    pub closed spec fn position(&self) -> int {
        self.current as int
    }

    /// Starts an enumeration over readings acquired in one pass.
    pub fn new(manager: Arc<PowerManager>, items: Vec<Result<DeviceReading, Error>>) -> (r: PowerIterator)
        ensures
            r.items_model() == items@,
            r.position() == 0,
    {
        PowerIterator { manager, items, current: 0 }
    }

    /// The next battery, or the failure that kept one plausible
    /// battery from being read; `None` once only relative-only
    /// batteries remain.
    #[verifier::loop_isolation(false)]
    pub fn next(&mut self) -> (r: Option<Result<PowerDevice, Error>>)
        ensures
            final(self).items_model() == old(self).items_model(),
            ({
                let items = old(self).items_model();
                let j = spec_power_yield_index(items, old(self).position());
                match r {
                    None => j >= items.len() && final(self).position() == items.len(),
                    Some(item) => ({
                        &&& j < items.len()
                        &&& final(self).position() == j + 1
                        &&& match item {
                            Ok(d) => items[j] matches Ok(reading)
                                && (spec_power_refresh(reading) matches Ok(f)
                                    && d.snapshot() == spec_power_snapshot(reading, f))
                                && d.tag_model() == reading.tag,
                            Err(e) => match items[j] {
                                Ok(reading) => spec_power_refresh(reading) matches Err(m)
                                    && e@.kind == ErrorKind::InvalidData
                                    && e@.message == m,
                                Err(e0) => e@ == e0@,
                            },
                        }
                    }),
                }
            }),
    {
        proof {
            use_type_invariant(&*self);
        }
        let ghost items0 = self.items@;
        let ghost start = self.current as int;
        while self.current < self.items.len()
            invariant
                self.items@ == items0,
                start <= self.current <= items0.len(),
                spec_power_yield_index(items0, start) == spec_power_yield_index(
                    items0,
                    self.current as int,
                ),
            decreases items0.len() - self.current,
        {
            let i = self.current;
            match &self.items[i] {
                Err(e) => {
                    let out = e.duplicate();
                    self.current = i + 1;
                    return Some(Err(out));
                },
                Ok(reading) => {
                    match PowerDevice::try_from(reading) {
                        Ok(Some(device)) => {
                            self.current = i + 1;
                            return Some(Ok(device));
                        },
                        Ok(None) => {
                            // Relative-only battery: skipped, not an error.
                            self.current = i + 1;
                        },
                        Err(e) => {
                            self.current = i + 1;
                            return Some(Err(e));
                        },
                    }
                },
            }
        }
        None
    }

    /// No bound on the number of batteries is promised beyond the
    /// number of acquired readings still to consider.
    pub fn size_hint(&self) -> (r: (usize, Option<usize>))
        ensures
            r.0 == 0,
            match r.1 {
                Some(n) => n == self.items_model().len() - self.position(),
                None => false,
            },
    {
        proof {
            use_type_invariant(self);
        }
        (0usize, Some(self.items.len() - self.current))
    }
}

} // verus!
