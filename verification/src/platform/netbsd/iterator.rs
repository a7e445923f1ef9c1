//! Enumeration over one whole-fleet sensor snapshot.
//!
//! Any kind of sensor appears in the snapshot, so entries that are not
//! valid batteries, and batteries that are physically absent, are
//! silently skipped; a read failure on a plausible battery is yielded
//! as an error element without ending the enumeration.

use vstd::prelude::*;

use std::sync::Arc;

use crate::device::{BatteryDevice, SnapshotModel};
use crate::errors::Error;
use crate::text;
use super::device::{error_matches, spec_envsys_new, spec_sysmon_refresh, EnvSysDevice, SpecFail, SysMonDevice};
use super::manager::SysMonManager;
use super::utils::{spec_conversion_message, AsResult, GetResult};
use super::values::{Dictionary, Value};

verus! {

/// The failures that mark an entry as "not this adapter's business":
/// a sensor that is not a valid battery, or a battery that is absent.
pub open spec fn spec_skip_failure(f: SpecFail) -> bool {
    f.exact == Some("Not a valid battery"@) || f.exact == Some("Battery absent"@)
}

/// A failed shape conversion never carries a skip message.
proof fn lemma_conversion_not_skipped(m: Seq<char>)
    requires
        spec_conversion_message(m),
    ensures
        m != "Not a valid battery"@,
        m != "Battery absent"@,
{
    reveal_strlit("Cannot convert value to Dict");
    reveal_strlit("Cannot convert value to slice");
    reveal_strlit("Cannot convert value to u64");
    reveal_strlit("Cannot convert value to i64");
    reveal_strlit("Cannot convert value to bool");
    reveal_strlit("Cannot convert value to string");
    reveal_strlit("Not a valid battery");
    reveal_strlit("Battery absent");
    assert("Not a valid battery"@.len() == 19);
    assert("Battery absent"@.len() == 14);
    assert("Cannot convert value to Dict"@.len() == 28);
    assert("Cannot convert value to slice"@.len() == 29);
    assert("Cannot convert value to u64"@.len() == 27);
    assert("Cannot convert value to i64"@.len() == 27);
    assert("Cannot convert value to bool"@.len() == 28);
    assert("Cannot convert value to string"@.len() == 30);
}

/// No failure worded by the conversion step itself carries a skip
/// message either.
proof fn lemma_refresh_message_not_skipped(m: Seq<char>)
    requires
        m == "Value out of range"@ || m == "Unit not supported"@
            || m == "Unit not supported or invalid state"@,
    ensures
        m != "Not a valid battery"@,
        m != "Battery absent"@,
{
    reveal_strlit("Value out of range");
    reveal_strlit("Unit not supported");
    reveal_strlit("Unit not supported or invalid state");
    reveal_strlit("Not a valid battery");
    reveal_strlit("Battery absent");
    assert("Not a valid battery"@.len() == 19);
    assert("Battery absent"@.len() == 14);
    assert("Value out of range"@.len() == 18);
    assert("Unit not supported"@.len() == 18);
    assert("Unit not supported or invalid state"@.len() == 35);
}

/// The first entry at or after `i` that the enumeration reports: one
/// whose sensor read succeeds or fails for a reason other than a skip.
pub open spec fn spec_yield_index(entries: Seq<(String, Value)>, i: int) -> int
    decreases entries.len() - i,
    when i <= entries.len()
{
    if i >= entries.len() {
        i
    } else {
        match spec_envsys_new(entries[i].0@, entries[i].1) {
            Err(f) => if spec_skip_failure(f) {
                spec_yield_index(entries, i + 1)
            } else {
                i
            },
            Ok(m) => i,
        }
    }
}

/// What the enumeration reports at its next step from `i`: nothing when
/// only skipped entries remain, otherwise the device built from the
/// first reportable entry, or that entry's failure.
pub open spec fn spec_yield_outcome(entries: Seq<(String, Value)>, i: int) -> Option<
    Result<(Seq<char>, SnapshotModel), SpecFail>,
> {
    let j = spec_yield_index(entries, i);
    if j >= entries.len() {
        None
    } else {
        match spec_envsys_new(entries[j].0@, entries[j].1) {
            Err(f) => Some(Err(f)),
            Ok(m) => match spec_sysmon_refresh(m) {
                Ok(snap) => Some(Ok((entries[j].0@, snap))),
                Err(f) => Some(Err(f)),
            },
        }
    }
}

/// A sensor whose metadata record names a device class other than
/// `battery` is passed over by the enumeration rather than surfaced as
/// an error element.
pub proof fn lemma_wrong_device_class_is_skipped(entries: Seq<(String, Value)>, i: int)
    requires
        0 <= i < entries.len(),
        ({
            let sensor = entries[i].1;
            &&& sensor.slice_model() matches Some(records)
            &&& records.len() > 0
            &&& records[records.len() - 1].dict_at("device-properties"@) matches Some(props)
            &&& props.string_at("device-class"@) matches Some(class)
            &&& class != "battery"@
        }),
    ensures
        spec_yield_index(entries, i) == spec_yield_index(entries, i + 1),
        spec_yield_outcome(entries, i) == spec_yield_outcome(entries, i + 1),
{
}

/// A finite, single-pass enumeration of the batteries found in one
/// whole-fleet snapshot.
#[derive(Debug)]
pub struct SysMonIterator {
    manager: Arc<SysMonManager>,
    entries: Vec<(String, Value)>,
    current: usize,
}

impl SysMonIterator {
    #[verifier::type_invariant]
    spec fn wf(self) -> bool {
        self.current <= self.entries@.len()
    }

    /// Ghost view of the snapshot entries this enumeration walks.
    pub closed spec fn entries_model(&self) -> Seq<(String, Value)> {
        self.entries@
    }

    /// Ghost position of the next entry to consider.
    pub closed spec fn position(&self) -> int {
        self.current as int
    }

    /// Starts an enumeration over a fresh whole-fleet snapshot.
    pub fn new(manager: Arc<SysMonManager>, fleet: Dictionary) -> (r: SysMonIterator)
        ensures
            r.entries_model() == fleet.entries@,
            r.position() == 0,
    {
        SysMonIterator { manager, entries: fleet.entries, current: 0 }
    }

    /// The next battery of the snapshot, or the failure of the first
    /// plausible battery that could not be read; `None` once only
    /// skipped entries remain.  A yielded failure is never one of the
    /// skip reasons.
    #[verifier::loop_isolation(false)]
    pub fn next(&mut self) -> (r: Option<Result<SysMonDevice, Error>>)
        ensures
            final(self).entries_model() == old(self).entries_model(),
            match r {
                None => spec_yield_outcome(old(self).entries_model(), old(self).position()) is None
                    && final(self).position() == old(self).entries_model().len(),
                Some(item) => ({
                    &&& final(self).position() == spec_yield_index(
                        old(self).entries_model(),
                        old(self).position(),
                    ) + 1
                    &&& match item {
                        Ok(bat) => spec_yield_outcome(old(self).entries_model(), old(self).position())
                            matches Some(Ok((name, snap)))
                            && bat.name@ == name
                            && bat.snapshot() == snap,
                        Err(e) => spec_yield_outcome(old(self).entries_model(), old(self).position())
                            matches Some(Err(f))
                            && error_matches(e, f)
                            && !spec_skip_failure(f),
                    }
                }),
            },
    {
        proof {
            use_type_invariant(&*self);
        }
        let ghost entries0 = self.entries@;
        let ghost start = self.current as int;
        while self.current < self.entries.len()
            invariant
                self.entries@ == entries0,
                start <= self.current <= entries0.len(),
                spec_yield_index(entries0, start) == spec_yield_index(entries0, self.current as int),
            decreases entries0.len() - self.current,
        {
            let i = self.current;
            let name = self.entries[i].0.clone();
            match EnvSysDevice::new(name, &self.entries[i].1) {
                Ok(data) => {
                    proof {
                        assert(spec_yield_index(entries0, i as int) == i as int);
                    }
                    let ghost data_model = data.model();
                    self.current = i + 1;
                    match SysMonDevice::new(data) {
                        Ok(bat) => {
                            return Some(Ok(bat));
                        },
                        Err(e) => {
                            proof {
                                let f = spec_sysmon_refresh(data_model)->Err_0;
                                match f.exact {
                                    Some(msg) => lemma_refresh_message_not_skipped(msg),
                                    None => lemma_conversion_not_skipped(e@.message),
                                }
                            }
                            return Some(Err(e));
                        },
                    }
                },
                Err(e) => {
                    let ghost f = spec_envsys_new(entries0[i as int].0@, entries0[i as int].1)->Err_0;
                    if text::str_equal(e.message(), "Not a valid battery")
                        || text::str_equal(e.message(), "Battery absent") {
                        proof {
                            if f.exact is None {
                                lemma_conversion_not_skipped(e@.message);
                            }
                            assert(spec_skip_failure(f));
                            assert(spec_yield_index(entries0, i as int)
                                == spec_yield_index(entries0, i + 1));
                        }
                        self.current = i + 1;
                    } else {
                        proof {
                            if f.exact is None {
                                lemma_conversion_not_skipped(e@.message);
                            }
                            assert(!spec_skip_failure(f));
                            assert(spec_yield_index(entries0, i as int) == i as int);
                        }
                        self.current = i + 1;
                        return Some(Err(e));
                    }
                },
            }
        }
        None
    }

    /// The number of batteries cannot be predicted from the snapshot
    /// without reading it, so no bound is promised.
    pub fn size_hint(&self) -> (r: (usize, Option<usize>))
        ensures
            r.0 == 0,
            r.1 is None,
    {
        (0usize, None)
    }
}

} // verus!
