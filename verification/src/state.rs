//! The canonical charge-state classification.

use vstd::prelude::*;
use vstd::string::StringSliceAdditionalSpecFns;

use crate::errors::{Error, ErrorKind};
use crate::text;

verus! {

/// Possible battery state values.
///
/// `Unknown` can mean either that the controller returned unknown, or
/// that the state could not be retrieved due to some error.
#[derive(Debug, Eq, PartialEq, Copy, Clone, Hash, Structural)]
pub enum State {
    Unknown,
    Charging,
    Discharging,
    Empty,
    Full,
}

impl Default for State {
    fn default() -> (r: State)
        ensures
            r == State::Unknown,
    {
        State::Unknown
    }
}

/// The state named by a string, compared without regard to ASCII letter
/// case; `None` when the string names no state.
pub open spec fn spec_state_from(s: Seq<u8>) -> Option<State> {
    if text::ascii_ieq(s, "Unknown".spec_bytes()) {
        Some(State::Unknown)
    } else if text::ascii_ieq(s, "Empty".spec_bytes()) {
        Some(State::Empty)
    } else if text::ascii_ieq(s, "Full".spec_bytes()) {
        Some(State::Full)
    } else if text::ascii_ieq(s, "Charging".spec_bytes()) {
        Some(State::Charging)
    } else if text::ascii_ieq(s, "Discharging".spec_bytes()) {
        Some(State::Discharging)
    } else {
        None
    }
}

impl State {
    /// Parses a state name, ignoring ASCII letter case.
    pub fn from_str(s: &str) -> (r: Result<State, Error>)
        ensures
            match r {
                Ok(state) => spec_state_from(s.spec_bytes()) == Some(state),
                Err(e) => spec_state_from(s.spec_bytes()) is None
                    && e@.kind == ErrorKind::InvalidData,
            },
    {
        if text::str_ieq(s, "Unknown") {
            Ok(State::Unknown)
        } else if text::str_ieq(s, "Empty") {
            Ok(State::Empty)
        } else if text::str_ieq(s, "Full") {
            Ok(State::Full)
        } else if text::str_ieq(s, "Charging") {
            Ok(State::Charging)
        } else if text::str_ieq(s, "Discharging") {
            Ok(State::Discharging)
        } else {
            Err(Error::invalid_data("Unrecognized state name"))
        }
    }

    /// The lower-case display name of the state.
    pub fn as_str(&self) -> (r: &'static str)
        ensures
            r@ == match *self {
                State::Unknown => "unknown"@,
                State::Charging => "charging"@,
                State::Discharging => "discharging"@,
                State::Empty => "empty"@,
                State::Full => "full"@,
            },
    {
        match self {
            State::Unknown => "unknown",
            State::Charging => "charging",
            State::Discharging => "discharging",
            State::Empty => "empty",
            State::Full => "full",
        }
    }
}

} // verus!
