//! Battery chemistry tags.

use vstd::prelude::*;
use vstd::string::StringSliceAdditionalSpecFns;

use crate::errors::{Error, ErrorKind};
use crate::text;

verus! {

/// Battery chemistry; `Unknown` when the platform reports none or an
/// unrecognized tag.
#[derive(Debug, Eq, PartialEq, Copy, Clone, Hash, Structural)]
pub enum Technology {
    Unknown,
    LithiumIon,
    LeadAcid,
    LithiumPolymer,
    NickelCadmium,
    NickelMetalHydride,
    NickelZinc,
    RechargeableAlkalineManganese,
}

impl Default for Technology {
    fn default() -> (r: Technology)
        ensures
            r == Technology::Unknown,
    {
        Technology::Unknown
    }
}

/// The chemistry named by a vendor tag, compared without regard to ASCII
/// letter case; `None` when the tag is unrecognized.
pub open spec fn spec_technology_from(s: Seq<u8>) -> Option<Technology> {
    if text::ascii_ieq(s, "LION".spec_bytes()) || text::ascii_ieq(s, "LI-I".spec_bytes()) {
        Some(Technology::LithiumIon)
    } else if text::ascii_ieq(s, "PbAc".spec_bytes()) {
        Some(Technology::LeadAcid)
    } else if text::ascii_ieq(s, "LiP".spec_bytes()) {
        Some(Technology::LithiumPolymer)
    } else if text::ascii_ieq(s, "NiCd".spec_bytes()) {
        Some(Technology::NickelCadmium)
    } else if text::ascii_ieq(s, "NiMH".spec_bytes()) {
        Some(Technology::NickelMetalHydride)
    } else if text::ascii_ieq(s, "NiZn".spec_bytes()) {
        Some(Technology::NickelZinc)
    } else if text::ascii_ieq(s, "RAM".spec_bytes()) {
        Some(Technology::RechargeableAlkalineManganese)
    } else {
        None
    }
}

/// The length of `s` once trailing NUL padding is dropped, as found in
/// fixed-width chemistry fields.
pub open spec fn spec_trimmed_len(s: Seq<u8>, n: int) -> int
    decreases n,
{
    if n <= 0 {
        0
    } else if s[n - 1] == 0 {
        spec_trimmed_len(s, n - 1)
    } else {
        n
    }
}

impl Technology {
    /// Parses a chemistry tag, ignoring ASCII letter case.
    pub fn from_str(s: &str) -> (r: Result<Technology, Error>)
        ensures
            match r {
                Ok(tech) => spec_technology_from(s.spec_bytes()) == Some(tech),
                Err(e) => spec_technology_from(s.spec_bytes()) is None
                    && e@.kind == ErrorKind::InvalidData,
            },
    {
        if text::str_ieq(s, "LION") || text::str_ieq(s, "LI-I") {
            Ok(Technology::LithiumIon)
        } else if text::str_ieq(s, "PbAc") {
            Ok(Technology::LeadAcid)
        } else if text::str_ieq(s, "LiP") {
            Ok(Technology::LithiumPolymer)
        } else if text::str_ieq(s, "NiCd") {
            Ok(Technology::NickelCadmium)
        } else if text::str_ieq(s, "NiMH") {
            Ok(Technology::NickelMetalHydride)
        } else if text::str_ieq(s, "NiZn") {
            Ok(Technology::NickelZinc)
        } else if text::str_ieq(s, "RAM") {
            Ok(Technology::RechargeableAlkalineManganese)
        } else {
            Err(Error::invalid_data("Unrecognized chemistry tag"))
        }
    }

    /// Reads a fixed-width chemistry field as reported by a raw status
    /// structure: trailing NUL padding is ignored and an unrecognized tag
    /// maps to `Unknown`.
    pub fn from_chemistry(raw: &[u8]) -> (r: Technology)
        ensures
            ({
                let trimmed = raw@.subrange(0, spec_trimmed_len(raw@, raw@.len() as int));
                match spec_technology_from(trimmed) {
                    Some(tech) => r == tech,
                    None => r == Technology::Unknown,
                }
            }),
    {
        let mut n: usize = raw.len();
        while n > 0 && raw[n - 1] == 0
            invariant
                n <= raw@.len(),
                spec_trimmed_len(raw@, raw@.len() as int) == spec_trimmed_len(raw@, n as int),
            decreases n,
        {
            n = n - 1;
        }
        proof {
            assert(spec_trimmed_len(raw@, n as int) == n);
        }
        if text::bytes_ieq_prefix(raw, n, "LION".as_bytes())
            || text::bytes_ieq_prefix(raw, n, "LI-I".as_bytes()) {
            Technology::LithiumIon
        } else if text::bytes_ieq_prefix(raw, n, "PbAc".as_bytes()) {
            Technology::LeadAcid
        } else if text::bytes_ieq_prefix(raw, n, "LiP".as_bytes()) {
            Technology::LithiumPolymer
        } else if text::bytes_ieq_prefix(raw, n, "NiCd".as_bytes()) {
            Technology::NickelCadmium
        } else if text::bytes_ieq_prefix(raw, n, "NiMH".as_bytes()) {
            Technology::NickelMetalHydride
        } else if text::bytes_ieq_prefix(raw, n, "NiZn".as_bytes()) {
            Technology::NickelZinc
        } else if text::bytes_ieq_prefix(raw, n, "RAM".as_bytes()) {
            Technology::RechargeableAlkalineManganese
        } else {
            Technology::Unknown
        }
    }

    /// The lower-case display name of the chemistry.
    pub fn as_str(&self) -> (r: &'static str)
        ensures
            r@ == match *self {
                Technology::Unknown => "unknown"@,
                Technology::LithiumIon => "lithium-ion"@,
                Technology::LeadAcid => "lead-acid"@,
                Technology::LithiumPolymer => "lithium-polymer"@,
                Technology::NickelCadmium => "nickel-cadmium"@,
                Technology::NickelMetalHydride => "nickel-metal-hydride"@,
                Technology::NickelZinc => "nickel-zinc"@,
                Technology::RechargeableAlkalineManganese => "rechargeable-alkaline-manganese"@,
            },
    {
        match self {
            Technology::Unknown => "unknown",
            Technology::LithiumIon => "lithium-ion",
            Technology::LeadAcid => "lead-acid",
            Technology::LithiumPolymer => "lithium-polymer",
            Technology::NickelCadmium => "nickel-cadmium",
            Technology::NickelMetalHydride => "nickel-metal-hydride",
            Technology::NickelZinc => "nickel-zinc",
            Technology::RechargeableAlkalineManganese => "rechargeable-alkaline-manganese",
        }
    }
}

} // verus!
