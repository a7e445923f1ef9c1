//! Small verified helpers for comparing the vendor strings, unit tags and
//! state literals that platform sources report.

use vstd::prelude::*;
use vstd::string::{StrSliceExecFns, StringSliceAdditionalSpecFns};

verus! {

/// Exact string equality, stated over the character views.
pub fn str_equal(a: &str, b: &str) -> (r: bool)
    ensures
        r == (a@ == b@),
{
    let left: String = a.to_owned();
    let right: String = b.to_owned();
    left == right
}

/// The ASCII lower-case image of one byte.
pub open spec fn lower_byte(b: u8) -> u8 {
    if 65 <= b <= 90 {
        (b + 32) as u8
    } else {
        b
    }
}

/// Byte sequences that agree up to ASCII letter case.
pub open spec fn ascii_ieq(a: Seq<u8>, b: Seq<u8>) -> bool {
    a.len() == b.len() && forall|i: int| 0 <= i < a.len() ==> lower_byte(a[i]) == lower_byte(b[i])
}

fn ascii_lower_byte(b: u8) -> (r: u8)
    ensures
        r == lower_byte(b),
{
    if 65 <= b && b <= 90 {
        b + 32
    } else {
        b
    }
}

/// Case-insensitive ASCII equality of two byte slices.
pub fn bytes_ieq(a: &[u8], b: &[u8]) -> (r: bool)
    ensures
        r == ascii_ieq(a@, b@),
{
    if a.len() != b.len() {
        return false;
    }
    for i in 0..a.len()
        invariant
            a@.len() == b@.len(),
            i <= a@.len(),
            forall|j: int| 0 <= j < i ==> lower_byte(a@[j]) == lower_byte(b@[j]),
    {
        if ascii_lower_byte(a[i]) != ascii_lower_byte(b[i]) {
            return false;
        }
    }
    true
}

/// Case-insensitive ASCII equality of the first `n` bytes of `a` with the
/// whole of `b`.
pub fn bytes_ieq_prefix(a: &[u8], n: usize, b: &[u8]) -> (r: bool)
    requires
        n <= a@.len(),
    ensures
        r == ascii_ieq(a@.subrange(0, n as int), b@),
{
    if n != b.len() {
        return false;
    }
    for i in 0..n
        invariant
            n <= a@.len(),
            n == b@.len(),
            i <= n,
            forall|j: int| 0 <= j < i ==> lower_byte(a@[j]) == lower_byte(b@[j]),
    {
        if ascii_lower_byte(a[i]) != ascii_lower_byte(b[i]) {
            return false;
        }
    }
    assert(forall|j: int|
        0 <= j < n ==> a@.subrange(0, n as int)[j] == a@[j]);
    true
}

/// Case-insensitive ASCII equality of two strings, stated over their byte
/// encodings.
pub fn str_ieq(a: &str, b: &str) -> (r: bool)
    ensures
        r == ascii_ieq(a.spec_bytes(), b.spec_bytes()),
{
    bytes_ieq(a.as_bytes(), b.as_bytes())
}

/// Whether `p` starts `s`.
pub open spec fn spec_starts_with(s: Seq<char>, p: Seq<char>) -> bool {
    p.len() <= s.len() && forall|i: int| 0 <= i < p.len() ==> s[i] == p[i]
}

/// Whether `prefix` starts `s`.
pub fn str_starts_with(s: &str, prefix: &str) -> (r: bool)
    ensures
        r == spec_starts_with(s@, prefix@),
{
    let n = prefix.unicode_len();
    if n > s.unicode_len() {
        return false;
    }
    for i in 0..n
        invariant
            n == prefix@.len(),
            n <= s@.len(),
            forall|j: int| 0 <= j < i ==> s@[j] == prefix@[j],
    {
        if s.get_char(i) != prefix.get_char(i) {
            return false;
        }
    }
    true
}

} // verus!
