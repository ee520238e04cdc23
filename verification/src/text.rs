//! Characters and strings, as far as keys, presets and extensions need them.

use vstd::prelude::*;
use vstd::string::StrSliceExecFns;

verus! {

/// `0` to `9`, `a` to `f` and `A` to `F`.
pub open spec fn is_hex_digit(c: char) -> bool {
    ('0' <= c <= '9') || ('a' <= c <= 'f') || ('A' <= c <= 'F')
}

/// `0` to `9`, `a` to `z` and `A` to `Z`.
pub open spec fn is_alphanumeric(c: char) -> bool {
    ('0' <= c <= '9') || ('a' <= c <= 'z') || ('A' <= c <= 'Z')
}

/// Whether a character is an ASCII hexadecimal digit.
pub fn hex_digit(c: char) -> (b: bool)
    ensures
        b == is_hex_digit(c),
{
    (c >= '0' && c <= '9') || (c >= 'a' && c <= 'f') || (c >= 'A' && c <= 'F')
}

/// Whether a character is an ASCII letter or digit.
pub fn alphanumeric(c: char) -> (b: bool)
    ensures
        b == is_alphanumeric(c),
{
    (c >= '0' && c <= '9') || (c >= 'a' && c <= 'z') || (c >= 'A' && c <= 'Z')
}

/// Whether two strings hold the same characters.
pub fn same_text(a: &str, b: &str) -> (same: bool)
    ensures
        same == (a@ == b@),
{
    let n = a.unicode_len();
    if n != b.unicode_len() {
        return false;
    }
    let mut i: usize = 0;
    while i < n
        invariant
            n == a@.len(),
            n == b@.len(),
            i <= n,
            forall|j: int| 0 <= j < i ==> a@[j] == b@[j],
        decreases n - i,
    {
        if a.get_char(i) != b.get_char(i) {
            return false;
        }
        i = i + 1;
    }
    assert(a@ =~= b@);
    true
}

} // verus!
