//! Syntax of tracking numbers.

use vstd::prelude::*;

verus! {

/// Fewest characters a tracking number may have.
pub const MIN_TRACKING_LEN: usize = 10;

/// Most characters a tracking number may have.
pub const MAX_TRACKING_LEN: usize = 20;

/// A character allowed in a tracking number: an uppercase ASCII letter or a
/// decimal digit.
pub open spec fn is_tracking_char(c: char) -> bool {
    ('A' <= c && c <= 'Z') || ('0' <= c && c <= '9')
}

/// A well-formed tracking number: 10 to 20 characters, each an uppercase ASCII
/// letter or a digit.
pub open spec fn valid_tracking_number(s: Seq<char>) -> bool {
    &&& MIN_TRACKING_LEN <= s.len() <= MAX_TRACKING_LEN
    &&& forall|i: int| 0 <= i < s.len() ==> is_tracking_char(#[trigger] s[i])
}

/// Decides whether `tracking_number` is syntactically a tracking number.
pub fn is_valid_tracking_number(tracking_number: &str) -> (r: bool)
    ensures
        r == valid_tracking_number(tracking_number@),
{
    let len = tracking_number.unicode_len();
    if len < MIN_TRACKING_LEN || len > MAX_TRACKING_LEN {
        return false;
    }
    let mut i: usize = 0;
    while i < len
        invariant
            len == tracking_number@.len(),
            i <= len,
            forall|j: int| 0 <= j < i ==> is_tracking_char(#[trigger] tracking_number@[j]),
        decreases len - i,
    {
        let c = tracking_number.get_char(i);
        if !(('A' <= c && c <= 'Z') || ('0' <= c && c <= '9')) {
            return false;
        }
        i = i + 1;
    }
    true
}

} // verus!
