//! The location codes of a run.
//!
//! The operator gives one text of segments separated by underscores:
//! province, district, ward, hamlet, and whatever follows.  Each code the
//! remote service asks for is that text up to the end of one more segment,
//! so a code always carries the codes above it.

use crate::text::{chars_of, text_of_range};
use vstd::prelude::*;

verus! {

/// The character that separates the segments.
pub const DELIMITER: char = '_';

/// Position of the first delimiter of `s` at or after `from`; the length of
/// `s` where there is none.
pub open spec fn next_delimiter(s: Seq<char>, from: int) -> int
    decreases s.len() - from,
{
    if from >= s.len() {
        s.len() as int
    } else if s[from] == DELIMITER {
        from
    } else {
        next_delimiter(s, from + 1)
    }
}

/// Position at which segment `n` of `s` ends, counting segments from 0:
/// the position of the delimiter behind it, or the length of `s` where
/// the text ends first.
pub open spec fn segment_end(s: Seq<char>, n: nat) -> int
    decreases n,
{
    if n == 0 {
        next_delimiter(s, 0)
    } else {
        next_delimiter(s, segment_end(s, (n - 1) as nat) + 1)
    }
}

/// Whether `s` has at least four segments: three delimiters stand in it.
pub open spec fn has_four_segments(s: Seq<char>) -> bool {
    segment_end(s, 2) < s.len()
}

/// The four codes of a location, each qualified by the ones above it.
#[derive(Debug, Clone, PartialEq, Eq)]
pub struct LocationCodes {
    /// Province.
    pub ma_tinh: String,
    /// Province and district.
    pub ma_quanhuyen: String,
    /// Province, district and ward.
    pub ma_phuongxa: String,
    /// Province, district, ward and hamlet.
    pub ma_thonxom: String,
}

impl LocationCodes {
    /// Whether the codes are the ones that `prefix` gives.
    pub open spec fn from_prefix(&self, prefix: Seq<char>) -> bool {
        &&& self.ma_tinh@ == prefix.take(segment_end(prefix, 0))
        &&& self.ma_quanhuyen@ == prefix.take(segment_end(prefix, 1))
        &&& self.ma_phuongxa@ == prefix.take(segment_end(prefix, 2))
        &&& self.ma_thonxom@ == prefix.take(segment_end(prefix, 3))
    }

    /// Splits the operator's text into the four codes.  Nothing where the
    /// text has fewer than four segments.
    pub fn parse(prefix: &str) -> (r: Option<LocationCodes>)
        ensures
            r is Some <==> has_four_segments(prefix@),
            r is Some ==> r.unwrap().from_prefix(prefix@),
    {
        proof {
            reveal_with_fuel(segment_end, 4);
        }
        let chars = chars_of(prefix);
        let first: usize = find_delimiter(&chars, 0);
        if first >= chars.len() {
            return None;
        }
        let second: usize = find_delimiter(&chars, first + 1);
        if second >= chars.len() {
            return None;
        }
        let third: usize = find_delimiter(&chars, second + 1);
        if third >= chars.len() {
            return None;
        }
        let fourth: usize = find_delimiter(&chars, third + 1);
        Some(
            LocationCodes {
                ma_tinh: text_of_range(&chars, 0, first),
                ma_quanhuyen: text_of_range(&chars, 0, second),
                ma_phuongxa: text_of_range(&chars, 0, third),
                ma_thonxom: text_of_range(&chars, 0, fourth),
            },
        )
    }
}

/// Finds the first delimiter at or after `from`.
pub fn find_delimiter(chars: &Vec<char>, from: usize) -> (r: usize)
    requires
        from <= chars.len(),
    ensures
        r == next_delimiter(chars@, from as int),
        from <= r <= chars.len(),
{
    let mut i: usize = from;
    while i < chars.len() && chars[i] != DELIMITER
        invariant
            from <= i <= chars.len(),
            next_delimiter(chars@, from as int) == next_delimiter(chars@, i as int),
        decreases chars.len() - i,
    {
        i = i + 1;
    }
    i
}

} // verus!
