//! Small verified helpers over strings, used by the unit-name handling and
//! the job-result classification.

use vstd::prelude::*;
use vstd::string::{StrSliceExecFns, StringExecFns};

verus! {

/// True when `s` ends in the suffix `t`.
pub open spec fn spec_ends_with(s: Seq<char>, t: Seq<char>) -> bool {
    s.len() >= t.len() && s.subrange(s.len() - t.len(), s.len() as int) == t
}

/// Character-for-character equality of two string slices.
pub fn str_eq(a: &str, b: &str) -> (r: bool)
    ensures
        r == (a@ == b@),
{
    let a_owned = String::from_str(a);
    let b_owned = String::from_str(b);
    a_owned == b_owned
}

/// Whether `s` ends with the suffix `t`, by characters.
pub fn str_ends_with(s: &str, t: &str) -> (r: bool)
    ensures
        r == spec_ends_with(s@, t@),
{
    let n = s.unicode_len();
    let m = t.unicode_len();
    if n < m {
        false
    } else {
        let tail = s.substring_char(n - m, n);
        str_eq(tail, t)
    }
}

/// The concatenation of two string slices as an owned string.
pub fn str_concat(a: &str, b: &str) -> (r: String)
    ensures
        r@ == a@ + b@,
{
    let a_owned = String::from_str(a);
    a_owned.concat(b)
}

} // verus!
