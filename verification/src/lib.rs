//! Enum–string binding catalogues.
//!
//! Each enumeration in this crate carries a fixed, ordered catalogue of its
//! variants and of their string tokens, a total variant→token accessor, and a
//! partial token→variant parser, all stated and proved over the catalogue.

use vstd::prelude::*;
use vstd::string::*;

mod color;
mod demo;
mod log_level;

pub use color::Color;
pub use demo::MyEnum;
pub use demo::NoDisplayEnum;
pub use log_level::LogLevelSerdable;

verus! {

/// Character-by-character string equality, proved equivalent to equality of
/// the two views.
pub fn str_eq(a: &str, b: &str) -> (r: bool)
    ensures
        r == (a@ == b@),
{
    let a_len = a.unicode_len();
    let b_len = b.unicode_len();
    if a_len != b_len {
        return false;
    }
    let mut i: usize = 0;
    while i < a_len
        invariant
            a_len == a@.len(),
            b_len == b@.len(),
            a_len == b_len,
            i <= a_len,
            forall|j: int| 0 <= j < i ==> a@[j] == b@[j],
        decreases a_len - i,
    {
        if a.get_char(i) != b.get_char(i) {
            return false;
        }
        i += 1;
    }
    proof {
        assert(a@ =~= b@);
    }
    true
}

} // verus!
