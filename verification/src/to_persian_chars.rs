//! Replacing Arabic letter forms by their Persian counterparts.

use vstd::prelude::*;
use crate::persian_chars::to_persian_text;

verus! {

/// Replaces the Arabic letter forms by their Persian counterparts; all other
/// characters are kept.
pub fn to_persian_chars(inp: &str) -> (r: String)
    ensures
        r@ == to_persian_text(inp@),
{
    crate::persian_chars::to_persian_chars(inp)
}

} // verus!
