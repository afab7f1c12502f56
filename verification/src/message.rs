//! The out-of-bounds diagnostic. The accessors themselves never reach their
//! failure branch — their callers prove every index in bounds — so the
//! message here is for unverified callers, which test [`check_index`]
//! themselves and abort with exactly this text when it fails.

use vstd::prelude::*;
use vstd::string::StringExecFns;

use crate::decimal::append_numeral;
use crate::decimal::dec_int;
use crate::decimal::dec_numeral;
use crate::to_index::ToIndex;

verus! {

/// The out-of-bounds diagnostic for logical index `i` against length `len`:
/// `index out of bounds: the len is {len} but the index is {i}`, with the
/// index rendered in its original, unresolved debug form.
pub open spec fn bounds_message(i: int, len: nat) -> Seq<char> {
    "index out of bounds: the len is "@ + dec_numeral(len) + " but the index is "@ + dec_int(i)
}

/// The text that an access panics with when `idx` does not resolve against
/// `len`: an unverified caller that cannot prove its index in bounds checks
/// the resolution itself and aborts with this message on failure.
pub fn panic_bounds_check<I: ToIndex>(idx: I, len: usize) -> (m: String)
    ensures
        m@ == bounds_message(idx.as_int(), len as nat),
{
    let mut m = String::new();
    m.append("index out of bounds: the len is ");
    append_numeral(&mut m, len as u128);
    m.append(" but the index is ");
    let rendered = idx.debug_str();
    m.append(rendered.as_str());
    proof {
        assert(m@ =~= bounds_message(idx.as_int(), len as nat));
    }
    m
}

} // verus!
