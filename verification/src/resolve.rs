//! Resolution of a logical index against a sequence length.
//!
//! A logical index is any mathematical integer; a negative one counts from
//! the end of the sequence. Resolution turns it into a native offset in
//! `[0, len)` or fails. An index below `isize::MIN` is not representable in
//! either native width and never resolves, however long the sequence is.

use vstd::prelude::*;

use crate::to_index::ToIndex;

verus! {

/// The native offset a logical index `i` stands for in a sequence of length
/// `len`: the index itself when it is nonnegative, and `len + i` — counting
/// from the end — when it is negative.
pub open spec fn resolved_offset(i: int, len: int) -> int {
    if i < 0 {
        len + i
    } else {
        i
    }
}

/// Whether the logical index `i` resolves at all against length `len`:
/// its offset must land in `[0, len)`, and `i` must be representable in the
/// native signed width.
pub open spec fn index_ok(i: int, len: int) -> bool {
    &&& isize::MIN <= i
    &&& 0 <= resolved_offset(i, len) < len
}

/// Resolves the logical index `idx` against a sequence of length `len`:
/// `Some` of the native offset it stands for exactly when that offset lands
/// in `[0, len)`, and `None` otherwise.
///
/// The fast path converts straight to the native unsigned width, which covers
/// every nonnegative index. A value that fails that conversion but holds a
/// native signed value must be negative; `len + idx` is then computed with a
/// single wrapping add. No separate overflow branch is needed: for a negative
/// index below `-len`, the sum taken modulo the native width lands in
/// `[len, usize::MAX]`, and the one final bounds comparison — the same one a
/// native access performs — rejects it. This holds for every length up to
/// `usize::MAX`, which sequences of zero-sized elements reach.
pub fn check_index<I: ToIndex>(idx: I, len: usize) -> (r: Option<usize>)
    ensures
        r is Some <==> index_ok(idx.as_int(), len as int),
        r matches Some(off) ==> off as int == resolved_offset(idx.as_int(), len as int),
{
    let resolved: usize = match idx.to_usize_checked() {
        Some(unsigned_index) => unsigned_index,
        None => {
            match idx.to_isize_checked() {
                Some(signed_index) => len.wrapping_add_signed(signed_index),
                None => {
                    return None;
                },
            }
        },
    };
    if resolved < len {
        Some(resolved)
    } else {
        None
    }
}

/// Law: a nonnegative index below the length resolves, to itself.
pub proof fn lemma_nonnegative_index(i: int, len: int)
    requires
        0 <= i < len,
    ensures
        index_ok(i, len),
        resolved_offset(i, len) == i,
{
}

/// Law: a representable negative index in `[-len, -1]` resolves, to the
/// offset `len + i` from the end.
pub proof fn lemma_negative_index(i: int, len: int)
    requires
        -len <= i <= -1,
        isize::MIN <= i,
    ensures
        index_ok(i, len),
        resolved_offset(i, len) == len + i,
{
}

/// Law: an index outside `[-len, len - 1]` never resolves.
pub proof fn lemma_out_of_range(i: int, len: int)
    requires
        i < -len || len <= i,
    ensures
        !index_ok(i, len),
{
}

/// Law: resolution sees only the mathematical value of an index, never the
/// width or signedness it was written in. Two index values of any two types
/// with the same mathematical value resolve identically against every length:
/// [`check_index`] promises its result as a function of `as_int` and the
/// length alone.
pub proof fn lemma_cross_width<A: ToIndex, B: ToIndex>(a: A, b: B, len: int)
    requires
        a.as_int() == b.as_int(),
    ensures
        index_ok(a.as_int(), len) == index_ok(b.as_int(), len),
        resolved_offset(a.as_int(), len) == resolved_offset(b.as_int(), len),
{
}

/// Law: in a sequence of any positive length — up to and including the
/// native unsigned maximum, as a sequence of zero-sized elements may reach —
/// both `-1` and `len - 1` resolve to the last offset.
pub proof fn lemma_last_element(len: int)
    requires
        1 <= len <= usize::MAX,
    ensures
        index_ok(-1, len),
        resolved_offset(-1, len) == len - 1,
        index_ok(len - 1, len),
        resolved_offset(len - 1, len) == len - 1,
{
}

} // verus!
