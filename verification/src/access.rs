//! The three accessors: by value, by shared reference, by exclusive
//! reference. Each resolves its index once with [`check_index`] and performs
//! the access; the caller proves the index in bounds, so the failure branch
//! is verified unreachable and costs nothing.

use vstd::prelude::*;
use vstd::slice::slice_index_get;

use crate::resolve::check_index;
use crate::resolve::index_ok;
use crate::resolve::resolved_offset;
use crate::to_index::ToIndex;

verus! {

/// Relies on the slice exclusive indexing operator of core: yields the
/// element at offset `i`.
#[verifier::external_body]
fn slice_index_mut<T>(slice: &mut [T], i: usize) -> (element: &mut T)
    requires
        i < old(slice)@.len(),
    ensures
        *element == old(slice)@[i as int],
        final(slice)@ == old(slice)@.update(i as int, *final(element)),
{
    &mut slice[i]
}

/// Indexing by any integer width, with negative indices counting from the
/// end, choosing the kind of access — value, reference, exclusive reference —
/// explicitly.
pub trait At<T> {
    /// The elements of the sequence.
    spec fn elems(&self) -> Seq<T>;

    /// The element that `idx` resolves to, by value.
    fn at<I: ToIndex>(&self, idx: I) -> (r: T) where T: Copy
        requires
            index_ok(idx.as_int(), self.elems().len() as int),
        ensures
            r == self.elems()[resolved_offset(idx.as_int(), self.elems().len() as int)],
    ;

    /// The element that `idx` resolves to, by shared reference.
    fn ref_at<I: ToIndex>(&self, idx: I) -> (r: &T)
        requires
            index_ok(idx.as_int(), self.elems().len() as int),
        ensures
            *r == self.elems()[resolved_offset(idx.as_int(), self.elems().len() as int)],
    ;

    /// The element that `idx` resolves to, by exclusive reference. Writing
    /// through the reference changes exactly the element at the resolved
    /// offset and nothing else.
    fn mut_at<I: ToIndex>(&mut self, idx: I) -> (r: &mut T)
        requires
            index_ok(idx.as_int(), old(self).elems().len() as int),
        ensures
            *r == old(self).elems()[resolved_offset(
                idx.as_int(),
                old(self).elems().len() as int,
            )],
            final(self).elems() == old(self).elems().update(
                resolved_offset(idx.as_int(), old(self).elems().len() as int),
                *final(r),
            ),
    ;
}

impl<T> At<T> for [T] {
    open spec fn elems(&self) -> Seq<T> {
        self@
    }

    fn at<I: ToIndex>(&self, idx: I) -> (r: T) where T: Copy {
        let len: usize = self.len();
        match check_index(idx, len) {
            Some(i) => *slice_index_get(self, i),
            None => unreached(),
        }
    }

    fn ref_at<I: ToIndex>(&self, idx: I) -> (r: &T) {
        let len: usize = self.len();
        match check_index(idx, len) {
            Some(i) => slice_index_get(self, i),
            None => unreached(),
        }
    }

    fn mut_at<I: ToIndex>(&mut self, idx: I) -> (r: &mut T) {
        let len: usize = self.len();
        match check_index(idx, len) {
            Some(i) => slice_index_mut(self, i),
            None => unreached(),
        }
    }
}

} // verus!
