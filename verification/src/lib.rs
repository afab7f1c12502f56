//! Indexing helpers for contiguous sequences.
//!
//! The heart of the crate is [`check_index`], which turns a logical index of
//! any built-in integer width — negative values count from the end, in the
//! Python style — together with a slice length into either a valid native
//! offset or `None`. The [`At`] trait builds three explicit accessors on top
//! of it: by value ([`At::at`]), by shared reference ([`At::ref_at`]) and by
//! exclusive reference ([`At::mut_at`]). Each accessor demands, as a verified
//! precondition, that the index resolves; [`panic_bounds_check`] renders the
//! diagnostic that an unverified caller reports when it cannot meet that
//! obligation.

use vstd::prelude::*;

mod access;
mod decimal;
mod message;
mod resolve;
mod to_index;

verus! {

pub use access::At;
pub use decimal::dec_int;
pub use decimal::dec_numeral;
pub use message::bounds_message;
pub use message::panic_bounds_check;
pub use resolve::check_index;
pub use resolve::index_ok;
pub use resolve::lemma_cross_width;
pub use resolve::lemma_last_element;
pub use resolve::lemma_negative_index;
pub use resolve::lemma_nonnegative_index;
pub use resolve::lemma_out_of_range;
pub use resolve::resolved_offset;
pub use to_index::ToIndex;

} // verus!
