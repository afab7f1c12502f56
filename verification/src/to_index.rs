//! The capability an index type must offer: fallible conversion to each of
//! the two native widths, and a decimal debug rendering. Every built-in
//! integer type has it.

use vstd::prelude::*;

use crate::decimal::append_int;
use crate::decimal::append_numeral;
use crate::decimal::dec_int;

verus! {

/// An integer value usable as a logical index, of any width and signedness.
///
/// `as_int` is the mathematical value of the index; the two checked
/// conversions succeed exactly on the values that the native width can hold,
/// and never change the value.
pub trait ToIndex: Copy + Sized {
    /// The mathematical value of the index.
    spec fn as_int(&self) -> int;

    /// Converts to the native unsigned width: exactly the values in
    /// `[0, usize::MAX]` convert, unchanged.
    fn to_usize_checked(&self) -> (r: Option<usize>)
        ensures
            r is Some <==> 0 <= self.as_int() <= usize::MAX,
            r matches Some(u) ==> u as int == self.as_int(),
    ;

    /// Converts to the native signed width: exactly the values in
    /// `[isize::MIN, isize::MAX]` convert, unchanged.
    fn to_isize_checked(&self) -> (r: Option<isize>)
        ensures
            r is Some <==> isize::MIN <= self.as_int() <= isize::MAX,
            r matches Some(s) ==> s as int == self.as_int(),
    ;

    /// The debug form of the index: its decimal rendering.
    fn debug_str(&self) -> (s: String)
        ensures
            s@ == dec_int(self.as_int()),
    ;
}

fn usize_from_u128(v: u128) -> (r: Option<usize>)
    ensures
        r is Some <==> v <= usize::MAX,
        r matches Some(u) ==> u as int == v as int,
{
    if v <= usize::MAX as u128 {
        Some(v as usize)
    } else {
        None
    }
}

fn isize_from_u128(v: u128) -> (r: Option<isize>)
    ensures
        r is Some <==> v <= isize::MAX,
        r matches Some(s) ==> s as int == v as int,
{
    if v <= isize::MAX as u128 {
        Some(v as isize)
    } else {
        None
    }
}

fn usize_from_i128(v: i128) -> (r: Option<usize>)
    ensures
        r is Some <==> 0 <= v <= usize::MAX,
        r matches Some(u) ==> u as int == v as int,
{
    if 0 <= v && v <= usize::MAX as i128 {
        Some(v as usize)
    } else {
        None
    }
}

fn isize_from_i128(v: i128) -> (r: Option<isize>)
    ensures
        r is Some <==> isize::MIN <= v <= isize::MAX,
        r matches Some(s) ==> s as int == v as int,
{
    if isize::MIN as i128 <= v && v <= isize::MAX as i128 {
        Some(v as isize)
    } else {
        None
    }
}

fn unsigned_debug_str(v: u128) -> (s: String)
    ensures
        s@ == dec_int(v as int),
{
    let mut s = String::new();
    append_numeral(&mut s, v);
    proof {
        assert(s@ =~= dec_int(v as int));
    }
    s
}

fn signed_debug_str(v: i128) -> (s: String)
    ensures
        s@ == dec_int(v as int),
{
    let mut s = String::new();
    append_int(&mut s, v);
    proof {
        assert(s@ =~= dec_int(v as int));
    }
    s
}

impl ToIndex for u8 {
    open spec fn as_int(&self) -> int {
        *self as int
    }

    fn to_usize_checked(&self) -> Option<usize> {
        usize_from_u128(*self as u128)
    }

    fn to_isize_checked(&self) -> Option<isize> {
        isize_from_u128(*self as u128)
    }

    fn debug_str(&self) -> String {
        unsigned_debug_str(*self as u128)
    }
}

impl ToIndex for u16 {
    open spec fn as_int(&self) -> int {
        *self as int
    }

    fn to_usize_checked(&self) -> Option<usize> {
        usize_from_u128(*self as u128)
    }

    fn to_isize_checked(&self) -> Option<isize> {
        isize_from_u128(*self as u128)
    }

    fn debug_str(&self) -> String {
        unsigned_debug_str(*self as u128)
    }
}

impl ToIndex for u32 {
    open spec fn as_int(&self) -> int {
        *self as int
    }

    fn to_usize_checked(&self) -> Option<usize> {
        usize_from_u128(*self as u128)
    }

    fn to_isize_checked(&self) -> Option<isize> {
        isize_from_u128(*self as u128)
    }

    fn debug_str(&self) -> String {
        unsigned_debug_str(*self as u128)
    }
}

impl ToIndex for u64 {
    open spec fn as_int(&self) -> int {
        *self as int
    }

    fn to_usize_checked(&self) -> Option<usize> {
        usize_from_u128(*self as u128)
    }

    fn to_isize_checked(&self) -> Option<isize> {
        isize_from_u128(*self as u128)
    }

    fn debug_str(&self) -> String {
        unsigned_debug_str(*self as u128)
    }
}

impl ToIndex for u128 {
    open spec fn as_int(&self) -> int {
        *self as int
    }

    fn to_usize_checked(&self) -> Option<usize> {
        usize_from_u128(*self)
    }

    fn to_isize_checked(&self) -> Option<isize> {
        isize_from_u128(*self)
    }

    fn debug_str(&self) -> String {
        unsigned_debug_str(*self)
    }
}

impl ToIndex for usize {
    open spec fn as_int(&self) -> int {
        *self as int
    }

    fn to_usize_checked(&self) -> Option<usize> {
        usize_from_u128(*self as u128)
    }

    fn to_isize_checked(&self) -> Option<isize> {
        isize_from_u128(*self as u128)
    }

    fn debug_str(&self) -> String {
        unsigned_debug_str(*self as u128)
    }
}

impl ToIndex for i8 {
    open spec fn as_int(&self) -> int {
        *self as int
    }

    fn to_usize_checked(&self) -> Option<usize> {
        usize_from_i128(*self as i128)
    }

    fn to_isize_checked(&self) -> Option<isize> {
        isize_from_i128(*self as i128)
    }

    fn debug_str(&self) -> String {
        signed_debug_str(*self as i128)
    }
}

impl ToIndex for i16 {
    open spec fn as_int(&self) -> int {
        *self as int
    }

    fn to_usize_checked(&self) -> Option<usize> {
        usize_from_i128(*self as i128)
    }

    fn to_isize_checked(&self) -> Option<isize> {
        isize_from_i128(*self as i128)
    }

    fn debug_str(&self) -> String {
        signed_debug_str(*self as i128)
    }
}

impl ToIndex for i32 {
    open spec fn as_int(&self) -> int {
        *self as int
    }

    fn to_usize_checked(&self) -> Option<usize> {
        usize_from_i128(*self as i128)
    }

    fn to_isize_checked(&self) -> Option<isize> {
        isize_from_i128(*self as i128)
    }

    fn debug_str(&self) -> String {
        signed_debug_str(*self as i128)
    }
}

impl ToIndex for i64 {
    open spec fn as_int(&self) -> int {
        *self as int
    }

    fn to_usize_checked(&self) -> Option<usize> {
        usize_from_i128(*self as i128)
    }

    fn to_isize_checked(&self) -> Option<isize> {
        isize_from_i128(*self as i128)
    }

    fn debug_str(&self) -> String {
        signed_debug_str(*self as i128)
    }
}

impl ToIndex for i128 {
    open spec fn as_int(&self) -> int {
        *self as int
    }

    fn to_usize_checked(&self) -> Option<usize> {
        usize_from_i128(*self)
    }

    fn to_isize_checked(&self) -> Option<isize> {
        isize_from_i128(*self)
    }

    fn debug_str(&self) -> String {
        signed_debug_str(*self)
    }
}

impl ToIndex for isize {
    open spec fn as_int(&self) -> int {
        *self as int
    }

    fn to_usize_checked(&self) -> Option<usize> {
        usize_from_i128(*self as i128)
    }

    fn to_isize_checked(&self) -> Option<isize> {
        isize_from_i128(*self as i128)
    }

    fn debug_str(&self) -> String {
        signed_debug_str(*self as i128)
    }
}

} // verus!
