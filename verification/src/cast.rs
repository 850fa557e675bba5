//! Range-checked casts between the interpreter's native integers and Rust's.

use libc::c_long;
use vstd::prelude::*;

verus! {

/// `num::traits::cast::<c_long, i8>`: the value itself where `i8` can hold it, `None`
/// where it cannot.
#[verifier::external_body]
pub(crate) fn long_to_i8(val: c_long) -> (r: Option<i8>)
    ensures
        r == (if i8::MIN <= val <= i8::MAX {
            Some(val as i8)
        } else {
            None::<i8>
        }),
{
    num::traits::cast::<c_long, i8>(val)
}

/// `num::traits::cast::<c_long, u8>`: the value itself where `u8` can hold it, `None`
/// where it cannot.
#[verifier::external_body]
pub(crate) fn long_to_u8(val: c_long) -> (r: Option<u8>)
    ensures
        r == (if u8::MIN <= val <= u8::MAX {
            Some(val as u8)
        } else {
            None::<u8>
        }),
{
    num::traits::cast::<c_long, u8>(val)
}

/// `num::traits::cast::<c_long, i16>`: the value itself where `i16` can hold it, `None`
/// where it cannot.
#[verifier::external_body]
pub(crate) fn long_to_i16(val: c_long) -> (r: Option<i16>)
    ensures
        r == (if i16::MIN <= val <= i16::MAX {
            Some(val as i16)
        } else {
            None::<i16>
        }),
{
    num::traits::cast::<c_long, i16>(val)
}

/// `num::traits::cast::<c_long, u16>`: the value itself where `u16` can hold it, `None`
/// where it cannot.
#[verifier::external_body]
pub(crate) fn long_to_u16(val: c_long) -> (r: Option<u16>)
    ensures
        r == (if u16::MIN <= val <= u16::MAX {
            Some(val as u16)
        } else {
            None::<u16>
        }),
{
    num::traits::cast::<c_long, u16>(val)
}

/// `num::traits::cast::<c_long, i32>`: the value itself where `i32` can hold it, `None`
/// where it cannot.
#[verifier::external_body]
pub(crate) fn long_to_i32(val: c_long) -> (r: Option<i32>)
    ensures
        r == (if i32::MIN <= val <= i32::MAX {
            Some(val as i32)
        } else {
            None::<i32>
        }),
{
    num::traits::cast::<c_long, i32>(val)
}

/// `num::traits::cast::<c_long, u32>`: the value itself where `u32` can hold it, `None`
/// where it cannot.
#[verifier::external_body]
pub(crate) fn long_to_u32(val: c_long) -> (r: Option<u32>)
    ensures
        r == (if u32::MIN <= val <= u32::MAX {
            Some(val as u32)
        } else {
            None::<u32>
        }),
{
    num::traits::cast::<c_long, u32>(val)
}

/// `num::traits::cast::<c_long, i64>`: the value itself where `i64` can hold it, `None`
/// where it cannot.
#[verifier::external_body]
pub(crate) fn long_to_i64(val: c_long) -> (r: Option<i64>)
    ensures
        r == (if i64::MIN <= val <= i64::MAX {
            Some(val as i64)
        } else {
            None::<i64>
        }),
{
    num::traits::cast::<c_long, i64>(val)
}

/// `num::traits::cast::<c_long, isize>`: the value itself where `isize` can hold it, `None`
/// where it cannot.
#[verifier::external_body]
pub(crate) fn long_to_isize(val: c_long) -> (r: Option<isize>)
    ensures
        r == (if isize::MIN <= val <= isize::MAX {
            Some(val as isize)
        } else {
            None::<isize>
        }),
{
    num::traits::cast::<c_long, isize>(val)
}

/// `num::traits::cast::<u64, usize>`: the value itself where `usize` can hold it, `None`
/// where it cannot.
#[verifier::external_body]
pub(crate) fn u64_to_usize(val: u64) -> (r: Option<usize>)
    ensures
        r == (if val <= usize::MAX {
            Some(val as usize)
        } else {
            None::<usize>
        }),
{
    num::traits::cast::<u64, usize>(val)
}

} // verus!
