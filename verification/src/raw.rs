//! Compatible, but backend-dependent, C-ABI-width types, resolved
//! through the capability contract so they are never aliased across
//! backends.

#![allow(non_camel_case_types)]

use vstd::prelude::*;
use crate::traits::Std;

verus! {

/// Type used to construct void pointers for use with C.
///
/// This type is only useful as a pointer target. Do not use it as a
/// return type for FFI functions which have the `void` return type in
/// C; use the unit type `()` or omit the return type instead. The
/// variants exist only to keep the type uninhabitable from safe code
/// and are not to be named.
pub enum c_void {
    __variant1,
    __variant2,
}

pub type c_char<STD> = <STD as Std>::c_char;

pub type c_int<STD> = <STD as Std>::c_int;

pub type c_long<STD> = <STD as Std>::c_long;

pub type c_longlong<STD> = <STD as Std>::c_longlong;

pub type c_schar<STD> = <STD as Std>::c_schar;

pub type c_short<STD> = <STD as Std>::c_short;

pub type c_uchar<STD> = <STD as Std>::c_uchar;

pub type c_uint<STD> = <STD as Std>::c_uint;

pub type c_ulong<STD> = <STD as Std>::c_ulong;

pub type c_ulonglong<STD> = <STD as Std>::c_ulonglong;

pub type c_ushort<STD> = <STD as Std>::c_ushort;

} // verus!
