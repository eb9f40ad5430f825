//! Bounds shared by the register-access code.
use vstd::prelude::*;

verus! {

/// A machine integer: a fixed-width bit pattern that a register can hold.
pub trait Int: Sized {}

impl Int for u8 {}
impl Int for u16 {}
impl Int for u32 {}
impl Int for u64 {}
impl Int for u128 {}
impl Int for usize {}
impl Int for i8 {}
impl Int for i16 {}
impl Int for i32 {}
impl Int for i64 {}
impl Int for i128 {}
impl Int for isize {}

} // verus!
