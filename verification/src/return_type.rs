//! The return-type tag: the closed enumeration naming which scalar or text
//! type a registered function hands back to the host. Each tag stands for a
//! fixed integer code of the host ABI, carried across the boundary when the
//! function is registered.

use vstd::prelude::*;

verus! {

/// The type a registered function returns to the host.
#[derive(Clone, Copy, Debug, PartialEq, Eq, Structural)]
#[allow(non_camel_case_types)]
pub enum ReturnType {
    NONE,
    U8,
    U16,
    U32,
    I16,
    I32,
    I64,
    F32,
    F64,
    TBSTR,
}

impl ReturnType {
    /// The ABI code of each tag, fixed by the host.
    pub open spec fn spec_code(self) -> i32 {
        match self {
            ReturnType::NONE => 0,
            ReturnType::U8 => 1,
            ReturnType::I16 => 2,
            ReturnType::U16 => 3,
            ReturnType::U32 => 4,
            ReturnType::I32 => 5,
            ReturnType::I64 => 6,
            ReturnType::F32 => 7,
            ReturnType::F64 => 8,
            ReturnType::TBSTR => 30,
        }
    }

    /// The ABI code passed to the host when a function is registered.
    pub fn code(self) -> (r: i32)
        ensures
            r == self.spec_code(),
    {
        match self {
            ReturnType::NONE => 0,
            ReturnType::U8 => 1,
            ReturnType::I16 => 2,
            ReturnType::U16 => 3,
            ReturnType::U32 => 4,
            ReturnType::I32 => 5,
            ReturnType::I64 => 6,
            ReturnType::F32 => 7,
            ReturnType::F64 => 8,
            ReturnType::TBSTR => 30,
        }
    }
}

} // verus!
