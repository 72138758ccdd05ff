//! Values that actions read from their inputs.
//!
//! An axis is an IEEE-754 single-precision number. The library never computes
//! with such numbers: it carries each one as the 32-bit pattern that encodes
//! it (`f32::to_bits` / `f32::from_bits` are the conversions), so that a value
//! read from an input is handed on bit for bit.
use vstd::prelude::*;

verus! {

/// One axis, held as the bit pattern of its `f32`.
#[derive(Clone, Copy, Debug, PartialEq, Eq, Structural)]
pub struct F32Bits {
    pub bits: u32,
}

/// Two axes (x, y), each held as the bit pattern of its `f32`.
#[derive(Clone, Copy, Debug, PartialEq, Eq, Structural)]
pub struct Vec2Bits {
    pub x: u32,
    pub y: u32,
}

/// Three axes (x, y, z), each held as the bit pattern of its `f32`.
#[derive(Clone, Copy, Debug, PartialEq, Eq, Structural)]
pub struct Vec3Bits {
    pub x: u32,
    pub y: u32,
    pub z: u32,
}

/// The dimension of an [`ActionValue`]: which of its four forms it takes.
#[derive(Clone, Copy, Debug, PartialEq, Eq, Structural)]
pub enum ActionValueDim {
    Bool,
    Axis1D,
    Axis2D,
    Axis3D,
}

/// A value read from an input or produced by an action: a button state or
/// one, two or three axes.
#[derive(Clone, Copy, Debug, PartialEq, Eq, Structural)]
pub enum ActionValue {
    Bool(bool),
    Axis1D(F32Bits),
    Axis2D(Vec2Bits),
    Axis3D(Vec3Bits),
}

impl ActionValue {
    /// The dimension of this value.
    pub open spec fn dim(self) -> ActionValueDim {
        match self {
            ActionValue::Bool(_) => ActionValueDim::Bool,
            ActionValue::Axis1D(_) => ActionValueDim::Axis1D,
            ActionValue::Axis2D(_) => ActionValueDim::Axis2D,
            ActionValue::Axis3D(_) => ActionValueDim::Axis3D,
        }
    }
}

} // verus!
