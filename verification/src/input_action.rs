//! Actions, their output types and how several inputs of one action combine.
use vstd::prelude::*;

use crate::action_value::{ActionValue, ActionValueDim, F32Bits, Vec2Bits, Vec3Bits};

verus! {

/// Marker for a gameplay-related action, such as "Jump" or "Move".
///
/// An action knows nothing of the inputs bound to it: it names the type of
/// value it outputs and, through its constants, how its inputs are handled.
pub trait InputAction: core::fmt::Debug + Send + Sync + 'static {
    /// What type of value this action outputs: [`bool`] for button-like
    /// actions, [`F32Bits`] for single-axis ones, [`Vec2Bits`] or
    /// [`Vec3Bits`] for multi-axis ones.
    type Output: ActionOutput;

    /// Whether this action swallows the inputs bound to it, so that they do
    /// not reach other actions while its state is not `None`.
    const CONSUME_INPUT: bool = true;

    /// How the values of several inputs of this action are combined.
    const ACCUMULATION: Accumulation = Accumulation::Cumulative;

    /// Whether the inputs must be back at zero before the first activation,
    /// and stay consumed after the context is removed until they are.
    const REQUIRE_RESET: bool = false;
}

/// A type that an action can output.
pub trait ActionOutput: core::fmt::Debug + Send + Sync + Clone + Copy {
    /// The dimension of the values that stand for this type.
    const DIM: ActionValueDim;

    /// The [`ActionValue`] that stands for this output.
    spec fn to_value(self) -> ActionValue;

    /// Every output stands for a value of the type's dimension.
    proof fn lemma_to_value_dim(out: Self)
        ensures
            out.to_value().dim() == Self::DIM,
    ;

    /// No two outputs stand for the same value.
    proof fn lemma_to_value_injective(a: Self, b: Self)
        requires
            a.to_value() == b.to_value(),
        ensures
            a == b,
    ;

    /// Converts the value into the output type. The value must be of the
    /// type's dimension.
    fn as_output(value: ActionValue) -> (out: Self)
        requires
            value.dim() == Self::DIM,
        ensures
            out.to_value() == value,
    ;
}

impl ActionOutput for bool {
    const DIM: ActionValueDim = ActionValueDim::Bool;

    open spec fn to_value(self) -> ActionValue {
        ActionValue::Bool(self)
    }

    proof fn lemma_to_value_dim(out: Self) {
    }

    proof fn lemma_to_value_injective(a: Self, b: Self) {
    }

    fn as_output(value: ActionValue) -> (out: Self)
        ensures
            value == ActionValue::Bool(out),
    {
        match value {
            ActionValue::Bool(v) => v,
            _ => vstd::pervasive::unreached(),
        }
    }
}

impl ActionOutput for F32Bits {
    const DIM: ActionValueDim = ActionValueDim::Axis1D;

    open spec fn to_value(self) -> ActionValue {
        ActionValue::Axis1D(self)
    }

    proof fn lemma_to_value_dim(out: Self) {
    }

    proof fn lemma_to_value_injective(a: Self, b: Self) {
    }

    fn as_output(value: ActionValue) -> (out: Self)
        ensures
            value == ActionValue::Axis1D(out),
    {
        match value {
            ActionValue::Axis1D(v) => v,
            _ => vstd::pervasive::unreached(),
        }
    }
}

impl ActionOutput for Vec2Bits {
    const DIM: ActionValueDim = ActionValueDim::Axis2D;

    open spec fn to_value(self) -> ActionValue {
        ActionValue::Axis2D(self)
    }

    proof fn lemma_to_value_dim(out: Self) {
    }

    proof fn lemma_to_value_injective(a: Self, b: Self) {
    }

    fn as_output(value: ActionValue) -> (out: Self)
        ensures
            value == ActionValue::Axis2D(out),
    {
        match value {
            ActionValue::Axis2D(v) => v,
            _ => vstd::pervasive::unreached(),
        }
    }
}

impl ActionOutput for Vec3Bits {
    const DIM: ActionValueDim = ActionValueDim::Axis3D;

    open spec fn to_value(self) -> ActionValue {
        ActionValue::Axis3D(self)
    }

    proof fn lemma_to_value_dim(out: Self) {
    }

    proof fn lemma_to_value_injective(a: Self, b: Self) {
    }

    fn as_output(value: ActionValue) -> (out: Self)
        ensures
            value == ActionValue::Axis3D(out),
    {
        match value {
            ActionValue::Axis3D(v) => v,
            _ => vstd::pervasive::unreached(),
        }
    }
}

/// Reading a button value gives back the button state it carries.
pub proof fn law_bool_as_output(b: bool, out: bool)
    requires
        call_ensures(<bool as ActionOutput>::as_output, (ActionValue::Bool(b),), out),
    ensures
        out == b,
{
}

/// Reading a single-axis value gives back its axis bit for bit.
pub proof fn law_f32_bits_as_output(x: F32Bits, out: F32Bits)
    requires
        call_ensures(<F32Bits as ActionOutput>::as_output, (ActionValue::Axis1D(x),), out),
    ensures
        out.bits == x.bits,
{
}

/// Reading a two-axis value gives back its x as x and its y as y, bit for
/// bit.
pub proof fn law_vec2_bits_as_output(v: Vec2Bits, out: Vec2Bits)
    requires
        call_ensures(<Vec2Bits as ActionOutput>::as_output, (ActionValue::Axis2D(v),), out),
    ensures
        out.x == v.x,
        out.y == v.y,
{
}

/// Reading a three-axis value gives back its x as x, its y as y and its z as
/// z, bit for bit.
pub proof fn law_vec3_bits_as_output(v: Vec3Bits, out: Vec3Bits)
    requires
        call_ensures(<Vec3Bits as ActionOutput>::as_output, (ActionValue::Axis3D(v),), out),
    ensures
        out.x == v.x,
        out.y == v.y,
        out.z == v.z,
{
}

/// The dimension of each output type: a button is a [`bool`], one axis an
/// [`F32Bits`], two axes a [`Vec2Bits`], three axes a [`Vec3Bits`].
pub proof fn lemma_output_dims()
    ensures
        <bool as ActionOutput>::DIM == ActionValueDim::Bool,
        <F32Bits as ActionOutput>::DIM == ActionValueDim::Axis1D,
        <Vec2Bits as ActionOutput>::DIM == ActionValueDim::Axis2D,
        <Vec3Bits as ActionOutput>::DIM == ActionValueDim::Axis3D,
{
}

/// Converting an output into its value and back gives the same output:
/// [`ActionOutput::as_output`] accepts the value of every output and returns
/// that output.
pub proof fn lemma_as_output_round_trip<T: ActionOutput>(x: T, out: T)
    requires
        out.to_value() == x.to_value(),
    ensures
        out == x,
        x.to_value().dim() == T::DIM,
{
    T::lemma_to_value_dim(x);
    T::lemma_to_value_injective(out, x);
}

/// Defines how the value of an action is calculated when several of its
/// inputs are evaluated with the same most significant state (other than
/// `None`).
#[derive(Clone, Copy, Debug, PartialEq, Eq, Structural)]
pub enum Accumulation {
    /// Add the values of the inputs: given 0.5 and -0.3 the action's value
    /// is 0.2. Pressing W and S then cancels out.
    Cumulative,
    /// Take the value of the input with the highest absolute value: given
    /// 0.5 and -1.5 the action's value is -1.5.
    MaxAbs,
}

impl Default for Accumulation {
    fn default() -> (acc: Self)
        ensures
            acc == Accumulation::Cumulative,
    {
        Accumulation::Cumulative
    }
}

} // verus!
