use bevy_enhanced_input::action_value::{ActionValue, ActionValueDim, F32Bits, Vec2Bits, Vec3Bits};
use bevy_enhanced_input::input_action::{Accumulation, ActionOutput, InputAction};
use bevy_enhanced_input::EnhancedInputSystem;

#[derive(Debug)]
struct Jump;

impl InputAction for Jump {
    type Output = bool;
}

#[derive(Debug)]
struct Move;

impl InputAction for Move {
    type Output = Vec2Bits;
    const CONSUME_INPUT: bool = false;
    const ACCUMULATION: Accumulation = Accumulation::MaxAbs;
    const REQUIRE_RESET: bool = true;
}

#[test]
fn accumulation_default_is_cumulative() {
    assert_eq!(Accumulation::default(), Accumulation::Cumulative);
    assert_ne!(Accumulation::default(), Accumulation::MaxAbs);
}

#[test]
fn input_action_defaults() {
    assert!(Jump::CONSUME_INPUT);
    assert_eq!(Jump::ACCUMULATION, Accumulation::Cumulative);
    assert!(!Jump::REQUIRE_RESET);
    assert_eq!(<<Jump as InputAction>::Output as ActionOutput>::DIM, ActionValueDim::Bool);
}

#[test]
fn input_action_overrides() {
    assert!(!Move::CONSUME_INPUT);
    assert_eq!(Move::ACCUMULATION, Accumulation::MaxAbs);
    assert!(Move::REQUIRE_RESET);
    assert_eq!(<<Move as InputAction>::Output as ActionOutput>::DIM, ActionValueDim::Axis2D);
}

#[test]
fn output_dims() {
    assert_eq!(<bool as ActionOutput>::DIM, ActionValueDim::Bool);
    assert_eq!(<F32Bits as ActionOutput>::DIM, ActionValueDim::Axis1D);
    assert_eq!(<Vec2Bits as ActionOutput>::DIM, ActionValueDim::Axis2D);
    assert_eq!(<Vec3Bits as ActionOutput>::DIM, ActionValueDim::Axis3D);
}

#[test]
fn bool_as_output_returns_the_button_state() {
    assert!(<bool as ActionOutput>::as_output(ActionValue::Bool(true)));
    assert!(!<bool as ActionOutput>::as_output(ActionValue::Bool(false)));
}

#[test]
fn f32_bits_as_output_returns_the_axis() {
    let out = F32Bits::as_output(ActionValue::Axis1D(F32Bits { bits: 0.5f32.to_bits() }));
    assert_eq!(out, F32Bits { bits: 0.5f32.to_bits() });
    assert_eq!(f32::from_bits(out.bits), 0.5f32);
    let neg = F32Bits::as_output(ActionValue::Axis1D(F32Bits { bits: (-1.5f32).to_bits() }));
    assert_eq!(f32::from_bits(neg.bits), -1.5f32);
}

#[test]
fn vec2_bits_as_output_returns_both_axes() {
    let v = Vec2Bits { x: 1.0f32.to_bits(), y: (-0.25f32).to_bits() };
    let out = Vec2Bits::as_output(ActionValue::Axis2D(v));
    assert_eq!(out, v);
    assert_eq!(f32::from_bits(out.x), 1.0f32);
    assert_eq!(f32::from_bits(out.y), -0.25f32);
}

#[test]
fn vec3_bits_as_output_returns_all_axes() {
    let v = Vec3Bits { x: 1, y: 2, z: 3 };
    let out = Vec3Bits::as_output(ActionValue::Axis3D(v));
    assert_eq!(out, Vec3Bits { x: 1, y: 2, z: 3 });
    assert_ne!(out, Vec3Bits { x: 3, y: 2, z: 1 });
}

#[test]
fn as_output_round_trip() {
    for b in [false, true] {
        assert_eq!(<bool as ActionOutput>::as_output(ActionValue::Bool(b)), b);
    }
    for bits in [0u32, 1, 0x3f80_0000, u32::MAX] {
        let x = F32Bits { bits };
        assert_eq!(F32Bits::as_output(ActionValue::Axis1D(x)), x);
    }
    let v = Vec3Bits { x: 0x4000_0000, y: 0, z: 0x8000_0000 };
    assert_eq!(Vec3Bits::as_output(ActionValue::Axis3D(v)), v);
}

#[test]
fn system_set_label_equals_itself() {
    assert_eq!(EnhancedInputSystem, EnhancedInputSystem);
}
