# bevy_enhanced_input (verified core)

- `src/action_value.rs`: `ActionValue` and `ActionValueDim`; axes are carried
  as the bit patterns of their `f32`s (`F32Bits`, `Vec2Bits`, `Vec3Bits`).
- `src/input_action.rs`: the `InputAction` and `ActionOutput` traits, the
  `as_output` conversions with their contracts and laws, and `Accumulation`.
- `src/lib.rs`, `src/prelude.rs`: the `EnhancedInputSystem` label and re-exports.
- `app/lib.rs`: the Bevy plugin, the `SystemSet` label, float views of action
  values, and the `InputModifier` / `IntoModifiers` traits.
