//! The items that users of the library need most often.
pub use crate::action_value::{ActionValue, ActionValueDim, F32Bits, Vec2Bits, Vec3Bits};
pub use crate::input_action::{Accumulation, ActionOutput, InputAction};
pub use crate::EnhancedInputSystem;
