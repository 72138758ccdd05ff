//! Input manager: actions, the values they read and output, and how the
//! inputs of one action are combined.
pub mod action_value;
pub mod input_action;
pub mod prelude;

use vstd::prelude::*;

verus! {

/// Label for the system that updates the input context instances.
#[derive(Clone, Copy, Debug, PartialEq, Eq, Hash, Structural)]
pub struct EnhancedInputSystem;

} // verus!
