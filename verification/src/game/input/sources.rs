//! What an action can be bound to.

use crate::game::input::system::{Key, MouseButton};
use vstd::prelude::*;

verus! {

/// An axis along which the mouse moves or scrolls.
#[derive(Clone, Copy, Debug, PartialEq, Eq, Hash, Structural)]
pub enum MouseAxis {
    MouseX,
    MouseY,
}

/// Something the mouse can do.
#[derive(Clone, Copy, Debug, PartialEq, Eq, Hash, Structural)]
pub enum MouseSource {
    Button(MouseButton),
    Move(MouseAxis),
    Scroll(MouseAxis),
}

/// A physical input that an action can be bound to.
#[derive(Clone, Copy, Debug, PartialEq, Eq, Hash, Structural)]
pub enum Source {
    Keyboard(Key),
    Mouse(MouseSource),
}

/// Whether an action is a button or an axis.
#[derive(Clone, Copy, Debug, PartialEq, Eq, Hash)]
pub enum ActionKind {
    Button,
    Axis,
}

/// What is known of an action before any input arrives.
#[derive(Clone, Copy, Debug, PartialEq, Eq, Hash)]
pub struct ActionDescriptor {
    pub kind: ActionKind,
}

/// What an action is doing in the current frame. A value is the bit pattern
/// of a single-precision number.
#[derive(Clone, Copy, Debug, PartialEq, Eq, Hash)]
pub struct ActionState {
    pub active: bool,
    pub active_state_changed_this_frame: bool,
    pub value: Option<u32>,
}

impl ActionState {
    /// The state of an action that an input has just set off.
    pub open spec fn triggered_spec(value: Option<u32>) -> ActionState {
        ActionState { active: true, active_state_changed_this_frame: false, value }
    }

    /// The state of an action that an input has just set off.
    pub fn triggered(value: Option<u32>) -> (state: ActionState)
        ensures
            state == ActionState::triggered_spec(value),
    {
        ActionState { active: true, active_state_changed_this_frame: false, value }
    }
}

} // verus!
