//! Scene components and resources that the renderer reads.

use crate::game::input::system::{Key, MouseButton, SystemEvent, SystemEventKind, SystemEventState};
use vstd::prelude::*;

verus! {

/// Marks an entity as drawn with the mesh of this handle.
#[derive(Clone, Copy, Debug, PartialEq, Eq)]
pub struct Renderable {
    pub mesh_id: usize,
}

/// Whether a resize of the window is waiting to be handled.
#[derive(Clone, Copy, Debug, PartialEq, Eq)]
pub struct ResizeEvents(pub bool);

/// Whether the cursor is captured by the window, once that is known.
#[derive(Clone, Copy, Debug, PartialEq, Eq)]
pub struct CursorCaptured(pub Option<bool>);

impl Default for ResizeEvents {
    fn default() -> (events: ResizeEvents)
        ensures
            events.0 == false,
    {
        ResizeEvents(false)
    }
}

impl Default for CursorCaptured {
    fn default() -> (captured: CursorCaptured)
        ensures
            captured.0 is None,
    {
        CursorCaptured(None)
    }
}

impl CursorCaptured {
    /// Whether the cursor is captured after an event: letting go of the left
    /// mouse button captures it, letting go of the right one or pressing
    /// escape releases it, and every other event leaves it as it is.
    pub open spec fn after_spec(self, event: SystemEvent) -> CursorCaptured {
        match event.kind {
            SystemEventKind::MouseButton => {
                if event.state == Some(SystemEventState::Released) {
                    match event.mouse_button {
                        Some(MouseButton::Left) => CursorCaptured(Some(true)),
                        Some(MouseButton::Right) => CursorCaptured(Some(false)),
                        None => self,
                    }
                } else {
                    self
                }
            },
            SystemEventKind::Key => {
                if event.key == Some(Key::Escape) {
                    CursorCaptured(Some(false))
                } else {
                    self
                }
            },
            _ => self,
        }
    }

    /// Whether the cursor is captured after an event.
    pub fn after(self, event: &SystemEvent) -> (captured: CursorCaptured)
        ensures
            captured == self.after_spec(*event),
    {
        match event.kind {
            SystemEventKind::MouseButton => {
                match (event.state, event.mouse_button) {
                    (Some(SystemEventState::Released), Some(MouseButton::Left)) => CursorCaptured(
                        Some(true),
                    ),
                    (Some(SystemEventState::Released), Some(MouseButton::Right)) => CursorCaptured(
                        Some(false),
                    ),
                    _ => self,
                }
            },
            SystemEventKind::Key => {
                match event.key {
                    Some(Key::Escape) => CursorCaptured(Some(false)),
                    _ => self,
                }
            },
            _ => self,
        }
    }
}

} // verus!
