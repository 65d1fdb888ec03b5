//! The vocabulary of input: what the system reports and what a binding can
//! listen to.

pub mod map;
pub mod sources;
pub mod system;
pub mod table;

pub use map::ActionMap;
pub use sources::{ActionDescriptor, ActionKind, ActionState, MouseAxis, MouseSource, Source};
pub use system::{
    InputError, InputSnapshot, InputSystem, Key, MouseButton, SystemEvent, SystemEventKind,
    SystemEventState,
};
