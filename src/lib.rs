//! Lifecycle shell of a windowed application: the state of its event loop,
//! the events the platform dispatches, and the handler that decides when the
//! window is created and when the loop ends.

pub mod control;
pub mod event;
pub mod handler;

pub use control::{ControlOp, ControlState, DispatchMode, LoopControl, Phase};
pub use event::{CustomEvent, ElementState, KeyCode, PhysicalKey, WindowEvent};
pub use handler::{App, WindowDescriptor, WINDOW_HEIGHT, WINDOW_TITLE, WINDOW_WIDTH};
