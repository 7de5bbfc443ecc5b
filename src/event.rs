//! The events that reach the application handler.

use vstd::prelude::*;

verus! {

/// Whether a key went down or came up.
#[derive(Clone, Copy, Debug, PartialEq, Eq, Structural)]
pub enum ElementState {
    Pressed,
    Released,
}

/// The physical keys the shell tells apart; every other key is `Other`.
#[derive(Clone, Copy, Debug, PartialEq, Eq, Structural)]
pub enum KeyCode {
    Escape,
    KeyA,
    Other,
}

/// A key by its position on the keyboard, or one the platform could not name.
#[derive(Clone, Copy, Debug, PartialEq, Eq, Structural)]
pub enum PhysicalKey {
    Code(KeyCode),
    Unidentified,
}

/// The window-level events. `Other` stands for every platform event that has
/// no variant of its own, so that new platform events are ignored rather than
/// rejected.
#[derive(Clone, Copy, Debug, PartialEq, Eq, Structural)]
pub enum WindowEvent {
    CloseRequested,
    KeyboardInput { physical_key: PhysicalKey, state: ElementState },
    Resized { width: u32, height: u32 },
    RedrawRequested,
    Other,
}

/// Events that the application itself injects into the dispatch stream.
#[derive(Clone, Copy, Debug, PartialEq, Eq, Structural)]
pub enum CustomEvent {
    Timer,
}

impl WindowEvent {
    /// The Escape key, pressed.
    pub open spec fn is_escape_press(self) -> bool {
        self matches WindowEvent::KeyboardInput { physical_key, state }
            && physical_key == PhysicalKey::Code(KeyCode::Escape)
            && state == ElementState::Pressed
    }

    /// The events on which the handler asks the loop to end.
    pub open spec fn spec_requests_exit(self) -> bool {
        self is CloseRequested || self.is_escape_press()
    }

    /// Whether the handler asks the loop to end on this event.
    pub fn requests_exit(&self) -> (r: bool)
        ensures
            r == self.spec_requests_exit(),
    {
        match self {
            WindowEvent::CloseRequested => true,
            WindowEvent::KeyboardInput { physical_key, state } => {
                match (physical_key, state) {
                    (PhysicalKey::Code(KeyCode::Escape), ElementState::Pressed) => true,
                    _ => false,
                }
            },
            _ => false,
        }
    }
}

} // verus!
