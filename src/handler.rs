//! The application handler: it holds the window, asks for it to be created on
//! activation, and decides on each event whether the loop ends.

use vstd::prelude::*;
use crate::control::{ControlState, LoopControl};
use crate::event::{CustomEvent, ElementState, KeyCode, PhysicalKey, WindowEvent};

verus! {

/// The title of the application's window.
pub const WINDOW_TITLE: &'static str = "wgpu window";

/// The logical width of the window, in device-independent units.
pub const WINDOW_WIDTH: u32 = 1280;

/// The logical height of the window, in device-independent units.
pub const WINDOW_HEIGHT: u32 = 720;

/// The one-shot configuration of a window that is about to be created.
#[derive(Clone, Debug)]
pub struct WindowDescriptor {
    pub title: String,
    pub width: u32,
    pub height: u32,
}

impl WindowDescriptor {
    /// The descriptor of the application's window.
    pub open spec fn is_main(&self) -> bool {
        &&& self.title@ == WINDOW_TITLE@
        &&& self.width == WINDOW_WIDTH
        &&& self.height == WINDOW_HEIGHT
    }

    /// The descriptor of the application's window: a fixed, non-empty title
    /// and a fixed logical size.
    pub fn main_window() -> (r: WindowDescriptor)
        ensures
            r.is_main(),
            r.title@.len() > 0,
    {
        proof {
            reveal_strlit("wgpu window");
        }
        WindowDescriptor { title: WINDOW_TITLE.to_owned(), width: WINDOW_WIDTH, height: WINDOW_HEIGHT }
    }
}

/// What the window slot holds once an activation has completed and, if the
/// slot was empty, `created` was the window made for it.
pub open spec fn slot_after_activation<W>(slot: Option<W>, created: W) -> Option<W> {
    if slot is None {
        Some(created)
    } else {
        slot
    }
}

/// What a window event does to the loop's state.
pub open spec fn after_window_event(s: ControlState, event: WindowEvent) -> ControlState {
    if event.spec_requests_exit() {
        s.after_exit_request()
    } else {
        s
    }
}

/// The application state: at most one window, absent until the first
/// activation and never replaced once present.
pub struct App<W> {
    window: Option<W>,
}

impl<W> App<W> {
    /// The window slot.
    pub closed spec fn slot(&self) -> Option<W> {
        self.window
    }

    /// The state at process start: no window yet.
    pub fn new() -> (r: App<W>)
        ensures
            r.slot() is None,
    {
        App { window: None }
    }

    pub fn has_window(&self) -> (r: bool)
        ensures
            r == self.slot() is Some,
    {
        self.window.is_some()
    }

    /// The window, once it has been created.
    pub fn window(&self) -> (r: Option<&W>)
        ensures
            r is Some <==> self.slot() is Some,
            r is Some ==> *r->0 == self.slot()->0,
    {
        self.window.as_ref()
    }

    /// The platform has activated the process. Returns the descriptor of the
    /// window to create when there is none yet; when one exists it is reused
    /// and nothing is to be created.
    pub fn on_activated(&self) -> (r: Option<WindowDescriptor>)
        ensures
            r is Some <==> self.slot() is None,
            r matches Some(d) ==> d.is_main(),
    {
        if self.window.is_some() {
            None
        } else {
            Some(WindowDescriptor::main_window())
        }
    }

    /// Takes the outcome of creating the window that `on_activated` asked
    /// for. A created window fills an empty slot; a window that is already
    /// there is kept, never replaced. A failure is fatal: the loop is asked to
    /// end and the error is handed back for a diagnostic.
    pub fn on_window_created<E>(&mut self, control: &mut LoopControl, created: Result<W, E>) -> (r:
        Result<(), E>)
        requires
            old(control)@.phase is Activated,
        ensures
            match created {
                Ok(w) => {
                    &&& r is Ok
                    &&& final(self).slot() == slot_after_activation(old(self).slot(), w)
                    &&& final(control)@ == old(control)@
                },
                Err(e) => {
                    &&& r == Err::<(), E>(e)
                    &&& final(self).slot() == old(self).slot()
                    &&& final(control)@ == old(control)@.after_exit_request()
                },
            },
    {
        match created {
            Ok(w) => {
                if self.window.is_none() {
                    self.window = Some(w);
                }
                Ok(())
            },
            Err(e) => {
                control.request_exit();
                Err(e)
            },
        }
    }

    /// A window-level event. Closing the window or pressing Escape asks the
    /// loop to end; every other event is ignored. The window slot is left as
    /// it is.
    pub fn on_window_event(&mut self, control: &mut LoopControl, _window_id: u64, event: WindowEvent)
        ensures
            final(self).slot() == old(self).slot(),
            final(control)@ == after_window_event(old(control)@, event),
    {
        if event.requests_exit() {
            control.request_exit();
        }
    }

    /// An event the application injected. Its receipt is acknowledged and
    /// nothing changes.
    pub fn on_custom_event(&mut self, _control: &mut LoopControl, event: CustomEvent)
        ensures
            final(self).slot() == old(self).slot(),
            final(_control)@ == old(_control)@,
    {
        match event {
            CustomEvent::Timer => {},
        }
    }
}

/// The first activation fills the empty slot with the window created for it;
/// a second one asks for nothing, and the slot keeps the same window.
pub proof fn lemma_activation_creates_one_window<W>(first: W, second: W)
    ensures
        slot_after_activation(None, first) == Some(first),
        slot_after_activation(slot_after_activation(None, first), second) == Some(first),
{
}

/// Closing the window ends the loop within the dispatch cycle that handles
/// it: that cycle stops the loop, unless the loop had already ended.
pub proof fn lemma_close_request_ends_loop(s: ControlState)
    ensures
        after_window_event(s, WindowEvent::CloseRequested).stops_now() || s.phase.ended(),
        after_window_event(s, WindowEvent::CloseRequested).after_dispatch().phase.ended(),
{
}

/// Pressing Escape ends the loop within the cycle; releasing it changes
/// nothing, so a loop that was running goes on running.
pub proof fn lemma_escape_press_ends_loop(s: ControlState)
    ensures
        after_window_event(s, escape(ElementState::Pressed)).stops_now() || s.phase.ended(),
        after_window_event(s, escape(ElementState::Pressed)).after_dispatch().phase.ended(),
        after_window_event(s, escape(ElementState::Released)) == s,
        !s.exit_requested && !s.phase.ended() ==> !after_window_event(
            s,
            escape(ElementState::Released),
        ).after_dispatch().phase.ended(),
{
}

/// An event outside the handled set leaves the loop's state as it was (and
/// `on_window_event` never touches the window slot).
pub proof fn lemma_unhandled_event_changes_nothing(s: ControlState, event: WindowEvent)
    requires
        !(event is CloseRequested),
        !(event is KeyboardInput),
    ensures
        after_window_event(s, event) == s,
{
}

/// The Escape key in the given state.
pub open spec fn escape(state: ElementState) -> WindowEvent {
    WindowEvent::KeyboardInput { physical_key: PhysicalKey::Code(KeyCode::Escape), state }
}

} // verus!
