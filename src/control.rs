//! The state of the event loop as the handler's callbacks see it: the
//! lifecycle phase, whether an exit was requested, and the dispatch cadence.

use vstd::prelude::*;

verus! {

/// How the loop waits between dispatches.
#[derive(Clone, Copy, Debug, PartialEq, Eq, Structural)]
pub enum DispatchMode {
    /// Dispatch again at once, for animated content.
    Poll,
    /// Sleep until the next event arrives.
    Wait,
}

/// The lifecycle of the loop: `Uninitialized -> Activated -> Running ->
/// Exiting -> Terminated`, with `Running -> Activated` on a resume.
#[derive(Clone, Copy, Debug, PartialEq, Eq, Structural)]
pub enum Phase {
    Uninitialized,
    Activated,
    Running,
    Exiting,
    Terminated,
}

impl Phase {
    /// The loop has stopped dispatching, or is about to.
    pub open spec fn ended(self) -> bool {
        self is Exiting || self is Terminated
    }
}

/// What a `LoopControl` holds.
pub struct ControlState {
    pub phase: Phase,
    pub exit_requested: bool,
    pub mode: DispatchMode,
}

/// One operation on the loop's state, for reasoning about whole runs.
pub enum ControlOp {
    Activate,
    RequestExit,
    SetMode(DispatchMode),
    FinishDispatch,
    Terminate,
}

impl ControlState {
    pub open spec fn initial(mode: DispatchMode) -> ControlState {
        ControlState { phase: Phase::Uninitialized, exit_requested: false, mode }
    }

    pub open spec fn after_exit_request(self) -> ControlState {
        ControlState { exit_requested: true, ..self }
    }

    pub open spec fn with_mode(self, mode: DispatchMode) -> ControlState {
        ControlState { mode, ..self }
    }

    /// The platform grants the process its window: first launch or resume.
    /// Once the loop has ended, nothing is activated any more.
    pub open spec fn after_activation(self) -> ControlState {
        if self.phase is Uninitialized || self.phase is Running {
            ControlState { phase: Phase::Activated, ..self }
        } else {
            self
        }
    }

    /// Whether the dispatch cycle that ends now is the last one.
    pub open spec fn stops_now(self) -> bool {
        self.exit_requested && !self.phase.ended()
    }

    /// The end of a dispatch cycle: a requested exit takes effect, and an
    /// activation that has completed turns into running.
    pub open spec fn after_dispatch(self) -> ControlState {
        if self.stops_now() {
            ControlState { phase: Phase::Exiting, ..self }
        } else if self.phase is Activated {
            ControlState { phase: Phase::Running, ..self }
        } else {
            self
        }
    }

    /// The loop has handed control back.
    pub open spec fn after_termination(self) -> ControlState {
        ControlState { phase: Phase::Terminated, ..self }
    }

    pub open spec fn apply(self, op: ControlOp) -> ControlState {
        match op {
            ControlOp::Activate => self.after_activation(),
            ControlOp::RequestExit => self.after_exit_request(),
            ControlOp::SetMode(m) => self.with_mode(m),
            ControlOp::FinishDispatch => self.after_dispatch(),
            ControlOp::Terminate => self.after_termination(),
        }
    }

    /// Whether `op` is the end of a cycle that tells the platform to stop.
    pub open spec fn signals_stop(self, op: ControlOp) -> bool {
        op is FinishDispatch && self.stops_now()
    }
}

/// How many times a run of `ops` from `s` tells the platform to stop.
pub open spec fn stop_signals(s: ControlState, ops: Seq<ControlOp>) -> nat
    decreases ops.len(),
{
    if ops.len() == 0 {
        0
    } else {
        (if s.signals_stop(ops[0]) { 1nat } else { 0nat }) + stop_signals(
            s.apply(ops[0]),
            ops.drop_first(),
        )
    }
}

/// The capability that each callback borrows: it records exit requests and the
/// dispatch mode, and follows the lifecycle of the loop.
pub struct LoopControl {
    phase: Phase,
    exit_requested: bool,
    mode: DispatchMode,
}

impl View for LoopControl {
    type V = ControlState;

    closed spec fn view(&self) -> ControlState {
        ControlState { phase: self.phase, exit_requested: self.exit_requested, mode: self.mode }
    }
}

impl LoopControl {
    /// A loop that has not been activated yet.
    pub fn new(mode: DispatchMode) -> (r: LoopControl)
        ensures
            r@ == ControlState::initial(mode),
    {
        LoopControl { phase: Phase::Uninitialized, exit_requested: false, mode }
    }

    pub fn phase(&self) -> (r: Phase)
        ensures
            r == self@.phase,
    {
        self.phase
    }

    pub fn dispatch_mode(&self) -> (r: DispatchMode)
        ensures
            r == self@.mode,
    {
        self.mode
    }

    pub fn exit_requested(&self) -> (r: bool)
        ensures
            r == self@.exit_requested,
    {
        self.exit_requested
    }

    /// Whether the loop has stopped dispatching, or is about to.
    pub fn has_ended(&self) -> (r: bool)
        ensures
            r == self@.phase.ended(),
    {
        match self.phase {
            Phase::Exiting | Phase::Terminated => true,
            _ => false,
        }
    }

    /// Selects the cadence from the next iteration on.
    pub fn set_dispatch_mode(&mut self, mode: DispatchMode)
        ensures
            final(self)@ == old(self)@.with_mode(mode),
    {
        self.mode = mode;
    }

    /// Asks the loop to end once the current event is handled. Asking again
    /// changes nothing.
    pub fn request_exit(&mut self)
        ensures
            final(self)@ == old(self)@.after_exit_request(),
    {
        self.exit_requested = true;
    }

    /// The platform has granted the process its window.
    pub fn activate(&mut self)
        ensures
            final(self)@ == old(self)@.after_activation(),
    {
        match self.phase {
            Phase::Uninitialized | Phase::Running => {
                self.phase = Phase::Activated;
            },
            _ => {},
        }
    }

    /// Closes a dispatch cycle. Returns whether the loop must stop now; this
    /// is `true` at most once over the life of the loop.
    pub fn finish_dispatch(&mut self) -> (stop: bool)
        ensures
            stop == old(self)@.stops_now(),
            final(self)@ == old(self)@.after_dispatch(),
    {
        let ended = self.has_ended();
        if self.exit_requested && !ended {
            self.phase = Phase::Exiting;
            true
        } else {
            if let Phase::Activated = self.phase {
                self.phase = Phase::Running;
            }
            false
        }
    }

    /// The loop has returned control to its caller.
    pub fn terminate(&mut self)
        ensures
            final(self)@ == old(self)@.after_termination(),
    {
        self.phase = Phase::Terminated;
    }
}

/// Requesting an exit twice has the effect of requesting it once.
pub proof fn lemma_request_exit_idempotent(s: ControlState)
    ensures
        s.after_exit_request().after_exit_request() == s.after_exit_request(),
{
}

/// No operation brings an ended loop back.
pub proof fn lemma_ended_stays_ended(s: ControlState, op: ControlOp)
    requires
        s.phase.ended(),
    ensures
        s.apply(op).phase.ended(),
        !s.signals_stop(op),
{
}

/// Over any run of operations, whatever the events that drove them, the
/// platform is told to stop at most once, and never once the loop has ended.
pub proof fn lemma_stop_signalled_at_most_once(s: ControlState, ops: Seq<ControlOp>)
    ensures
        stop_signals(s, ops) <= 1,
        s.phase.ended() ==> stop_signals(s, ops) == 0,
    decreases ops.len(),
{
    if ops.len() > 0 {
        let next = s.apply(ops[0]);
        lemma_stop_signalled_at_most_once(next, ops.drop_first());
        if s.signals_stop(ops[0]) {
            assert(next.phase.ended());
        }
        if s.phase.ended() {
            lemma_ended_stays_ended(s, ops[0]);
        }
    }
}

} // verus!
