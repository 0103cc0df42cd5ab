//! The capture lifecycle: starting capture at most once, and stopping it cooperatively.
//!
//! The controller decides; the caller acts. `start` says whether a listener is to be
//! launched, the listener reports how installing its hook went, `stop` says whether the
//! native loop is to be asked to exit, and the listener reports when the loop has exited.

use vstd::prelude::*;
use crate::held::{HeldKeysState, HeldView};

verus! {

/// Where capture stands.
#[derive(Clone, Copy, Debug, PartialEq, Eq, Structural)]
pub enum CaptureState {
    /// No listener, no hook.
    Stopped,
    /// A listener was launched and has not installed its hook yet.
    Starting,
    /// The hook is installed and the native loop runs.
    Running,
    /// The native loop was asked to exit and has not exited yet.
    Stopping,
}

/// The answer to a request to start capture.
#[derive(Clone, Copy, Debug, PartialEq, Eq, Structural)]
pub enum StartOutcome {
    /// Capture was stopped and is now starting: the caller launches the listener.
    Started,
    /// Capture was started before: nothing is to be done.
    AlreadyRunning,
    /// The operating system does not trust the process: nothing was changed.
    PermissionDenied,
}

/// What the caller of `stop` has to do.
#[derive(Clone, Copy, Debug, PartialEq, Eq, Structural)]
pub enum StopAction {
    /// Ask the native loop with this handle to exit; the listener cleans up when it has.
    RequestExit(usize),
    /// No native loop is known: the controller was reset on the spot.
    Reset,
}

/// Why capture could not begin.
#[derive(Clone, Copy, Debug, PartialEq, Eq, Structural)]
pub enum CaptureError {
    /// The operating system refused to let the process observe input.
    NoPermission,
    /// The hook could not be installed.
    HookFailed,
}

/// The mathematical value of a [`CaptureController`].
pub struct ControllerView {
    pub state: CaptureState,
    /// The handle of the native loop, known while it runs.
    pub handle: Option<usize>,
}

/// The controller with nothing started.
pub open spec fn stopped() -> ControllerView {
    ControllerView { state: CaptureState::Stopped, handle: None }
}

/// Whether the native loop is up: its handle is known exactly then.
pub open spec fn has_loop(state: CaptureState) -> bool {
    state == CaptureState::Running || state == CaptureState::Stopping
}

/// A request to start: only a stopped controller of a trusted process starts.
pub open spec fn start_step(c: ControllerView, trusted: bool) -> (ControllerView, StartOutcome) {
    if c.state != CaptureState::Stopped {
        (c, StartOutcome::AlreadyRunning)
    } else if !trusted {
        (c, StartOutcome::PermissionDenied)
    } else {
        (ControllerView { state: CaptureState::Starting, handle: None }, StartOutcome::Started)
    }
}

/// The listener installed its hook and is about to run the native loop with `handle`.
/// The flag tells the listener whether to go on: it does not when capture is no longer
/// starting, because it was stopped in the meantime.
pub open spec fn installed_step(c: ControllerView, handle: usize) -> (ControllerView, bool) {
    if c.state == CaptureState::Starting {
        (ControllerView { state: CaptureState::Running, handle: Some(handle) }, true)
    } else {
        (c, false)
    }
}

/// The listener could not install its hook: a starting controller is stopped again.
pub open spec fn failed_step(c: ControllerView) -> ControllerView {
    if c.state == CaptureState::Starting {
        stopped()
    } else {
        c
    }
}

/// A request to stop: with a native loop up it is asked to exit, else the controller is
/// reset on the spot.
pub open spec fn stop_step(c: ControllerView) -> (ControllerView, StopAction) {
    if has_loop(c.state) && c.handle is Some {
        (
            ControllerView { state: CaptureState::Stopping, handle: c.handle },
            StopAction::RequestExit(c.handle->0),
        )
    } else {
        (stopped(), StopAction::Reset)
    }
}

/// The native loop has exited: the controller is stopped and the handle forgotten.
pub open spec fn exited_step(c: ControllerView) -> ControllerView {
    stopped()
}

/// Decides when capture starts and stops, so that at most one listener exists.
pub struct CaptureController {
    state: CaptureState,
    handle: Option<usize>,
}

impl View for CaptureController {
    type V = ControllerView;

    closed spec fn view(&self) -> ControllerView {
        ControllerView { state: self.state, handle: self.handle }
    }
}

impl CaptureController {
    /// A controller with nothing started.
    pub fn new() -> (controller: CaptureController)
        ensures
            controller@ == stopped(),
    {
        CaptureController { state: CaptureState::Stopped, handle: None }
    }

    /// Where capture stands.
    pub fn state(&self) -> (state: CaptureState)
        ensures
            state == self@.state,
    {
        self.state
    }

    /// The handle of the native loop, if it is known.
    pub fn loop_handle(&self) -> (handle: Option<usize>)
        ensures
            handle == self@.handle,
    {
        self.handle
    }

    /// Asks to start capture. `trusted` is the answer of the operating system's permission
    /// check that does not prompt. The caller launches a listener exactly when the outcome
    /// is `Started`.
    pub fn start(&mut self, trusted: bool) -> (outcome: StartOutcome)
        ensures
            (final(self)@, outcome) == start_step(old(self)@, trusted),
    {
        match self.state {
            CaptureState::Stopped => {
                if trusted {
                    self.state = CaptureState::Starting;
                    self.handle = None;
                    StartOutcome::Started
                } else {
                    StartOutcome::PermissionDenied
                }
            },
            _ => StartOutcome::AlreadyRunning,
        }
    }

    /// The listener reports that its hook is installed and that its native loop has the
    /// handle `handle`. Returns whether the listener is to run the loop; if not, it removes
    /// its hook and ends.
    pub fn hook_installed(&mut self, handle: usize) -> (proceed: bool)
        ensures
            (final(self)@, proceed) == installed_step(old(self)@, handle),
    {
        match self.state {
            CaptureState::Starting => {
                self.state = CaptureState::Running;
                self.handle = Some(handle);
                true
            },
            _ => false,
        }
    }

    /// The listener reports that it could not install its hook.
    pub fn hook_failed(&mut self)
        ensures
            final(self)@ == failed_step(old(self)@),
    {
        match self.state {
            CaptureState::Starting => {
                self.state = CaptureState::Stopped;
                self.handle = None;
            },
            _ => {},
        }
    }

    /// Asks to stop capture, and says what the caller has to do for it.
    pub fn stop(&mut self) -> (action: StopAction)
        ensures
            (final(self)@, action) == stop_step(old(self)@),
    {
        let up = match self.state {
            CaptureState::Running => true,
            CaptureState::Stopping => true,
            _ => false,
        };
        match self.handle {
            Some(handle) => {
                if up {
                    self.state = CaptureState::Stopping;
                    return StopAction::RequestExit(handle);
                }
            },
            None => {},
        }
        self.state = CaptureState::Stopped;
        self.handle = None;
        StopAction::Reset
    }

    /// The listener reports that its native loop has exited and its hook is removed.
    pub fn loop_exited(&mut self)
        ensures
            final(self)@ == exited_step(old(self)@),
    {
        self.state = CaptureState::Stopped;
        self.handle = None;
    }
}

impl StartOutcome {
    /// The status reported to the host.
    pub open spec fn status_text(self) -> Result<Seq<char>, Seq<char>> {
        match self {
            StartOutcome::Started => Ok("started"@),
            StartOutcome::AlreadyRunning => Ok("already_running"@),
            StartOutcome::PermissionDenied => Err("accessibility_denied"@),
        }
    }

    /// The status reported to the host: `started`, `already_running`, or the error
    /// `accessibility_denied`.
    pub fn status(self) -> (status: Result<&'static str, &'static str>)
        ensures
            match status {
                Ok(text) => self.status_text() == Ok::<Seq<char>, Seq<char>>(text@),
                Err(text) => self.status_text() == Err::<Seq<char>, Seq<char>>(text@),
            },
    {
        match self {
            StartOutcome::Started => Ok("started"),
            StartOutcome::AlreadyRunning => Ok("already_running"),
            StartOutcome::PermissionDenied => Err("accessibility_denied"),
        }
    }
}

impl StopAction {
    /// The status reported to the host after a request to stop: `stopped`, whatever had
    /// to be done for it.
    pub fn status(self) -> (status: &'static str)
        ensures
            status@ == "stopped"@,
    {
        "stopped"
    }
}

impl CaptureError {
    /// The reason reported to the host.
    pub open spec fn reason_text(self) -> Seq<char> {
        match self {
            CaptureError::NoPermission => "no_permission"@,
            CaptureError::HookFailed => "hook_failed"@,
        }
    }

    /// The reason reported to the host: `no_permission` or `hook_failed`.
    pub fn reason(self) -> (reason: &'static str)
        ensures
            reason@ == self.reason_text(),
    {
        match self {
            CaptureError::NoPermission => "no_permission",
            CaptureError::HookFailed => "hook_failed",
        }
    }
}

/// Stops capture: asks the controller, and forgets the held keys on the spot when no
/// native loop is up to do so at its exit.
pub fn stop_capture(controller: &mut CaptureController, held: &mut HeldKeysState) -> (action:
    StopAction)
    ensures
        (final(controller)@, action) == stop_step(old(controller)@),
        action is RequestExit ==> *final(held) == *old(held),
        action is Reset ==> final(held).wf() && final(held)@ == (HeldView {
            keys: Set::<Seq<char>>::empty(),
            last_event: old(held)@.last_event,
        }),
{
    let action = controller.stop();
    match action {
        StopAction::RequestExit(_) => {},
        StopAction::Reset => {
            held.clear();
        },
    }
    action
}

/// Cleans up after the native loop has exited: the controller is stopped and no key is
/// held.
pub fn finish_capture(controller: &mut CaptureController, held: &mut HeldKeysState)
    ensures
        final(controller)@ == stopped(),
        final(held).wf(),
        final(held)@ == (HeldView {
            keys: Set::<Seq<char>>::empty(),
            last_event: old(held)@.last_event,
        }),
{
    controller.loop_exited();
    held.clear();
}

/// Starting twice without a stop in between starts once: after a start that answered
/// `Started`, and after the listener's report of its hook whatever it was, every further
/// start answers `AlreadyRunning` and changes nothing, so no second listener is launched.
pub proof fn lemma_second_start_is_refused(
    c: ControllerView,
    trusted: bool,
    again: bool,
    handle: usize,
)
    requires
        start_step(c, trusted).1 == StartOutcome::Started,
    ensures
        start_step(start_step(c, trusted).0, again) == (
            start_step(c, trusted).0,
            StartOutcome::AlreadyRunning,
        ),
        start_step(installed_step(start_step(c, trusted).0, handle).0, again) == (
            installed_step(start_step(c, trusted).0, handle).0,
            StartOutcome::AlreadyRunning,
        ),
{
}

/// A start answers `Started` only from the stopped state, and a stop followed by the
/// loop's exit leads back to it: capture can be started again after it was stopped.
pub proof fn lemma_stop_allows_restart(c: ControllerView, trusted: bool)
    ensures
        start_step(c, trusted).1 == StartOutcome::Started <==> c.state == CaptureState::Stopped
            && trusted,
        start_step(exited_step(stop_step(c).0), true).1 == StartOutcome::Started,
{
}

} // verus!
