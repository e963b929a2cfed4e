//! Acquiring the code of a game build: the executable is started under a
//! debugger, left to load, read, and terminated. The calls into the operating
//! system are made by the driver; what is to be done next is decided here.

use vstd::prelude::*;
use crate::text::chars_of;

verus! {

/// The debug event that tells that the loader is done: the first thread of the
/// debuggee has been created.
pub const LOADER_COMPLETE: u32 = 2;

/// How long one wait for a debug event may last, in milliseconds.
pub const WAIT_TIMEOUT_MS: u32 = 1000;

/// Why no snapshot was made.
#[derive(Clone, Copy, Debug, PartialEq, Eq, Structural)]
pub enum AcquireError {
    /// The process could not be created.
    ProcessCreation,
    /// The loader was not done within the waits that were granted.
    LoaderTimeout,
    /// Waiting for a debug event failed for good.
    WaitFailed,
    /// The process has no module of the executable's name.
    ModuleNotFound,
    /// The driver reported something that it was not asked for.
    OutOfTurn,
}

/// How an acquisition ended.
#[derive(Clone, Copy, Debug, PartialEq, Eq, Structural)]
pub enum Outcome {
    /// The module was read: the driver holds the snapshot.
    Snapshot,
    /// No snapshot was made.
    Failed(AcquireError),
}

/// What the driver has to do next.
#[derive(Clone, Copy, Debug, PartialEq, Eq, Structural)]
pub enum Action {
    /// Create the process: debugged, detached, stopped before its entry point.
    Launch,
    /// Wait for the next debug event, no longer than `timeout_ms`.
    WaitForEvent { timeout_ms: u32 },
    /// Let the debuggee go on after the event just received.
    ContinueEvent,
    /// Find the main module among the modules of the process and read it.
    ReadModule,
    /// Terminate the process.
    Terminate,
    /// Nothing more: the acquisition has ended, with a snapshot or without.
    Finish { outcome: Outcome },
}

/// What the driver reports back.
#[derive(Clone, Copy, Debug, PartialEq, Eq, Structural)]
pub enum Event {
    /// The answer to `Launch`.
    Launched { created: bool },
    /// An answer to `WaitForEvent`: the event with this code arrived.
    DebugEvent { code: u32 },
    /// An answer to `WaitForEvent`: the time ran out and no event came.
    WaitTimedOut,
    /// An answer to `WaitForEvent`: the wait failed and cannot be repeated.
    WaitFailed,
    /// The answer to `ContinueEvent`.
    Continued,
    /// The answer to `ReadModule`.
    ModuleRead { found: bool },
    /// The answer to `Terminate`.
    Terminated,
}

/// How far the acquisition has come.
#[derive(Clone, Copy, Debug, PartialEq, Eq, Structural)]
pub enum State {
    /// `Launch` is under way; `polls` waits are granted.
    Launching { polls: u32 },
    /// A wait is under way; `polls` more are granted after it.
    Waiting { polls: u32 },
    /// An event is being continued; `loaded` tells whether it was the one
    /// that ends the wait.
    Continuing { loaded: bool, polls: u32 },
    /// The module is being read.
    Reading,
    /// The process is being terminated; `outcome` is what will be reported.
    Stopping { outcome: Outcome },
    /// The acquisition has ended.
    Done { outcome: Outcome },
}

impl State {
    /// Whether the launched process may still be running.
    pub open spec fn process_running(self) -> bool {
        self is Waiting || self is Continuing || self is Reading || self is Stopping
    }

    /// A bound on the number of steps that are still to come.
    pub open spec fn steps_left(self) -> nat {
        match self {
            State::Launching { polls } => 2 * polls as nat + 5,
            State::Waiting { polls } => 2 * polls as nat + 4,
            State::Continuing { loaded, polls } => 2 * polls as nat + 3,
            State::Reading => 2,
            State::Stopping { outcome } => 1,
            State::Done { outcome } => 0,
        }
    }

    /// Ends the acquisition with `error`: a process that may be running is
    /// terminated first.
    pub open spec fn abort(self, error: AcquireError) -> (State, Action) {
        if self.process_running() {
            (State::Stopping { outcome: Outcome::Failed(error) }, Action::Terminate)
        } else {
            (
                State::Done { outcome: Outcome::Failed(error) },
                Action::Finish { outcome: Outcome::Failed(error) },
            )
        }
    }

    /// Goes on waiting, if a wait is left.
    pub open spec fn wait_again(polls: u32) -> (State, Action) {
        if polls == 0 {
            (
                State::Stopping { outcome: Outcome::Failed(AcquireError::LoaderTimeout) },
                Action::Terminate,
            )
        } else {
            (
                State::Waiting { polls: (polls - 1) as u32 },
                Action::WaitForEvent { timeout_ms: WAIT_TIMEOUT_MS },
            )
        }
    }

    /// The state that follows `self` on `event`, and what is to be done then.
    pub open spec fn next(self, event: Event) -> (State, Action) {
        match (self, event) {
            (State::Launching { polls }, Event::Launched { created }) => if created {
                State::wait_again(polls)
            } else {
                self.abort(AcquireError::ProcessCreation)
            },
            (State::Waiting { polls }, Event::DebugEvent { code }) => (
                State::Continuing { loaded: code == LOADER_COMPLETE, polls },
                Action::ContinueEvent,
            ),
            (State::Waiting { polls }, Event::WaitTimedOut) => State::wait_again(polls),
            (State::Waiting { polls }, Event::WaitFailed) => self.abort(AcquireError::WaitFailed),
            (State::Continuing { loaded, polls }, Event::Continued) => if loaded {
                (State::Reading, Action::ReadModule)
            } else {
                State::wait_again(polls)
            },
            (State::Reading, Event::ModuleRead { found }) => (
                State::Stopping {
                    outcome: if found {
                        Outcome::Snapshot
                    } else {
                        Outcome::Failed(AcquireError::ModuleNotFound)
                    },
                },
                Action::Terminate,
            ),
            (State::Stopping { outcome }, Event::Terminated) => (
                State::Done { outcome },
                Action::Finish { outcome },
            ),
            (State::Stopping { outcome }, _) => (self, Action::Terminate),
            (State::Done { outcome }, _) => (self, Action::Finish { outcome }),
            _ => self.abort(AcquireError::OutOfTurn),
        }
    }

    /// Begins an acquisition that may wait `polls` times for a debug event.
    pub fn start(polls: u32) -> (begin: (State, Action))
        ensures
            begin == (State::Launching { polls }, Action::Launch),
    {
        (State::Launching { polls }, Action::Launch)
    }

    fn abort_with(self, error: AcquireError) -> (step: (State, Action))
        ensures
            step == self.abort(error),
    {
        match self {
            State::Waiting { .. } | State::Continuing { .. } | State::Reading | State::Stopping {
                ..
            } => (State::Stopping { outcome: Outcome::Failed(error) }, Action::Terminate),
            _ => (
                State::Done { outcome: Outcome::Failed(error) },
                Action::Finish { outcome: Outcome::Failed(error) },
            ),
        }
    }

    fn wait_more(polls: u32) -> (step: (State, Action))
        ensures
            step == State::wait_again(polls),
    {
        if polls == 0 {
            (
                State::Stopping { outcome: Outcome::Failed(AcquireError::LoaderTimeout) },
                Action::Terminate,
            )
        } else {
            (
                State::Waiting { polls: polls - 1 },
                Action::WaitForEvent { timeout_ms: WAIT_TIMEOUT_MS },
            )
        }
    }

    /// Takes the driver's report and decides what comes next.
    pub fn step(self, event: Event) -> (step: (State, Action))
        ensures
            step == self.next(event),
    {
        match self {
            State::Launching { polls } => match event {
                Event::Launched { created } => if created {
                    State::wait_more(polls)
                } else {
                    self.abort_with(AcquireError::ProcessCreation)
                },
                _ => self.abort_with(AcquireError::OutOfTurn),
            },
            State::Waiting { polls } => match event {
                Event::DebugEvent { code } => (
                    State::Continuing { loaded: code == LOADER_COMPLETE, polls },
                    Action::ContinueEvent,
                ),
                Event::WaitTimedOut => State::wait_more(polls),
                Event::WaitFailed => self.abort_with(AcquireError::WaitFailed),
                _ => self.abort_with(AcquireError::OutOfTurn),
            },
            State::Continuing { loaded, polls } => match event {
                Event::Continued => if loaded {
                    (State::Reading, Action::ReadModule)
                } else {
                    State::wait_more(polls)
                },
                _ => self.abort_with(AcquireError::OutOfTurn),
            },
            State::Reading => match event {
                Event::ModuleRead { found } => (
                    State::Stopping {
                        outcome: if found {
                            Outcome::Snapshot
                        } else {
                            Outcome::Failed(AcquireError::ModuleNotFound)
                        },
                    },
                    Action::Terminate,
                ),
                _ => self.abort_with(AcquireError::OutOfTurn),
            },
            State::Stopping { outcome } => match event {
                Event::Terminated => (State::Done { outcome }, Action::Finish { outcome }),
                _ => (self, Action::Terminate),
            },
            State::Done { outcome } => (self, Action::Finish { outcome }),
        }
    }
}

/// The acquisition ends exactly when it says so, and never while the process
/// may be running: a running process is terminated, and the termination
/// reported, before anything is finished.
pub proof fn lemma_no_orphan(state: State, event: Event)
    ensures
        state.next(event).1 is Finish <==> state.next(event).0 is Done,
        state.next(event).1 matches Action::Finish { outcome } ==> state.next(event).0
            == (State::Done { outcome }),
        state.process_running() && state.next(event).1 is Finish ==> state is Stopping
            && event is Terminated,
        state.process_running() && !(state.next(event).1 is Finish) ==> state.next(
            event,
        ).0.process_running(),
        !(state is Launching) && !state.process_running() ==> state.next(event).0 == state,
{
}

/// Every step brings the end nearer, whatever the driver reports, as long as
/// it reports a termination that it was asked for: an acquisition that was
/// granted `polls` waits ends within `2 * polls + 5` steps.
pub proof fn lemma_steps_bounded(state: State, event: Event)
    requires
        !(state is Done),
        state is Stopping ==> event is Terminated,
    ensures
        state.next(event).0.steps_left() < state.steps_left(),
{
}

/// A wait is never asked for longer than the timeout.
pub proof fn lemma_wait_is_bounded(state: State, event: Event)
    ensures
        state.next(event).1 matches Action::WaitForEvent { timeout_ms } ==> timeout_ms
            == WAIT_TIMEOUT_MS,
{
}

} // verus!
