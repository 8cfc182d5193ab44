//! The handoff and stop protocol, as the caller of a listener sees it.
//!
//! Starting a listener ends in a rendezvous with its thread: the thread hands
//! over the window it created, or reports that it could not set itself up.
//! A window gives a [`ListenerHandle`]; stopping through the handle signals
//! the window once, and every later stop is ignored.

use crate::codes::{close_code, wm_close};
use vstd::prelude::*;

verus! {

/// Where a listener stands in its life.
#[derive(Debug, Clone, Copy, PartialEq, Eq, Structural)]
pub enum Phase {
    /// The thread is spawned; window and subscriptions are not confirmed.
    Starting,
    /// The rendezvous is done and the message loop is active.
    Running,
    /// The termination signal is posted and the thread has not exited yet.
    Stopping,
    /// The thread has exited; window and subscriptions are gone.
    Stopped,
}

/// What can go wrong in a listener.
#[derive(Debug, Clone, Copy, PartialEq, Eq, Structural)]
pub enum BridgeError {
    /// The window class, the window or a subscription could not be set up.
    /// The start fails and no listener is left behind.
    ListenerInitFailed,
    /// The consumer no longer reads. The event is discarded and the listener
    /// keeps running.
    DeliveryDropped,
    /// A subscription could not be given back during shutdown. It is noted
    /// and shutdown goes on.
    UnregisterFailed,
}

/// What the listener thread hands to its caller once its setup is over.
#[derive(Debug, Clone, Copy, PartialEq, Eq, Structural)]
pub enum Rendezvous {
    /// Setup succeeded; this is the listener's window.
    Window(isize),
    /// Setup failed.
    Failed,
}

/// What a call of [`ListenerHandle::stop`] asks its caller to do.
#[derive(Debug, Clone, Copy, PartialEq, Eq, Structural)]
pub enum StopAction {
    /// Post `message` to `window`, then wait for the thread to exit.
    Signal { window: isize, message: u32 },
    /// The listener was stopped before: there is nothing to do.
    Ignored,
}

/// A handle as contracts see it.
pub struct HandleState {
    /// The listener's window; the termination signal goes there.
    pub window: isize,
    /// The phase the caller knows the listener to be in.
    pub phase: Phase,
}

impl HandleState {
    /// What stopping asks for: a running listener is signalled, any other
    /// is left alone.
    pub open spec fn stop_action(self) -> StopAction {
        if self.phase == Phase::Running {
            StopAction::Signal { window: self.window, message: close_code() }
        } else {
            StopAction::Ignored
        }
    }

    /// The state after stopping: a running listener is stopping, any other
    /// is unchanged.
    pub open spec fn stopped(self) -> HandleState {
        if self.phase == Phase::Running {
            HandleState { window: self.window, phase: Phase::Stopping }
        } else {
            self
        }
    }

    /// The state once the thread is known to have exited.
    pub open spec fn exited(self) -> HandleState {
        HandleState { window: self.window, phase: Phase::Stopped }
    }
}

/// What a rendezvous gives the caller: a running listener's state for a
/// window, and nothing for a failure or a null window.
pub open spec fn rendezvous_state(outcome: Rendezvous) -> Option<HandleState> {
    match outcome {
        Rendezvous::Window(window) => if window != 0 {
            Some(HandleState { window, phase: Phase::Running })
        } else {
            None
        },
        Rendezvous::Failed => None,
    }
}

/// The capability to stop one listener.
#[derive(Debug)]
pub struct ListenerHandle {
    window: isize,
    phase: Phase,
}

impl View for ListenerHandle {
    type V = HandleState;

    closed spec fn view(&self) -> HandleState {
        HandleState { window: self.window, phase: self.phase }
    }
}

impl ListenerHandle {
    /// Completes a start. A window gives the handle of a running listener;
    /// a failure, or a null window, gives `ListenerInitFailed`.
    pub fn from_rendezvous(outcome: Rendezvous) -> (started: Result<ListenerHandle, BridgeError>)
        ensures
            match started {
                Ok(handle) => rendezvous_state(outcome) == Some(handle@),
                Err(error) => rendezvous_state(outcome) is None && error
                    == BridgeError::ListenerInitFailed,
            },
    {
        match outcome {
            Rendezvous::Window(window) => {
                if window != 0 {
                    Ok(ListenerHandle { window, phase: Phase::Running })
                } else {
                    Err(BridgeError::ListenerInitFailed)
                }
            },
            Rendezvous::Failed => Err(BridgeError::ListenerInitFailed),
        }
    }

    /// The listener's window.
    pub fn window(&self) -> (window: isize)
        ensures
            window == self@.window,
    {
        self.window
    }

    /// The phase the listener is known to be in.
    pub fn phase(&self) -> (phase: Phase)
        ensures
            phase == self@.phase,
    {
        self.phase
    }

    /// Begins a stop. The first call on a running listener asks for the
    /// termination signal; any later call asks for nothing and changes
    /// nothing.
    pub fn stop(&mut self) -> (action: StopAction)
        ensures
            action == old(self)@.stop_action(),
            final(self)@ == old(self)@.stopped(),
    {
        match self.phase {
            Phase::Running => {
                self.phase = Phase::Stopping;
                StopAction::Signal { window: self.window, message: wm_close() }
            },
            _ => StopAction::Ignored,
        }
    }

    /// Records that the listener thread has exited.
    pub fn thread_exited(&mut self)
        ensures
            final(self)@ == old(self)@.exited(),
    {
        self.phase = Phase::Stopped;
    }
}

/// Stopping twice is stopping once: the second stop asks for nothing and
/// leaves the handle as the first left it.
pub proof fn lemma_stop_is_idempotent(handle: HandleState)
    ensures
        handle.stopped().stop_action() == StopAction::Ignored,
        handle.stopped().stopped() == handle.stopped(),
        handle.stopped().phase != Phase::Running,
{
}

/// Once the thread has exited, stopping asks for nothing and changes
/// nothing.
pub proof fn lemma_stop_after_exit(handle: HandleState)
    ensures
        handle.exited().stop_action() == StopAction::Ignored,
        handle.exited().stopped() == handle.exited(),
{
}

/// A start ends in exactly one of two ways: with a running listener on a
/// real window, or with no listener at all.
pub proof fn lemma_start_outcomes(outcome: Rendezvous)
    ensures
        match rendezvous_state(outcome) {
            Some(state) => state.phase == Phase::Running && state.window != 0 && outcome
                == Rendezvous::Window(state.window),
            None => outcome == Rendezvous::Failed || outcome == Rendezvous::Window(0),
        },
{
}

} // verus!
