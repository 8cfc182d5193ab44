//! The listener thread's script.
//!
//! A listener thread owns one hidden window and the subscriptions registered
//! against it. Everything it does to the operating system is blocking work
//! that only that thread may do, so the thread itself is a plain loop: it
//! performs the [`Command`] it is given and reports the [`Outcome`]. What
//! comes next is decided here, by [`ListenerContext::advance`].
//!
//! The script sets up the window class, the window and one subscription per
//! category of interest, hands the window to the caller, and then retrieves
//! and dispatches messages until the loop is told to end. It then gives back
//! every subscription, destroys the window and exits. A setup step that
//! fails leads through the same cleanup to a failed handoff.

use crate::codes::{
    close_code, console_display_state_id, guid_console_display_state,
    guid_power_scheme_personality, power_scheme_personality_id, wm_close,
};
use crate::lifecycle::{BridgeError, HandleState, Phase, Rendezvous, StopAction};
use vstd::prelude::*;

verus! {

/// A category of notification that a listener can subscribe to.
#[derive(Debug, Clone, Copy, PartialEq, Eq, Structural)]
pub enum Category {
    /// Changes of the active power scheme's personality.
    PowerSchemePersonality,
    /// Changes of the display state.
    ConsoleDisplayState,
}

impl Category {
    /// The identifier of the category's power setting.
    pub open spec fn id(self) -> u128 {
        match self {
            Category::PowerSchemePersonality => power_scheme_personality_id(),
            Category::ConsoleDisplayState => console_display_state_id(),
        }
    }

    /// The identifier of the category's power setting.
    pub fn setting_id(&self) -> (id: u128)
        ensures
            id == self.id(),
    {
        match self {
            Category::PowerSchemePersonality => guid_power_scheme_personality(),
            Category::ConsoleDisplayState => guid_console_display_state(),
        }
    }
}

/// Both categories, the power scheme first.
pub fn all_categories() -> (interest: Vec<Category>)
    ensures
        interest@ == seq![Category::PowerSchemePersonality, Category::ConsoleDisplayState],
{
    let mut interest: Vec<Category> = Vec::new();
    interest.push(Category::PowerSchemePersonality);
    interest.push(Category::ConsoleDisplayState);
    interest
}

/// The steps of the script.
#[derive(Debug, Clone, Copy, PartialEq, Eq, Structural)]
pub enum Stage {
    /// The window class is being registered.
    RegisteringClass,
    /// The window is being created.
    CreatingWindow,
    /// The window exists; the subscriptions are being registered, and then
    /// the window is handed to the caller.
    Preparing,
    /// The next message is awaited.
    Running,
    /// A retrieved message is being dispatched.
    Dispatching,
    /// The subscriptions are being given back, and then the window is
    /// destroyed.
    Closing,
    /// The failure of the setup is being handed to the caller.
    Aborting,
    /// The thread is done.
    Exited,
}

/// The work that the thread is to do next.
#[derive(Debug, Clone, Copy, PartialEq, Eq, Structural)]
pub enum Command {
    /// Register the window class.
    RegisterClass,
    /// Create the hidden window.
    CreateWindow,
    /// Subscribe `window` to the power setting `setting`.
    Subscribe { window: isize, setting: u128 },
    /// Hand this value to the caller over the rendezvous.
    HandOff(Rendezvous),
    /// Block until the next message is retrieved.
    NextMessage,
    /// Dispatch the message just retrieved to the window procedure.
    Dispatch,
    /// Give back the subscription `token`.
    Unsubscribe { token: isize },
    /// Destroy `window`.
    DestroyWindow { window: isize },
    /// Return from the thread.
    Exit,
}

/// What came of the command performed last.
#[derive(Debug, Clone, Copy, PartialEq, Eq, Structural)]
pub enum Outcome {
    /// The class registration returned `atom`; 0 means failure.
    ClassRegistered { atom: u16 },
    /// The window creation returned `window`; 0 means failure.
    WindowCreated { window: isize },
    /// The subscription returned `token`; 0 means failure.
    Subscribed { token: isize },
    /// The rendezvous value is handed over.
    HandedOff,
    /// A message retrieval returned. `more` is false when the loop was told
    /// to quit; otherwise `message` was retrieved for `window`.
    Retrieved { more: bool, window: isize, message: u32 },
    /// The message is dispatched.
    Dispatched,
    /// The subscription is given back, or (`ok` false) could not be.
    Unsubscribed { ok: bool },
    /// The window is destroyed.
    WindowDestroyed,
}

/// What [`ListenerContext::advance`] returns: the next command, and the
/// error to note for the outcome just reported, if it was one.
#[derive(Debug, Clone, Copy, PartialEq, Eq, Structural)]
pub struct Step {
    pub command: Command,
    pub report: Option<BridgeError>,
}

/// A listener thread's context as contracts see it.
#[verifier::ext_equal]
pub struct ContextState {
    /// The step the script is at.
    pub stage: Stage,
    /// The categories to subscribe to, in order.
    pub interest: Seq<Category>,
    /// The window, or 0 while there is none.
    pub window: isize,
    /// The subscriptions held; the k-th is for the k-th category.
    pub tokens: Seq<isize>,
    /// Whether the setup has failed.
    pub failed: bool,
}

impl ContextState {
    /// The context of a thread that has done nothing yet.
    pub open spec fn initial(interest: Seq<Category>) -> ContextState {
        ContextState {
            stage: Stage::RegisteringClass,
            interest,
            window: 0,
            tokens: Seq::empty(),
            failed: false,
        }
    }

    /// Whether a category is still to be subscribed to.
    pub open spec fn subscribing(self) -> bool {
        self.tokens.len() < self.interest.len()
    }

    /// The work to do in this state.
    pub open spec fn command(self) -> Command {
        match self.stage {
            Stage::RegisteringClass => Command::RegisterClass,
            Stage::CreatingWindow => Command::CreateWindow,
            Stage::Preparing => if self.subscribing() {
                Command::Subscribe {
                    window: self.window,
                    setting: self.interest[self.tokens.len() as int].id(),
                }
            } else {
                Command::HandOff(Rendezvous::Window(self.window))
            },
            Stage::Running => Command::NextMessage,
            Stage::Dispatching => Command::Dispatch,
            Stage::Closing => if self.tokens.len() > 0 {
                Command::Unsubscribe { token: self.tokens.last() }
            } else {
                Command::DestroyWindow { window: self.window }
            },
            Stage::Aborting => Command::HandOff(Rendezvous::Failed),
            Stage::Exited => Command::Exit,
        }
    }

    /// Whether a retrieval ends the message loop: the loop was told to quit,
    /// or the message is the close request for the listener's own window.
    pub open spec fn ends_loop(self, more: bool, window: isize, message: u32) -> bool {
        !more || (window == self.window && message == close_code())
    }

    /// The state after `outcome` is reported. An outcome that does not
    /// answer the command of this state changes nothing.
    pub open spec fn next(self, outcome: Outcome) -> ContextState {
        match self.stage {
            Stage::RegisteringClass => match outcome {
                Outcome::ClassRegistered { atom } => if atom != 0 {
                    ContextState { stage: Stage::CreatingWindow, ..self }
                } else {
                    ContextState { stage: Stage::Aborting, failed: true, ..self }
                },
                _ => self,
            },
            Stage::CreatingWindow => match outcome {
                Outcome::WindowCreated { window } => if window != 0 {
                    ContextState { stage: Stage::Preparing, window, ..self }
                } else {
                    ContextState { stage: Stage::Aborting, failed: true, ..self }
                },
                _ => self,
            },
            Stage::Preparing => match outcome {
                Outcome::Subscribed { token } => if !self.subscribing() {
                    self
                } else if token != 0 {
                    ContextState { tokens: self.tokens.push(token), ..self }
                } else {
                    ContextState { stage: Stage::Closing, failed: true, ..self }
                },
                Outcome::HandedOff => if self.subscribing() {
                    self
                } else {
                    ContextState { stage: Stage::Running, ..self }
                },
                _ => self,
            },
            Stage::Running => match outcome {
                Outcome::Retrieved { more, window, message } => if self.ends_loop(
                    more,
                    window,
                    message,
                ) {
                    ContextState { stage: Stage::Closing, ..self }
                } else {
                    ContextState { stage: Stage::Dispatching, ..self }
                },
                _ => self,
            },
            Stage::Dispatching => match outcome {
                Outcome::Dispatched => ContextState { stage: Stage::Running, ..self },
                _ => self,
            },
            Stage::Closing => match outcome {
                Outcome::Unsubscribed { ok } => if self.tokens.len() > 0 {
                    ContextState { tokens: self.tokens.drop_last(), ..self }
                } else {
                    self
                },
                Outcome::WindowDestroyed => if self.tokens.len() > 0 {
                    self
                } else if self.failed {
                    ContextState { stage: Stage::Aborting, window: 0, ..self }
                } else {
                    ContextState { stage: Stage::Exited, window: 0, ..self }
                },
                _ => self,
            },
            Stage::Aborting => match outcome {
                Outcome::HandedOff => ContextState { stage: Stage::Exited, ..self },
                _ => self,
            },
            Stage::Exited => self,
        }
    }

    /// The error to note when `outcome` is reported in this state: a failed
    /// setup step, or a subscription that could not be given back.
    pub open spec fn report(self, outcome: Outcome) -> Option<BridgeError> {
        match (self.stage, outcome) {
            (Stage::RegisteringClass, Outcome::ClassRegistered { atom }) => if atom == 0 {
                Some(BridgeError::ListenerInitFailed)
            } else {
                None
            },
            (Stage::CreatingWindow, Outcome::WindowCreated { window }) => if window == 0 {
                Some(BridgeError::ListenerInitFailed)
            } else {
                None
            },
            (Stage::Preparing, Outcome::Subscribed { token }) => if self.subscribing() && token
                == 0 {
                Some(BridgeError::ListenerInitFailed)
            } else {
                None
            },
            (Stage::Closing, Outcome::Unsubscribed { ok }) => if self.tokens.len() > 0 && !ok {
                Some(BridgeError::UnregisterFailed)
            } else {
                None
            },
            _ => None,
        }
    }

    /// The phase of the listener's life that this state belongs to. Cleanup
    /// after a failed setup still counts as starting: the caller never sees
    /// such a listener run.
    pub open spec fn phase(self) -> Phase {
        match self.stage {
            Stage::RegisteringClass | Stage::CreatingWindow | Stage::Preparing | Stage::Aborting =>
                Phase::Starting,
            Stage::Running | Stage::Dispatching => Phase::Running,
            Stage::Closing => if self.failed {
                Phase::Starting
            } else {
                Phase::Stopping
            },
            Stage::Exited => Phase::Stopped,
        }
    }

    /// What holds of every state that the script can reach.
    pub open spec fn wf(self) -> bool {
        &&& self.tokens.len() <= self.interest.len()
        &&& forall|k: int| 0 <= k < self.tokens.len() ==> self.tokens[k] != 0
        &&& match self.stage {
            Stage::RegisteringClass | Stage::CreatingWindow => self.window == 0
                && self.tokens.len() == 0 && !self.failed,
            Stage::Preparing => self.window != 0 && !self.failed,
            Stage::Running | Stage::Dispatching => self.window != 0 && !self.failed
                && self.tokens.len() == self.interest.len(),
            Stage::Closing => self.window != 0 && (self.failed ==> self.subscribing()),
            Stage::Aborting => self.window == 0 && self.tokens.len() == 0 && self.failed,
            Stage::Exited => self.window == 0 && self.tokens.len() == 0,
        }
    }

    /// The state after a run of outcomes, reported oldest first.
    pub open spec fn run(self, outcomes: Seq<Outcome>) -> ContextState
        decreases outcomes.len(),
    {
        if outcomes.len() == 0 {
            self
        } else {
            self.run(outcomes.drop_last()).next(outcomes.last())
        }
    }
}

/// The context of one listener thread.
#[derive(Debug)]
pub struct ListenerContext {
    stage: Stage,
    interest: Vec<Category>,
    window: isize,
    tokens: Vec<isize>,
    failed: bool,
}

impl View for ListenerContext {
    type V = ContextState;

    closed spec fn view(&self) -> ContextState {
        ContextState {
            stage: self.stage,
            interest: self.interest@,
            window: self.window,
            tokens: self.tokens@,
            failed: self.failed,
        }
    }
}

impl ListenerContext {
    /// The context of a thread that is to subscribe to `interest`.
    pub fn new(interest: Vec<Category>) -> (context: ListenerContext)
        ensures
            context@ == ContextState::initial(interest@),
    {
        ListenerContext {
            stage: Stage::RegisteringClass,
            interest,
            window: 0,
            tokens: Vec::new(),
            failed: false,
        }
    }

    /// The step the script is at.
    pub fn stage(&self) -> (stage: Stage)
        ensures
            stage == self@.stage,
    {
        self.stage
    }

    /// The window, or 0 while there is none.
    pub fn window(&self) -> (window: isize)
        ensures
            window == self@.window,
    {
        self.window
    }

    /// How many subscriptions are held.
    pub fn subscriptions(&self) -> (count: usize)
        ensures
            count == self@.tokens.len(),
    {
        self.tokens.len()
    }

    /// Whether the setup has failed.
    pub fn failed(&self) -> (failed: bool)
        ensures
            failed == self@.failed,
    {
        self.failed
    }

    /// The phase of the listener's life.
    pub fn phase(&self) -> (phase: Phase)
        ensures
            phase == self@.phase(),
    {
        match self.stage {
            Stage::RegisteringClass | Stage::CreatingWindow | Stage::Preparing | Stage::Aborting =>
                Phase::Starting,
            Stage::Running | Stage::Dispatching => Phase::Running,
            Stage::Closing => if self.failed {
                Phase::Starting
            } else {
                Phase::Stopping
            },
            Stage::Exited => Phase::Stopped,
        }
    }

    /// The work to do now.
    pub fn command(&self) -> (command: Command)
        ensures
            command == self@.command(),
    {
        match self.stage {
            Stage::RegisteringClass => Command::RegisterClass,
            Stage::CreatingWindow => Command::CreateWindow,
            Stage::Preparing => {
                let held: usize = self.tokens.len();
                if held < self.interest.len() {
                    Command::Subscribe {
                        window: self.window,
                        setting: self.interest[held].setting_id(),
                    }
                } else {
                    Command::HandOff(Rendezvous::Window(self.window))
                }
            },
            Stage::Running => Command::NextMessage,
            Stage::Dispatching => Command::Dispatch,
            Stage::Closing => {
                let held: usize = self.tokens.len();
                if held > 0 {
                    Command::Unsubscribe { token: self.tokens[held - 1] }
                } else {
                    Command::DestroyWindow { window: self.window }
                }
            },
            Stage::Aborting => Command::HandOff(Rendezvous::Failed),
            Stage::Exited => Command::Exit,
        }
    }

    /// Takes the outcome of the command performed last and says what to do
    /// next.
    pub fn advance(&mut self, outcome: Outcome) -> (step: Step)
        ensures
            final(self)@ == old(self)@.next(outcome),
            step.command == final(self)@.command(),
            step.report == old(self)@.report(outcome),
    {
        let mut report: Option<BridgeError> = None;
        match self.stage {
            Stage::RegisteringClass => match outcome {
                Outcome::ClassRegistered { atom } => {
                    if atom != 0 {
                        self.stage = Stage::CreatingWindow;
                    } else {
                        self.stage = Stage::Aborting;
                        self.failed = true;
                        report = Some(BridgeError::ListenerInitFailed);
                    }
                },
                _ => {},
            },
            Stage::CreatingWindow => match outcome {
                Outcome::WindowCreated { window } => {
                    if window != 0 {
                        self.stage = Stage::Preparing;
                        self.window = window;
                    } else {
                        self.stage = Stage::Aborting;
                        self.failed = true;
                        report = Some(BridgeError::ListenerInitFailed);
                    }
                },
                _ => {},
            },
            Stage::Preparing => {
                let subscribing: bool = self.tokens.len() < self.interest.len();
                match outcome {
                    Outcome::Subscribed { token } => {
                        if subscribing {
                            if token != 0 {
                                self.tokens.push(token);
                            } else {
                                self.stage = Stage::Closing;
                                self.failed = true;
                                report = Some(BridgeError::ListenerInitFailed);
                            }
                        }
                    },
                    Outcome::HandedOff => {
                        if !subscribing {
                            self.stage = Stage::Running;
                        }
                    },
                    _ => {},
                }
            },
            Stage::Running => match outcome {
                Outcome::Retrieved { more, window, message } => {
                    if !more || (window == self.window && message == wm_close()) {
                        self.stage = Stage::Closing;
                    } else {
                        self.stage = Stage::Dispatching;
                    }
                },
                _ => {},
            },
            Stage::Dispatching => match outcome {
                Outcome::Dispatched => {
                    self.stage = Stage::Running;
                },
                _ => {},
            },
            Stage::Closing => match outcome {
                Outcome::Unsubscribed { ok } => {
                    if self.tokens.len() > 0 {
                        self.tokens.pop();
                        if !ok {
                            report = Some(BridgeError::UnregisterFailed);
                        }
                    }
                },
                Outcome::WindowDestroyed => {
                    if self.tokens.len() == 0 {
                        self.window = 0;
                        if self.failed {
                            self.stage = Stage::Aborting;
                        } else {
                            self.stage = Stage::Exited;
                        }
                    }
                },
                _ => {},
            },
            Stage::Aborting => match outcome {
                Outcome::HandedOff => {
                    self.stage = Stage::Exited;
                },
                _ => {},
            },
            Stage::Exited => {},
        }
        Step { command: self.command(), report }
    }
}

/// The outcomes of giving back subscriptions, one per entry of `oks`.
pub open spec fn unsubscribed(oks: Seq<bool>) -> Seq<Outcome> {
    Seq::new(oks.len(), |k: int| Outcome::Unsubscribed { ok: oks[k] })
}

/// The outcomes of registering subscriptions that returned `tokens`.
pub open spec fn subscribed(tokens: Seq<isize>) -> Seq<Outcome> {
    Seq::new(tokens.len(), |k: int| Outcome::Subscribed { token: tokens[k] })
}

/// A thread that has done nothing yet is in a reachable state.
pub proof fn lemma_initial_is_wf(interest: Seq<Category>)
    ensures
        ContextState::initial(interest).wf(),
        ContextState::initial(interest).phase() == Phase::Starting,
{
}

/// Whatever outcome is reported, the script stays in a reachable state.
pub proof fn lemma_next_keeps_wf(state: ContextState, outcome: Outcome)
    requires
        state.wf(),
    ensures
        state.next(outcome).wf(),
        state.next(outcome).interest == state.interest,
{
}

/// Whatever outcomes are reported, the script stays in a reachable state.
pub proof fn lemma_run_keeps_wf(state: ContextState, outcomes: Seq<Outcome>)
    requires
        state.wf(),
    ensures
        state.run(outcomes).wf(),
        state.run(outcomes).interest == state.interest,
    decreases outcomes.len(),
{
    if outcomes.len() > 0 {
        lemma_run_keeps_wf(state, outcomes.drop_last());
        lemma_next_keeps_wf(state.run(outcomes.drop_last()), outcomes.last());
    }
}

/// Reporting one run of outcomes after another is reporting them all in one
/// run.
pub proof fn lemma_run_concat(state: ContextState, first: Seq<Outcome>, second: Seq<Outcome>)
    ensures
        state.run(first + second) == state.run(first).run(second),
    decreases second.len(),
{
    if second.len() == 0 {
        assert(first + second == first);
    } else {
        lemma_run_concat(state, first, second.drop_last());
        assert((first + second).drop_last() == first + second.drop_last());
        assert((first + second).last() == second.last());
    }
}

/// A run of one outcome is one step.
pub proof fn lemma_run_one(state: ContextState, outcome: Outcome)
    ensures
        state.run(seq![outcome]) == state.next(outcome),
{
    let one = seq![outcome];
    assert(one.drop_last() == Seq::<Outcome>::empty());
    assert(state.run(one.drop_last()) == state);
    assert(one.last() == outcome);
}

/// However a thread got there, once it has exited it holds no window and no
/// subscription, and nothing reported later changes that: its only command
/// is to exit.
pub proof fn lemma_exit_is_final(interest: Seq<Category>, before: Seq<Outcome>, after: Seq<Outcome>)
    requires
        ContextState::initial(interest).run(before).stage == Stage::Exited,
    ensures
        ContextState::initial(interest).run(before).window == 0,
        ContextState::initial(interest).run(before).tokens.len() == 0,
        ContextState::initial(interest).run(before + after) == ContextState::initial(interest).run(
            before,
        ),
        ContextState::initial(interest).run(before + after).command() == Command::Exit,
        ContextState::initial(interest).run(before + after).phase() == Phase::Stopped,
{
    let start = ContextState::initial(interest);
    lemma_run_keeps_wf(start, before);
    lemma_run_concat(start, before, after);
    lemma_exited_stays(start.run(before), after);
}

/// Nothing moves an exited script.
pub proof fn lemma_exited_stays(state: ContextState, outcomes: Seq<Outcome>)
    requires
        state.stage == Stage::Exited,
    ensures
        state.run(outcomes) == state,
    decreases outcomes.len(),
{
    if outcomes.len() > 0 {
        lemma_exited_stays(state, outcomes.drop_last());
    }
}

/// A setup that has failed stays failed: the listener never runs, it never
/// hands a window to its caller, and the phases it goes through are
/// `Starting` and then `Stopped`.
pub proof fn lemma_failed_setup_never_runs(state: ContextState, outcomes: Seq<Outcome>)
    requires
        state.wf(),
        state.failed,
    ensures
        state.run(outcomes).failed,
        state.run(outcomes).phase() == Phase::Starting || state.run(outcomes).phase()
            == Phase::Stopped,
        !(state.run(outcomes).command() matches Command::HandOff(Rendezvous::Window(_))),
    decreases outcomes.len(),
{
    if outcomes.len() > 0 {
        lemma_failed_setup_never_runs(state, outcomes.drop_last());
        lemma_run_keeps_wf(state, outcomes.drop_last());
        lemma_next_keeps_wf(state.run(outcomes.drop_last()), outcomes.last());
    }
}

/// A window is handed to the caller only when the window exists and every
/// category of interest has its subscription, and a failure is handed over
/// only when neither window nor subscription is left.
pub proof fn lemma_handoff_is_earned(state: ContextState)
    requires
        state.wf(),
    ensures
        state.command() matches Command::HandOff(Rendezvous::Window(window)) ==> window != 0
            && window == state.window && state.tokens.len() == state.interest.len()
            && !state.failed,
        state.command() == Command::HandOff(Rendezvous::Failed) ==> state.window == 0
            && state.tokens.len() == 0 && state.failed,
{
}

/// When every setup step succeeds, the script subscribes to each category
/// in turn, hands over the window and runs.
pub proof fn lemma_setup_completes(
    interest: Seq<Category>,
    atom: u16,
    window: isize,
    tokens: Seq<isize>,
)
    requires
        atom != 0,
        window != 0,
        tokens.len() == interest.len(),
        forall|k: int| 0 <= k < tokens.len() ==> tokens[k] != 0,
    ensures
        ContextState::initial(interest).run(
            seq![Outcome::ClassRegistered { atom }, Outcome::WindowCreated { window }]
                + subscribed(tokens) + seq![Outcome::HandedOff],
        ) == (ContextState { stage: Stage::Running, interest, window, tokens, failed: false }),
{
    let start = ContextState::initial(interest);
    let created = seq![Outcome::ClassRegistered { atom }, Outcome::WindowCreated { window }];
    assert(created.drop_last() == seq![Outcome::ClassRegistered { atom }]);
    lemma_run_one(start, Outcome::ClassRegistered { atom });
    assert(start.run(created) == start.run(created.drop_last()).next(created.last()));
    let prepared = ContextState {
        stage: Stage::Preparing,
        interest,
        window,
        tokens: Seq::empty(),
        failed: false,
    };
    assert(start.run(created) == prepared);
    lemma_subscriptions_add_up(prepared, tokens);
    assert(prepared.tokens + tokens == tokens);
    lemma_run_concat(start, created, subscribed(tokens));
    lemma_run_concat(start, created + subscribed(tokens), seq![Outcome::HandedOff]);
    lemma_run_one(start.run(created + subscribed(tokens)), Outcome::HandedOff);
}

/// While categories are left, each successful subscription is added to
/// those held.
pub proof fn lemma_subscriptions_add_up(state: ContextState, tokens: Seq<isize>)
    requires
        state.stage == Stage::Preparing,
        state.tokens.len() + tokens.len() <= state.interest.len(),
        forall|k: int| 0 <= k < tokens.len() ==> tokens[k] != 0,
    ensures
        state.run(subscribed(tokens)) == (ContextState {
            tokens: state.tokens + tokens,
            ..state
        }),
    decreases tokens.len(),
{
    if tokens.len() == 0 {
        assert(state.tokens + tokens == state.tokens);
    } else {
        let fewer = tokens.drop_last();
        lemma_subscriptions_add_up(state, fewer);
        assert(subscribed(tokens).drop_last() == subscribed(fewer));
        assert(subscribed(tokens).last() == Outcome::Subscribed { token: tokens.last() });
        assert((state.tokens + fewer).push(tokens.last()) == state.tokens + tokens);
    }
}

/// Shutdown takes one step per subscription held and one for the window,
/// and then the thread exits (or, after a failed setup, hands over the
/// failure); a subscription that cannot be given back does not hold it up.
pub proof fn lemma_closing_completes(state: ContextState, oks: Seq<bool>)
    requires
        state.stage == Stage::Closing,
        oks.len() == state.tokens.len(),
    ensures
        state.run(unsubscribed(oks).push(Outcome::WindowDestroyed)) == (ContextState {
            stage: if state.failed {
                Stage::Aborting
            } else {
                Stage::Exited
            },
            window: 0,
            tokens: Seq::empty(),
            ..state
        }),
        state.run(unsubscribed(oks).push(Outcome::WindowDestroyed).push(Outcome::HandedOff)).stage
            == Stage::Exited,
{
    lemma_subscriptions_given_back(state, oks);
    let outcomes = unsubscribed(oks).push(Outcome::WindowDestroyed);
    assert(outcomes.drop_last() == unsubscribed(oks));
    assert(state.tokens.take(0) == Seq::<isize>::empty());
    let longer = outcomes.push(Outcome::HandedOff);
    assert(longer.drop_last() == outcomes);
}

/// During shutdown each report gives back the subscription registered last,
/// whether or not the operating system accepted it.
pub proof fn lemma_subscriptions_given_back(state: ContextState, oks: Seq<bool>)
    requires
        state.stage == Stage::Closing,
        oks.len() <= state.tokens.len(),
    ensures
        state.run(unsubscribed(oks)) == (ContextState {
            tokens: state.tokens.take(state.tokens.len() - oks.len()),
            ..state
        }),
    decreases oks.len(),
{
    if oks.len() == 0 {
        assert(state.tokens.take(state.tokens.len() as int) == state.tokens);
    } else {
        let fewer = oks.drop_last();
        lemma_subscriptions_given_back(state, fewer);
        assert(unsubscribed(oks).drop_last() == unsubscribed(fewer));
        assert(unsubscribed(oks).last() == Outcome::Unsubscribed { ok: oks.last() });
        assert(state.tokens.take(state.tokens.len() - fewer.len()).drop_last()
            == state.tokens.take(state.tokens.len() - oks.len()));
    }
}

/// A window is let go in one way only: the thread was told to destroy it and
/// reported that it did.
pub proof fn lemma_window_goes_by_destruction(state: ContextState, outcome: Outcome)
    requires
        state.wf(),
        state.window != 0,
        state.next(outcome).window != state.window,
    ensures
        state.command() == (Command::DestroyWindow { window: state.window }),
        outcome == Outcome::WindowDestroyed,
        state.next(outcome).window == 0,
        state.tokens.len() == 0,
{
}

/// A subscription is let go in one way only: the thread was told to give it
/// back and reported on it.
pub proof fn lemma_subscriptions_go_by_unsubscribing(state: ContextState, outcome: Outcome)
    requires
        state.next(outcome).tokens != state.tokens,
        state.next(outcome).tokens.len() <= state.tokens.len(),
    ensures
        state.command() == (Command::Unsubscribe { token: state.tokens.last() }),
        outcome is Unsubscribed,
        state.next(outcome).tokens == state.tokens.drop_last(),
{
    assert(state.tokens.push(0) != state.tokens) by {
        assert(state.tokens.push(0).len() == state.tokens.len() + 1);
    }
}

/// The thread exits only when nothing is left: the step into `Exited` is the
/// report that the window is destroyed, or that the failure is handed over,
/// and no subscription is held at that point.
pub proof fn lemma_exit_needs_cleanup(state: ContextState, outcome: Outcome)
    requires
        state.wf(),
        state.stage != Stage::Exited,
        state.next(outcome).stage == Stage::Exited,
    ensures
        state.tokens.len() == 0,
        state.next(outcome).window == 0,
        state.command() == (Command::DestroyWindow { window: state.window }) || state.command()
            == Command::HandOff(Rendezvous::Failed),
        state.failed <==> state.command() == Command::HandOff(Rendezvous::Failed),
{
}

/// The signal that a stop posts is the one the message loop ends on: a
/// running listener that retrieves it for its own window dispatches nothing
/// more and turns to shutdown.
pub proof fn lemma_stop_signal_ends_loop(handle: HandleState, state: ContextState, more: bool)
    requires
        handle.phase == Phase::Running,
        state.stage == Stage::Running,
        state.window == handle.window,
        !state.failed,
    ensures
        handle.stop_action() matches StopAction::Signal { window, message } && state.next(
            Outcome::Retrieved { more, window, message },
        ).stage == Stage::Closing && state.next(
            Outcome::Retrieved { more, window, message },
        ).phase() == Phase::Stopping,
{
}

} // verus!
