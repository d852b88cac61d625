//! Interactive-shell event wiring, as a state machine over plain values.
//!
//! The surrounding shell owns the window, the widget and the event loop; on
//! every observed event it calls [`Session::step`] and performs the returned
//! [`Action`]. The machine starts idle; a confirmed entry name disables
//! input and drives the fixed pipeline decrypt, then refocus, then type;
//! any failure is presented and returns the session to idle with input
//! re-enabled; only a completed pipeline or the cancel key terminates the
//! process.

use vstd::prelude::*;
use crate::retrieve::DecryptOutcome;
use crate::retrieve::DecryptOutcomeModel;
use crate::retrieve::RetrieveError;
use crate::retrieve::RetrieveErrorModel;
use crate::retrieve::spec_retrieve;
use crate::retrieve::retrieve_secret;

verus! {

/// What running a status-only automation command came to: the process could
/// not be started at all, or it ran to an exit status.
#[derive(Debug, PartialEq, Eq)]
pub enum RunOutcome {
    LaunchFailed { message: String },
    Exited { exit_ok: bool },
}

/// Mathematical image of a [`RunOutcome`].
pub enum RunOutcomeModel {
    LaunchFailed { message: Seq<char> },
    Exited { exit_ok: bool },
}

impl View for RunOutcome {
    type V = RunOutcomeModel;

    open spec fn view(&self) -> RunOutcomeModel {
        match self {
            RunOutcome::LaunchFailed { message } => RunOutcomeModel::LaunchFailed {
                message: message@,
            },
            RunOutcome::Exited { exit_ok } => RunOutcomeModel::Exited { exit_ok: *exit_ok },
        }
    }
}

/// Where the session stands.
#[derive(Debug, PartialEq, Eq)]
pub enum State {
    /// Window shown, input enabled, nothing in flight.
    Idle,
    /// The decrypt call is in flight; input is disabled.
    Decrypting,
    /// The refocus call is in flight; the retrieved secret is held for the
    /// injection step.
    Refocusing { secret: String },
    /// The keystroke injection is in flight.
    Typing,
    /// The pipeline completed or the user cancelled; the process terminates.
    Done,
}

/// Mathematical image of a [`State`].
pub enum StateModel {
    Idle,
    Decrypting,
    Refocusing { secret: Seq<char> },
    Typing,
    Done,
}

impl View for State {
    type V = StateModel;

    open spec fn view(&self) -> StateModel {
        match self {
            State::Idle => StateModel::Idle,
            State::Decrypting => StateModel::Decrypting,
            State::Refocusing { secret } => StateModel::Refocusing { secret: secret@ },
            State::Typing => StateModel::Typing,
            State::Done => StateModel::Done,
        }
    }
}

/// A recoverable failure to present to the user.
#[derive(Debug, PartialEq, Eq)]
pub enum Failure {
    /// The retrieval itself failed; the cause is kept apart.
    Retrieve { error: RetrieveError },
    /// The refocus automation could not be launched.
    RefocusLaunch { message: String },
    /// The refocus automation ran and reported failure.
    RefocusFailed,
    /// The keystroke injection could not be launched.
    TypeLaunch { message: String },
    /// The keystroke injection ran and reported failure.
    TypeFailed,
}

/// Mathematical image of a [`Failure`].
pub enum FailureModel {
    Retrieve { error: RetrieveErrorModel },
    RefocusLaunch { message: Seq<char> },
    RefocusFailed,
    TypeLaunch { message: Seq<char> },
    TypeFailed,
}

impl View for Failure {
    type V = FailureModel;

    open spec fn view(&self) -> FailureModel {
        match self {
            Failure::Retrieve { error } => FailureModel::Retrieve { error: error@ },
            Failure::RefocusLaunch { message } => FailureModel::RefocusLaunch {
                message: message@,
            },
            Failure::RefocusFailed => FailureModel::RefocusFailed,
            Failure::TypeLaunch { message } => FailureModel::TypeLaunch { message: message@ },
            Failure::TypeFailed => FailureModel::TypeFailed,
        }
    }
}

/// What the surrounding shell must do after one step.
#[derive(Debug, PartialEq, Eq)]
pub enum Action {
    /// Nothing: the event caused no transition.
    Stay,
    /// Terminate the process.
    Quit,
    /// Disable input and run the decrypt tool for this entry.
    RunDecrypt { entry: String },
    /// Run the refocus automation for this application.
    RunRefocus { app: String },
    /// Run the keystroke injection for this secret.
    RunType { secret: String },
    /// Present this failure and re-enable input.
    ShowError { failure: Failure },
}

/// Mathematical image of an [`Action`].
pub enum ActionModel {
    Stay,
    Quit,
    RunDecrypt { entry: Seq<char> },
    RunRefocus { app: Seq<char> },
    RunType { secret: Seq<char> },
    ShowError { failure: FailureModel },
}

impl View for Action {
    type V = ActionModel;

    open spec fn view(&self) -> ActionModel {
        match self {
            Action::Stay => ActionModel::Stay,
            Action::Quit => ActionModel::Quit,
            Action::RunDecrypt { entry } => ActionModel::RunDecrypt { entry: entry@ },
            Action::RunRefocus { app } => ActionModel::RunRefocus { app: app@ },
            Action::RunType { secret } => ActionModel::RunType { secret: secret@ },
            Action::ShowError { failure } => ActionModel::ShowError { failure: failure@ },
        }
    }
}

/// One event the shell observes.
#[derive(Debug, PartialEq, Eq)]
#[allow(inconsistent_fields)]
pub enum Event {
    /// The cancel key was pressed while input was enabled.
    CancelKey,
    /// The confirm action fired with this typed text.
    Confirm { typed: String },
    /// The decrypt call finished with this outcome.
    DecryptFinished { outcome: DecryptOutcome },
    /// The refocus call finished with this outcome.
    RefocusFinished { outcome: RunOutcome },
    /// The keystroke injection finished with this outcome.
    TypeFinished { outcome: RunOutcome },
}

/// Mathematical image of an [`Event`].
#[allow(inconsistent_fields)]
pub enum EventModel {
    CancelKey,
    Confirm { typed: Seq<char> },
    DecryptFinished { outcome: DecryptOutcomeModel },
    RefocusFinished { outcome: RunOutcomeModel },
    TypeFinished { outcome: RunOutcomeModel },
}

impl View for Event {
    type V = EventModel;

    open spec fn view(&self) -> EventModel {
        match self {
            Event::CancelKey => EventModel::CancelKey,
            Event::Confirm { typed } => EventModel::Confirm { typed: typed@ },
            Event::DecryptFinished { outcome } => EventModel::DecryptFinished {
                outcome: outcome@,
            },
            Event::RefocusFinished { outcome } => EventModel::RefocusFinished {
                outcome: outcome@,
            },
            Event::TypeFinished { outcome } => EventModel::TypeFinished { outcome: outcome@ },
        }
    }
}

/// The session: the read-only startup data and the current state.
pub struct Session {
    /// The known entry names, in scan order; never mutated.
    pub choices: Vec<String>,
    /// The application that held focus before the window was shown.
    pub previous_app: String,
    /// Where the session stands.
    pub state: State,
}

/// Mathematical image of a [`Session`].
pub struct SessionModel {
    pub choices: Seq<Seq<char>>,
    pub previous_app: Seq<char>,
    pub state: StateModel,
}

impl View for Session {
    type V = SessionModel;

    open spec fn view(&self) -> SessionModel {
        SessionModel {
            choices: self.choices.deep_view(),
            previous_app: self.previous_app@,
            state: self.state@,
        }
    }
}

/// The whole event wiring, one transition at a time: from the current
/// session and one observed event to the next session and the action the
/// shell must take.
pub open spec fn spec_step(s: SessionModel, e: EventModel) -> (SessionModel, ActionModel) {
    match (s.state, e) {
        (StateModel::Idle, EventModel::CancelKey) => (
            SessionModel { state: StateModel::Done, ..s },
            ActionModel::Quit,
        ),
        (StateModel::Idle, EventModel::Confirm { typed }) => if s.choices.contains(typed) {
            (
                SessionModel { state: StateModel::Decrypting, ..s },
                ActionModel::RunDecrypt { entry: typed },
            )
        } else {
            (s, ActionModel::Stay)
        },
        (StateModel::Decrypting, EventModel::DecryptFinished { outcome }) => match spec_retrieve(
            outcome,
        ) {
            Ok(secret) => (
                SessionModel { state: StateModel::Refocusing { secret }, ..s },
                ActionModel::RunRefocus { app: s.previous_app },
            ),
            Err(error) => (
                SessionModel { state: StateModel::Idle, ..s },
                ActionModel::ShowError { failure: FailureModel::Retrieve { error } },
            ),
        },
        (StateModel::Refocusing { secret }, EventModel::RefocusFinished { outcome }) => match
            outcome {
            RunOutcomeModel::LaunchFailed { message } => (
                SessionModel { state: StateModel::Idle, ..s },
                ActionModel::ShowError { failure: FailureModel::RefocusLaunch { message } },
            ),
            RunOutcomeModel::Exited { exit_ok } => if exit_ok {
                (
                    SessionModel { state: StateModel::Typing, ..s },
                    ActionModel::RunType { secret },
                )
            } else {
                (
                    SessionModel { state: StateModel::Idle, ..s },
                    ActionModel::ShowError { failure: FailureModel::RefocusFailed },
                )
            },
        },
        (StateModel::Typing, EventModel::TypeFinished { outcome }) => match outcome {
            RunOutcomeModel::LaunchFailed { message } => (
                SessionModel { state: StateModel::Idle, ..s },
                ActionModel::ShowError { failure: FailureModel::TypeLaunch { message } },
            ),
            RunOutcomeModel::Exited { exit_ok } => if exit_ok {
                (SessionModel { state: StateModel::Done, ..s }, ActionModel::Quit)
            } else {
                (
                    SessionModel { state: StateModel::Idle, ..s },
                    ActionModel::ShowError { failure: FailureModel::TypeFailed },
                )
            },
        },
        _ => (s, ActionModel::Stay),
    }
}

/// Does the typed text exactly equal one of the known entry names?
pub fn contains_choice(choices: &Vec<String>, typed: &String) -> (r: bool)
    ensures
        r == choices.deep_view().contains(typed@),
{
    let mut i: usize = 0;
    while i < choices.len()
        invariant
            0 <= i <= choices.len(),
            forall|k: int| 0 <= k < i ==> choices.deep_view()[k] != typed@,
        decreases choices.len() - i,
    {
        if choices[i] == *typed {
            assert(choices.deep_view()[i as int] == typed@);
            return true;
        }
        assert(choices.deep_view()[i as int] == choices@[i as int]@);
        i += 1;
    }
    false
}

impl Session {
    /// A fresh session over the scanned choices and the captured previous
    /// application, idle with input enabled.
    pub fn new(choices: Vec<String>, previous_app: String) -> (s: Session)
        ensures
            s@ == (SessionModel {
                choices: choices.deep_view(),
                previous_app: previous_app@,
                state: StateModel::Idle,
            }),
    {
        Session { choices, previous_app, state: State::Idle }
    }

    /// One transition of the event wiring, exactly as [`spec_step`]
    /// describes it: the session moves to the next state and hands back the
    /// action the shell must take.
    pub fn step(&mut self, event: Event) -> (action: Action)
        ensures
            final(self)@ == spec_step(old(self)@, event@).0,
            action@ == spec_step(old(self)@, event@).1,
    {
        match event {
            Event::CancelKey => match &self.state {
                State::Idle => {
                    self.state = State::Done;
                    Action::Quit
                },
                _ => Action::Stay,
            },
            Event::Confirm { typed } => match &self.state {
                State::Idle => {
                    if contains_choice(&self.choices, &typed) {
                        self.state = State::Decrypting;
                        Action::RunDecrypt { entry: typed }
                    } else {
                        Action::Stay
                    }
                },
                _ => Action::Stay,
            },
            Event::DecryptFinished { outcome } => match &self.state {
                State::Decrypting => match retrieve_secret(outcome) {
                    Ok(secret) => {
                        let app = self.previous_app.clone();
                        self.state = State::Refocusing { secret };
                        Action::RunRefocus { app }
                    },
                    Err(error) => {
                        self.state = State::Idle;
                        Action::ShowError { failure: Failure::Retrieve { error } }
                    },
                },
                _ => Action::Stay,
            },
            Event::RefocusFinished { outcome } => match &self.state {
                State::Refocusing { secret } => {
                    let secret = secret.clone();
                    match outcome {
                        RunOutcome::LaunchFailed { message } => {
                            self.state = State::Idle;
                            Action::ShowError { failure: Failure::RefocusLaunch { message } }
                        },
                        RunOutcome::Exited { exit_ok } => {
                            if exit_ok {
                                self.state = State::Typing;
                                Action::RunType { secret }
                            } else {
                                self.state = State::Idle;
                                Action::ShowError { failure: Failure::RefocusFailed }
                            }
                        },
                    }
                },
                _ => Action::Stay,
            },
            Event::TypeFinished { outcome } => match &self.state {
                State::Typing => match outcome {
                    RunOutcome::LaunchFailed { message } => {
                        self.state = State::Idle;
                        Action::ShowError { failure: Failure::TypeLaunch { message } }
                    },
                    RunOutcome::Exited { exit_ok } => {
                        if exit_ok {
                            self.state = State::Done;
                            Action::Quit
                        } else {
                            self.state = State::Idle;
                            Action::ShowError { failure: Failure::TypeFailed }
                        }
                    },
                },
                _ => Action::Stay,
            },
        }
    }
}

/// Law: typed text that equals no known entry name causes no transition and
/// no external call.
pub proof fn lemma_unknown_text_ignored(s: SessionModel, typed: Seq<char>)
    requires
        s.state is Idle,
        !s.choices.contains(typed),
    ensures
        spec_step(s, EventModel::Confirm { typed }) == (s, ActionModel::Stay),
{
}

/// Law: each external call starts only where the pipeline's order puts it —
/// a decrypt only on an idle confirm of a known entry, a refocus only on a
/// successful decrypt, a keystroke injection only on a refocus that
/// reported success; so the injection never runs when either prior call
/// failed.
pub proof fn lemma_calls_ordered(s: SessionModel, e: EventModel)
    ensures
        spec_step(s, e).1 matches ActionModel::RunDecrypt { entry } ==> (s.state is Idle && e
            == (EventModel::Confirm { typed: entry }) && s.choices.contains(entry)),
        spec_step(s, e).1 matches ActionModel::RunRefocus { app } ==> (s.state is Decrypting && (e
            matches EventModel::DecryptFinished { outcome } && spec_retrieve(outcome) is Ok) && app
            == s.previous_app),
        spec_step(s, e).1 matches ActionModel::RunType { secret } ==> ((s.state matches
            StateModel::Refocusing { secret: held } && held == secret) && e == (
        EventModel::RefocusFinished {
            outcome: RunOutcomeModel::Exited { exit_ok: true },
        })),
{
}

/// Law: while a pipeline is in flight, a further confirm causes nothing, so
/// at most one retrieval can ever be outstanding.
pub proof fn lemma_no_overlapping_retrievals(s: SessionModel, typed: Seq<char>)
    requires
        s.state is Decrypting || s.state is Refocusing || s.state is Typing,
    ensures
        spec_step(s, EventModel::Confirm { typed }) == (s, ActionModel::Stay),
{
}

/// Law: the secret the pipeline holds for injection is exactly what the
/// retriever took from the decrypt tool's output — its decoded first line.
pub proof fn lemma_secret_is_the_retrieved_one(s: SessionModel, outcome: DecryptOutcomeModel)
    requires
        s.state is Decrypting,
        spec_retrieve(outcome) is Ok,
    ensures
        spec_step(s, EventModel::DecryptFinished { outcome }).0.state == (StateModel::Refocusing {
            secret: spec_retrieve(outcome)->Ok_0,
        }),
{
}

/// Law: a presented failure always returns the session to idle — input is
/// re-enabled and the process does not terminate.
pub proof fn lemma_failure_returns_to_idle(s: SessionModel, e: EventModel)
    ensures
        (spec_step(s, e).1 matches ActionModel::ShowError { .. }) ==> spec_step(s, e).0.state
            is Idle,
{
}

/// An in-flight stage is entered only by the step that makes the matching
/// call; otherwise it can only persist unchanged.
pub proof fn lemma_stage_entry(s: SessionModel, e: EventModel)
    ensures
        spec_step(s, e).0.state is Decrypting ==> (spec_step(s, e).1 is RunDecrypt || (s.state
            is Decrypting && spec_step(s, e).1 is Stay)),
        spec_step(s, e).0.state is Refocusing ==> (spec_step(s, e).1 is RunRefocus || (s.state
            is Refocusing && spec_step(s, e).1 is Stay)),
        spec_step(s, e).0.state is Typing ==> (spec_step(s, e).1 is RunType || (s.state
            is Typing && spec_step(s, e).1 is Stay)),
{
}

/// The actions a session emits over a whole event sequence, in order.
pub open spec fn spec_run(s: SessionModel, events: Seq<EventModel>) -> Seq<ActionModel>
    decreases events.len(),
{
    if events.len() == 0 {
        seq![]
    } else {
        seq![spec_step(s, events[0]).1] + spec_run(spec_step(s, events[0]).0, events.drop_first())
    }
}

/// A keystroke injection in a trace is preceded by a refocus call, unless
/// the session already began mid-pipeline.
proof fn lemma_type_preceded_by_refocus(s: SessionModel, events: Seq<EventModel>, i: int)
    requires
        0 <= i < spec_run(s, events).len(),
        spec_run(s, events)[i] is RunType,
    ensures
        (exists|j: int| 0 <= j < i && spec_run(s, events)[j] is RunRefocus) || s.state
            is Refocusing,
    decreases events.len(),
{
    let actions = spec_run(s, events);
    let s1 = spec_step(s, events[0]).0;
    let rest = spec_run(s1, events.drop_first());
    assert(actions == seq![spec_step(s, events[0]).1] + rest);
    if i == 0 {
        lemma_calls_ordered(s, events[0]);
    } else {
        assert(actions[i] == rest[i - 1]);
        lemma_type_preceded_by_refocus(s1, events.drop_first(), i - 1);
        if exists|j: int| 0 <= j < i - 1 && rest[j] is RunRefocus {
            let j = choose|j: int| 0 <= j < i - 1 && rest[j] is RunRefocus;
            assert(actions[j + 1] == rest[j]);
            assert(actions[j + 1] is RunRefocus);
        } else {
            lemma_stage_entry(s, events[0]);
            if spec_step(s, events[0]).1 is RunRefocus {
                assert(actions[0] is RunRefocus);
            }
        }
    }
}

/// A refocus call in a trace is preceded by a decrypt call, unless the
/// session already began mid-pipeline.
proof fn lemma_refocus_preceded_by_decrypt(s: SessionModel, events: Seq<EventModel>, i: int)
    requires
        0 <= i < spec_run(s, events).len(),
        spec_run(s, events)[i] is RunRefocus,
    ensures
        (exists|j: int| 0 <= j < i && spec_run(s, events)[j] is RunDecrypt) || s.state
            is Decrypting,
    decreases events.len(),
{
    let actions = spec_run(s, events);
    let s1 = spec_step(s, events[0]).0;
    let rest = spec_run(s1, events.drop_first());
    assert(actions == seq![spec_step(s, events[0]).1] + rest);
    if i == 0 {
        lemma_calls_ordered(s, events[0]);
    } else {
        assert(actions[i] == rest[i - 1]);
        lemma_refocus_preceded_by_decrypt(s1, events.drop_first(), i - 1);
        if exists|j: int| 0 <= j < i - 1 && rest[j] is RunDecrypt {
            let j = choose|j: int| 0 <= j < i - 1 && rest[j] is RunDecrypt;
            assert(actions[j + 1] == rest[j]);
            assert(actions[j + 1] is RunDecrypt);
        } else {
            lemma_stage_entry(s, events[0]);
            if spec_step(s, events[0]).1 is RunDecrypt {
                assert(actions[0] is RunDecrypt);
            }
        }
    }
}

/// Law: over any whole run that starts idle, the external calls keep their
/// order — before any keystroke injection there was a refocus call, and
/// before that a decrypt call.
pub proof fn lemma_pipeline_order_in_trace(s: SessionModel, events: Seq<EventModel>, i: int)
    requires
        s.state is Idle,
        0 <= i < spec_run(s, events).len(),
        spec_run(s, events)[i] is RunType,
    ensures
        exists|j: int, k: int|
            0 <= k < j < i && spec_run(s, events)[j] is RunRefocus && spec_run(s, events)[k]
                is RunDecrypt,
{
    lemma_type_preceded_by_refocus(s, events, i);
    let j = choose|j: int| 0 <= j < i && spec_run(s, events)[j] is RunRefocus;
    lemma_refocus_preceded_by_decrypt(s, events, j);
    let k = choose|k: int| 0 <= k < j && spec_run(s, events)[k] is RunDecrypt;
    assert(0 <= k < j < i && spec_run(s, events)[j] is RunRefocus && spec_run(s, events)[k]
        is RunDecrypt);
}

} // verus!
