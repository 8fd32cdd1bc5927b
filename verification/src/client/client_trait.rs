//! The unit of work handed to a backend, and the protocol by which a
//! backend carries it out: step by step, each step answering the outcome of
//! the action that the step before asked for.

use crate::client::fetch_client::{Request, RequestView};
use crate::error::{LfaError, LfaErrorView};
use crate::types::utils::{cdragon_url, fallback_context, get_cdragon_url, Config, ConfigView};
use vstd::prelude::*;

verus! {

/// One asset to persist: where to fetch it, where to fetch it if the first
/// address has no such file, and under which path to keep it.
#[derive(Debug, Clone, PartialEq, Eq)]
pub struct AssetsTask {
    pub url: String,
    pub fallback_url: Option<String>,
    pub path: String,
}

/// The mathematical value of an [`AssetsTask`].
pub struct AssetsTaskView {
    pub url: Seq<char>,
    pub fallback_url: Option<Seq<char>>,
    pub path: Seq<char>,
}

impl View for AssetsTask {
    type V = AssetsTaskView;

    open spec fn view(&self) -> AssetsTaskView {
        AssetsTaskView {
            url: self.url@,
            fallback_url: self.fallback_url.deep_view(),
            path: self.path@,
        }
    }
}

/// The task for the asset at `path`: fetched in the context `config`, with
/// the fallback context to turn to, and kept under `path` itself.
pub open spec fn task_for(path: Seq<char>, config: ConfigView) -> AssetsTaskView {
    AssetsTaskView {
        url: cdragon_url(path, config),
        fallback_url: Some(cdragon_url(path, fallback_context())),
        path,
    }
}

/// The values of a sequence of tasks.
pub open spec fn task_views(tasks: Seq<AssetsTask>) -> Seq<AssetsTaskView> {
    Seq::new(tasks.len(), |i: int| tasks[i]@)
}

/// The tasks for a sequence of paths, one each, in order.
pub open spec fn tasks_for(paths: Seq<Seq<char>>, config: ConfigView) -> Seq<AssetsTaskView> {
    Seq::new(paths.len(), |i: int| task_for(paths[i], config))
}

impl AssetsTask {
    pub fn new(url: String, fallback_url: Option<String>, path: String) -> (task: Self)
        ensures
            task.url == url,
            task.fallback_url == fallback_url,
            task.path == path,
    {
        Self { url, fallback_url, path }
    }

    pub fn from_path_config(path: &str, config: &Config) -> (task: Self)
        ensures
            task@ == task_for(path@, config@),
    {
        let cdragon_url = get_cdragon_url(path, config);
        let fallback = Config::fallback();
        let fallback_url = get_cdragon_url(path, &fallback);
        Self::new(cdragon_url, Some(fallback_url), String::from_str(path))
    }
}

/// `path` without the separators that it starts with.
pub open spec fn without_leading_separators(path: Seq<char>) -> Seq<char>
    decreases path.len(),
{
    if path.len() > 0 && path[0] == '/' {
        without_leading_separators(path.drop_first())
    } else {
        path
    }
}

impl AssetsTaskView {
    /// The key under which the asset is kept: the path of the task, made
    /// relative.
    pub open spec fn destination(self) -> Seq<char> {
        without_leading_separators(self.path)
    }
}

impl AssetsTask {
    /// The key under which the asset is kept: the path of the task without
    /// the separators that it starts with.
    pub fn destination(&self) -> (key: String)
        ensures
            key@ == self@.destination(),
    {
        let path = self.path.as_str();
        let len = path.unicode_len();
        let mut from: usize = 0;
        assert(path@.skip(0) =~= path@);
        while from < len && path.get_char(from) == '/'
            invariant
                len == path@.len(),
                from <= len,
                without_leading_separators(path@) == without_leading_separators(
                    path@.skip(from as int),
                ),
            decreases len - from,
        {
            assert(path@.skip(from as int).drop_first() =~= path@.skip(from + 1));
            from = from + 1;
        }
        String::from_str(path.substring_char(from, len))
    }
}

/// Where a backend stands with a task.
#[derive(Debug, Clone, PartialEq, Eq)]
pub enum State {
    /// Nothing has been asked for yet.
    Start,
    /// The request for the primary URL is under way.
    PrimaryAttempt,
    /// The response for the primary URL was turned down with this status,
    /// and its text is being read.
    PrimaryRefused(u16),
    /// The request for the fallback URL is under way.
    FallbackAttempt,
    /// The response for the fallback URL was turned down with this status,
    /// and its text is being read.
    FallbackRefused(u16),
    /// A response was accepted and its bytes are being read.
    ReadingBytes,
    /// A response was accepted with this status and its text is being read.
    ReadingText(u16),
    /// These bytes were read, and the destination is being looked up.
    Probing(Vec<u8>),
    /// The bytes are being written to the destination.
    Storing,
    /// The task is done.
    Success,
    /// The task was given up.
    Failed,
}

/// The mathematical value of a [`State`].
pub enum StateView {
    Start,
    PrimaryAttempt,
    PrimaryRefused(u16),
    FallbackAttempt,
    FallbackRefused(u16),
    ReadingBytes,
    ReadingText(u16),
    Probing(Seq<u8>),
    Storing,
    Success,
    Failed,
}

impl View for State {
    type V = StateView;

    open spec fn view(&self) -> StateView {
        match self {
            State::Start => StateView::Start,
            State::PrimaryAttempt => StateView::PrimaryAttempt,
            State::PrimaryRefused(status) => StateView::PrimaryRefused(*status),
            State::FallbackAttempt => StateView::FallbackAttempt,
            State::FallbackRefused(status) => StateView::FallbackRefused(*status),
            State::ReadingBytes => StateView::ReadingBytes,
            State::ReadingText(status) => StateView::ReadingText(*status),
            State::Probing(bytes) => StateView::Probing(bytes@),
            State::Storing => StateView::Storing,
            State::Success => StateView::Success,
            State::Failed => StateView::Failed,
        }
    }
}

impl StateView {
    /// No step leaves the state.
    pub open spec fn terminal(self) -> bool {
        self is Success || self is Failed
    }
}

impl State {
    /// Whether the task has come to its end, one way or the other.
    pub fn is_terminal(&self) -> (terminal: bool)
        ensures
            terminal == self@.terminal(),
    {
        match self {
            State::Success | State::Failed => true,
            _ => false,
        }
    }
}

/// The value of the outcome of a task.
pub open spec fn outcome_view(outcome: Result<(), LfaError>) -> Result<(), LfaErrorView> {
    match outcome {
        Ok(()) => Ok(()),
        Err(e) => Err(e@),
    }
}

/// What the caller reports back to a backend.
#[derive(Debug, PartialEq, Eq)]
pub enum Event {
    /// The task is taken up.
    Begin,
    /// The request was sent: a response with this status arrived, whatever
    /// the status, or none arrived for the reason told.
    Replied(Result<u16, String>),
    /// The bytes of the response were read, or reading failed for the
    /// reason told.
    Bytes(Result<Vec<u8>, String>),
    /// The text of the response was read, or reading failed for the reason
    /// told.
    Text(Result<String, String>),
    /// The destination was looked up: something is kept there, or nothing.
    Probed(bool),
    /// The bytes were written, or writing failed for the reason told.
    Stored(Result<(), String>),
}

/// The mathematical value of an [`Event`].
pub enum EventView {
    Begin,
    Replied(Result<u16, Seq<char>>),
    Bytes(Result<Seq<u8>, Seq<char>>),
    Text(Result<Seq<char>, Seq<char>>),
    Probed(bool),
    Stored(Result<(), Seq<char>>),
}

impl View for Event {
    type V = EventView;

    open spec fn view(&self) -> EventView {
        match self {
            Event::Begin => EventView::Begin,
            Event::Replied(Ok(status)) => EventView::Replied(Ok(*status)),
            Event::Replied(Err(reason)) => EventView::Replied(Err(reason@)),
            Event::Bytes(Ok(bytes)) => EventView::Bytes(Ok(bytes@)),
            Event::Bytes(Err(reason)) => EventView::Bytes(Err(reason@)),
            Event::Text(Ok(text)) => EventView::Text(Ok(text@)),
            Event::Text(Err(reason)) => EventView::Text(Err(reason@)),
            Event::Probed(exists) => EventView::Probed(*exists),
            Event::Stored(Ok(())) => EventView::Stored(Ok(())),
            Event::Stored(Err(reason)) => EventView::Stored(Err(reason@)),
        }
    }
}

/// What a backend asks the caller to do next.
#[derive(Debug, PartialEq, Eq)]
pub enum Action {
    /// Send the request and report the reply.
    Send(Request),
    /// Read the bytes of the response that arrived last and report them.
    ReadBytes,
    /// Read the text of the response that arrived last and report it.
    ReadText,
    /// Look up whether something is kept under the key and report it.
    Probe(String),
    /// Write the bytes under the key, making the directories above it as
    /// needed, and report how that went.
    Store(String, Vec<u8>),
    /// The task has come to its end, with this outcome.
    Finish(Result<(), LfaError>),
    /// Nothing: the event did not answer what the state waits for.
    Idle,
}

/// The mathematical value of an [`Action`].
pub enum ActionView {
    Send(RequestView),
    ReadBytes,
    ReadText,
    Probe(Seq<char>),
    Store(Seq<char>, Seq<u8>),
    Finish(Result<(), LfaErrorView>),
    Idle,
}

impl View for Action {
    type V = ActionView;

    open spec fn view(&self) -> ActionView {
        match self {
            Action::Send(request) => ActionView::Send(request@),
            Action::ReadBytes => ActionView::ReadBytes,
            Action::ReadText => ActionView::ReadText,
            Action::Probe(key) => ActionView::Probe(key@),
            Action::Store(key, bytes) => ActionView::Store(key@, bytes@),
            Action::Finish(outcome) => ActionView::Finish(outcome_view(*outcome)),
            Action::Idle => ActionView::Idle,
        }
    }
}

/// What every step of every backend keeps to, so that one loop can drive
/// them all.
///
/// A step ends the task exactly when it asks for [`Action::Finish`]: it
/// then leads from a state that is not final into success, with the outcome
/// `Ok`, or into failure, with the error as the outcome. A step that asks
/// for nothing leaves the state as it is, and from a final state no other
/// step is taken.
pub open spec fn keeps_protocol(state: StateView, next: (StateView, ActionView)) -> bool {
    &&& next.1 is Finish <==> !state.terminal() && next.0.terminal()
    &&& next.1 matches ActionView::Finish(outcome) ==> (outcome is Ok <==> next.0 is Success)
    &&& next.1 is Idle ==> next.0 == state
    &&& state.terminal() ==> next.1 is Idle
}

/// A backend: a way to persist the asset of a task.
///
/// A backend does nothing by itself. It is driven: the caller hands it the
/// state of the task and what happened last, and gets back the next state
/// and what to do next. A task starts in [`State::Start`] with
/// [`Event::Begin`] and is over with [`Action::Finish`].
pub trait ClientTrait {
    /// The steps that the backend may take: from `state`, on `event`, to the
    /// state and the action of `next`.
    spec fn steps(
        &self,
        task: AssetsTaskView,
        state: StateView,
        event: EventView,
        next: (StateView, ActionView),
    ) -> bool;

    /// Every step that the backend may take keeps to the protocol.
    proof fn lemma_steps_keep_protocol(
        &self,
        task: AssetsTaskView,
        state: StateView,
        event: EventView,
        next: (StateView, ActionView),
    )
        requires
            self.steps(task, state, event, next),
        ensures
            keeps_protocol(state, next),
    ;

    /// Takes one step with `task`.
    fn do_task(&self, task: &AssetsTask, state: State, event: Event) -> (next: (State, Action))
        ensures
            self.steps(task@, state@, event@, (next.0@, next.1@)),
    ;
}

/// The requests that `actions` ask to send, in order.
pub open spec fn requests(actions: Seq<ActionView>) -> Seq<RequestView>
    decreases actions.len(),
{
    if actions.len() == 0 {
        Seq::empty()
    } else {
        let first = match actions[0] {
            ActionView::Send(request) => seq![request],
            _ => Seq::empty(),
        };
        first + requests(actions.drop_first())
    }
}

/// The keys under which `actions` ask to write, in order.
pub open spec fn written_keys(actions: Seq<ActionView>) -> Seq<Seq<char>>
    decreases actions.len(),
{
    if actions.len() == 0 {
        Seq::empty()
    } else {
        let first = match actions[0] {
            ActionView::Store(key, _) => seq![key],
            _ => Seq::empty(),
        };
        first + written_keys(actions.drop_first())
    }
}

/// A run of `client` on `task`: the backend goes through `states`, one step
/// for each of `events`, and asks for `actions` on the way.
pub open spec fn is_run<C: ClientTrait>(
    client: &C,
    task: AssetsTaskView,
    states: Seq<StateView>,
    events: Seq<EventView>,
    actions: Seq<ActionView>,
) -> bool {
    &&& states.len() == events.len() + 1
    &&& actions.len() == events.len()
    &&& forall|i: int|
        0 <= i < events.len() ==> client.steps(
            task,
            states[i],
            events[i],
            (states[i + 1], #[trigger] actions[i]),
        )
}

/// What is left of a run after its first step is a run.
pub proof fn lemma_rest_of_run<C: ClientTrait>(
    client: &C,
    task: AssetsTaskView,
    states: Seq<StateView>,
    events: Seq<EventView>,
    actions: Seq<ActionView>,
)
    requires
        is_run(client, task, states, events, actions),
        events.len() > 0,
    ensures
        is_run(client, task, states.drop_first(), events.drop_first(), actions.drop_first()),
        client.steps(task, states[0], events[0], (states[1], actions[0])),
{
    let rest_states = states.drop_first();
    let rest_events = events.drop_first();
    let rest_actions = actions.drop_first();
    assert forall|i: int| 0 <= i < rest_events.len() implies client.steps(
        task,
        rest_states[i],
        rest_events[i],
        (rest_states[i + 1], #[trigger] rest_actions[i]),
    ) by {
        assert(rest_actions[i] == actions[i + 1]);
    }
}

/// How many times `actions` end the task.
pub open spec fn finishes(actions: Seq<ActionView>) -> nat
    decreases actions.len(),
{
    if actions.len() == 0 {
        0
    } else if actions[0] is Finish {
        1 + finishes(actions.drop_first())
    } else {
        finishes(actions.drop_first())
    }
}

/// A task ends once at most, whatever the backend.
///
/// No run ends its task twice. A run ends its task exactly when it leads
/// from a state that is not final into one that is; a run that starts in a
/// final state stays there.
pub proof fn lemma_task_ends_once<C: ClientTrait>(
    client: &C,
    task: AssetsTaskView,
    states: Seq<StateView>,
    events: Seq<EventView>,
    actions: Seq<ActionView>,
)
    requires
        is_run(client, task, states, events, actions),
    ensures
        finishes(actions) <= 1,
        finishes(actions) == 1 <==> !states[0].terminal() && states.last().terminal(),
        states[0].terminal() ==> states.last() == states[0],
    decreases events.len(),
{
    if events.len() > 0 {
        lemma_rest_of_run(client, task, states, events, actions);
        client.lemma_steps_keep_protocol(task, states[0], events[0], (states[1], actions[0]));
        let rest_states = states.drop_first();
        lemma_task_ends_once(
            client,
            task,
            rest_states,
            events.drop_first(),
            actions.drop_first(),
        );
    }
}

} // verus!
