//! The backend that keeps assets in local storage.

use crate::client::client_trait::{
    is_run, lemma_rest_of_run, requests, written_keys, Action, ActionView, AssetsTask,
    AssetsTaskView, ClientTrait, Event, EventView, State, StateView,
};
use crate::client::fetch_client::{
    get_request, receive, reception_of, refusal_of, refuse, status_is_success, FetchClient,
    Reception, ReceptionView, RequestView, DEFAULT_MAX_RETRIES,
};
use crate::error::{LfaError, LfaErrorView};
use vstd::prelude::*;

verus! {

/// The download backend: fetches an asset and writes it under its key,
/// unless something is kept there already.
#[derive(Debug, Clone)]
pub struct DownloadClient {
    pub client: FetchClient,
}

/// The step that follows the reply to a request of the download backend,
/// the fallback one or the primary one: the bytes of a response that is
/// accepted are read, the text of one that is turned down is read, and a
/// request that failed ends the task.
pub open spec fn download_after_reply(reply: Result<u16, Seq<char>>, fallback: bool) -> (
    StateView,
    ActionView,
) {
    match reception_of(reply) {
        ReceptionView::Accept(_) => (StateView::ReadingBytes, ActionView::ReadBytes),
        ReceptionView::Refuse(status) => (
            if fallback {
                StateView::FallbackRefused(status)
            } else {
                StateView::PrimaryRefused(status)
            },
            ActionView::ReadText,
        ),
        ReceptionView::Fail(e) => (StateView::Failed, ActionView::Finish(Err(e))),
    }
}

/// The step that the download backend takes from `state` on `event`.
///
/// The primary URL is fetched first. A response is accepted exactly when its
/// status is one of success; the text of any other is read and makes, with
/// the status, the error. The fallback URL is fetched only when that error
/// is that the primary URL has no such file, and only where the task has a
/// fallback URL; every other error, and every error of the fallback
/// attempt, ends the task at once. Once the bytes of an accepted response
/// are read, the destination is looked up: what is kept there is left as it
/// is, and only where nothing is kept are the bytes written. A failure to
/// read the bytes ends the task as a failed request, a failure to write
/// them as a failure of the file system. An event that does not answer what
/// the state waits for changes nothing.
pub open spec fn download_step(task: AssetsTaskView, state: StateView, event: EventView) -> (
    StateView,
    ActionView,
) {
    match (state, event) {
        (StateView::Start, EventView::Begin) => (
            StateView::PrimaryAttempt,
            ActionView::Send(get_request(task.url)),
        ),
        (StateView::PrimaryAttempt, EventView::Replied(reply)) => download_after_reply(
            reply,
            false,
        ),
        (StateView::PrimaryRefused(status), EventView::Text(text)) => {
            if refusal_of(status, text).not_found() && task.fallback_url is Some {
                (
                    StateView::FallbackAttempt,
                    ActionView::Send(get_request(task.fallback_url->0)),
                )
            } else {
                (StateView::Failed, ActionView::Finish(Err(refusal_of(status, text))))
            }
        },
        (StateView::FallbackAttempt, EventView::Replied(reply)) => download_after_reply(
            reply,
            true,
        ),
        (StateView::FallbackRefused(status), EventView::Text(text)) => (
            StateView::Failed,
            ActionView::Finish(Err(refusal_of(status, text))),
        ),
        (StateView::ReadingBytes, EventView::Bytes(Ok(bytes))) => (
            StateView::Probing(bytes),
            ActionView::Probe(task.destination()),
        ),
        (StateView::ReadingBytes, EventView::Bytes(Err(reason))) => (
            StateView::Failed,
            ActionView::Finish(Err(LfaErrorView::RequestError(reason))),
        ),
        (StateView::Probing(bytes), EventView::Probed(exists)) => {
            if exists {
                (StateView::Success, ActionView::Finish(Ok(())))
            } else {
                (StateView::Storing, ActionView::Store(task.destination(), bytes))
            }
        },
        (StateView::Storing, EventView::Stored(Ok(_))) => (
            StateView::Success,
            ActionView::Finish(Ok(())),
        ),
        (StateView::Storing, EventView::Stored(Err(reason))) => (
            StateView::Failed,
            ActionView::Finish(Err(LfaErrorView::IoError(reason))),
        ),
        _ => (state, ActionView::Idle),
    }
}

impl DownloadClient {
    pub fn default() -> (backend: Self)
        ensures
            backend.client.max_retries == DEFAULT_MAX_RETRIES,
    {
        Self { client: FetchClient::default() }
    }
}

impl ClientTrait for DownloadClient {
    open spec fn steps(
        &self,
        task: AssetsTaskView,
        state: StateView,
        event: EventView,
        next: (StateView, ActionView),
    ) -> bool {
        next == download_step(task, state, event)
    }

    proof fn lemma_steps_keep_protocol(
        &self,
        task: AssetsTaskView,
        state: StateView,
        event: EventView,
        next: (StateView, ActionView),
    ) {
    }

    fn do_task(&self, task: &AssetsTask, state: State, event: Event) -> (next: (State, Action)) {
        match (state, event) {
            (State::Start, Event::Begin) => (
                State::PrimaryAttempt,
                Action::Send(self.client.get(task.url.as_str())),
            ),
            (State::PrimaryAttempt, Event::Replied(reply)) => match receive(reply) {
                Reception::Accept(_) => (State::ReadingBytes, Action::ReadBytes),
                Reception::Refuse(status) => (State::PrimaryRefused(status), Action::ReadText),
                Reception::Fail(e) => (State::Failed, Action::Finish(Err(e))),
            },
            (State::PrimaryRefused(status), Event::Text(text)) => {
                let error = refuse(status, text);
                if error.is_not_found() {
                    if let Some(fallback_url) = &task.fallback_url {
                        return (
                            State::FallbackAttempt,
                            Action::Send(self.client.get(fallback_url.as_str())),
                        );
                    }
                }
                (State::Failed, Action::Finish(Err(error)))
            },
            (State::FallbackAttempt, Event::Replied(reply)) => match receive(reply) {
                Reception::Accept(_) => (State::ReadingBytes, Action::ReadBytes),
                Reception::Refuse(status) => (State::FallbackRefused(status), Action::ReadText),
                Reception::Fail(e) => (State::Failed, Action::Finish(Err(e))),
            },
            (State::FallbackRefused(status), Event::Text(text)) => (
                State::Failed,
                Action::Finish(Err(refuse(status, text))),
            ),
            (State::ReadingBytes, Event::Bytes(Ok(bytes))) => (
                State::Probing(bytes),
                Action::Probe(task.destination()),
            ),
            (State::ReadingBytes, Event::Bytes(Err(reason))) => (
                State::Failed,
                Action::Finish(Err(LfaError::RequestError(reason))),
            ),
            (State::Probing(bytes), Event::Probed(exists)) => {
                if exists {
                    (State::Success, Action::Finish(Ok(())))
                } else {
                    (State::Storing, Action::Store(task.destination(), bytes))
                }
            },
            (State::Storing, Event::Stored(Ok(()))) => (State::Success, Action::Finish(Ok(()))),
            (State::Storing, Event::Stored(Err(reason))) => (
                State::Failed,
                Action::Finish(Err(LfaError::IoError(reason))),
            ),
            (state, _) => (state, Action::Idle),
        }
    }
}

/// How far the download backend has come with a task. No step leads back.
pub open spec fn download_progress(state: StateView) -> nat {
    match state {
        StateView::Start => 0,
        StateView::PrimaryAttempt => 1,
        StateView::PrimaryRefused(_) => 2,
        StateView::FallbackAttempt => 3,
        StateView::FallbackRefused(_) => 4,
        StateView::ReadingBytes => 5,
        StateView::Probing(_) => 6,
        StateView::Storing => 7,
        StateView::ReadingText(_) | StateView::Success | StateView::Failed => 8,
    }
}

/// Once the primary attempt is settled, the download backend sends nothing
/// more: a run that starts after it asks for no request.
pub proof fn lemma_download_sends_nothing_later(
    client: &DownloadClient,
    task: AssetsTaskView,
    states: Seq<StateView>,
    events: Seq<EventView>,
    actions: Seq<ActionView>,
)
    requires
        is_run(client, task, states, events, actions),
        download_progress(states[0]) >= 3,
    ensures
        requests(actions) == Seq::<RequestView>::empty(),
    decreases events.len(),
{
    if events.len() > 0 {
        lemma_rest_of_run(client, task, states, events, actions);
        lemma_download_sends_nothing_later(
            client,
            task,
            states.drop_first(),
            events.drop_first(),
            actions.drop_first(),
        );
    }
}

/// Once the bytes are being written, the download backend writes nothing
/// more: a run that starts after the destination was looked up asks for no
/// write.
pub proof fn lemma_download_writes_nothing_later(
    client: &DownloadClient,
    task: AssetsTaskView,
    states: Seq<StateView>,
    events: Seq<EventView>,
    actions: Seq<ActionView>,
)
    requires
        is_run(client, task, states, events, actions),
        download_progress(states[0]) >= 7,
    ensures
        written_keys(actions) == Seq::<Seq<char>>::empty(),
    decreases events.len(),
{
    if events.len() > 0 {
        lemma_rest_of_run(client, task, states, events, actions);
        lemma_download_writes_nothing_later(
            client,
            task,
            states.drop_first(),
            events.drop_first(),
            actions.drop_first(),
        );
    }
}

/// The fallback is tried exactly when the primary URL has no such file.
///
/// Take any run that goes on from the primary attempt with a response that
/// is turned down, and then with its text. If the status is 404 and the
/// task has a fallback URL, the rest of the run asks for exactly one
/// request, the one for the fallback URL. In every other case it asks for
/// none, and the task ends at once with the error of status and text.
pub proof fn lemma_download_falls_back_once(
    client: &DownloadClient,
    task: AssetsTaskView,
    states: Seq<StateView>,
    events: Seq<EventView>,
    actions: Seq<ActionView>,
    status: u16,
    text: Result<Seq<char>, Seq<char>>,
)
    requires
        is_run(client, task, states, events, actions),
        events.len() >= 2,
        states[0] == StateView::PrimaryAttempt,
        events[0] == EventView::Replied(Ok(status)),
        !status_is_success(status),
        events[1] == EventView::Text(text),
    ensures
        status == 404 && task.fallback_url is Some ==> requests(actions) == seq![
            get_request(task.fallback_url->0),
        ],
        !(status == 404 && task.fallback_url is Some) ==> {
            &&& requests(actions) == Seq::<RequestView>::empty()
            &&& actions[1] == ActionView::Finish(Err(refusal_of(status, text)))
            &&& states[2] == StateView::Failed
        },
{
    lemma_rest_of_run(client, task, states, events, actions);
    let states1 = states.drop_first();
    let events1 = events.drop_first();
    let actions1 = actions.drop_first();
    lemma_rest_of_run(client, task, states1, events1, actions1);
    lemma_download_sends_nothing_later(
        client,
        task,
        states1.drop_first(),
        events1.drop_first(),
        actions1.drop_first(),
    );
    assert(requests(actions) =~= requests(actions1));
}

/// A task whose primary URL has no such file is fetched twice, and no more.
///
/// Take any run of a task with a fallback URL that starts with the task
/// being taken up, the answer 404 to the first request, and the text of that
/// answer. The run asks for exactly two requests: the first for the primary
/// URL, the second for the fallback URL.
pub proof fn lemma_download_asks_twice(
    client: &DownloadClient,
    task: AssetsTaskView,
    states: Seq<StateView>,
    events: Seq<EventView>,
    actions: Seq<ActionView>,
)
    requires
        is_run(client, task, states, events, actions),
        events.len() >= 3,
        states[0] == StateView::Start,
        events[0] == EventView::Begin,
        events[1] == EventView::Replied(Ok(404)),
        events[2] is Text,
        task.fallback_url is Some,
    ensures
        requests(actions) == seq![get_request(task.url), get_request(task.fallback_url->0)],
{
    lemma_rest_of_run(client, task, states, events, actions);
    let rest_actions = actions.drop_first();
    lemma_download_falls_back_once(
        client,
        task,
        states.drop_first(),
        events.drop_first(),
        rest_actions,
        404,
        events[2]->Text_0,
    );
    assert(requests(actions) =~= seq![get_request(task.url)] + requests(rest_actions));
}

/// A request that brings no response ends the task, the primary one
/// included: a run that goes on from an attempt with a failed request asks
/// for no request more, and the failure is the outcome of the task.
pub proof fn lemma_download_failed_request_ends_the_task(
    client: &DownloadClient,
    task: AssetsTaskView,
    states: Seq<StateView>,
    events: Seq<EventView>,
    actions: Seq<ActionView>,
    reason: Seq<char>,
)
    requires
        is_run(client, task, states, events, actions),
        events.len() > 0,
        states[0] == StateView::PrimaryAttempt || states[0] == StateView::FallbackAttempt,
        events[0] == EventView::Replied(Err(reason)),
    ensures
        requests(actions) == Seq::<RequestView>::empty(),
        actions[0] == ActionView::Finish(Err(LfaErrorView::RequestMiddleWareError(reason))),
        states[1] == StateView::Failed,
{
    lemma_rest_of_run(client, task, states, events, actions);
    lemma_download_sends_nothing_later(
        client,
        task,
        states.drop_first(),
        events.drop_first(),
        actions.drop_first(),
    );
}

/// The requests that a run of the download backend may ask for once the
/// primary request is under way: none, or the one for the fallback URL.
pub open spec fn download_requests_after_primary(
    task: AssetsTaskView,
    sent: Seq<RequestView>,
) -> bool {
    ||| sent == Seq::<RequestView>::empty()
    ||| task.fallback_url is Some && sent == seq![get_request(task.fallback_url->0)]
}

/// A run that goes on while the primary attempt is not settled asks for one
/// request at most, and for none but the one for the fallback URL.
pub proof fn lemma_download_requests_after_primary(
    client: &DownloadClient,
    task: AssetsTaskView,
    states: Seq<StateView>,
    events: Seq<EventView>,
    actions: Seq<ActionView>,
)
    requires
        is_run(client, task, states, events, actions),
        states[0] == StateView::PrimaryAttempt || states[0] is PrimaryRefused,
    ensures
        download_requests_after_primary(task, requests(actions)),
    decreases events.len(),
{
    if events.len() > 0 {
        lemma_rest_of_run(client, task, states, events, actions);
        let rest_states = states.drop_first();
        let rest_events = events.drop_first();
        let rest_actions = actions.drop_first();
        if states[1] == StateView::PrimaryAttempt || states[1] is PrimaryRefused {
            lemma_download_requests_after_primary(
                client,
                task,
                rest_states,
                rest_events,
                rest_actions,
            );
        } else {
            lemma_download_sends_nothing_later(
                client,
                task,
                rest_states,
                rest_events,
                rest_actions,
            );
        }
    }
}

/// No work is done twice: a run of a task from its start asks for two
/// requests at most, the first for the primary URL and the second, if any,
/// for the fallback URL.
pub proof fn lemma_download_requests_from_start(
    client: &DownloadClient,
    task: AssetsTaskView,
    states: Seq<StateView>,
    events: Seq<EventView>,
    actions: Seq<ActionView>,
)
    requires
        is_run(client, task, states, events, actions),
        states[0] == StateView::Start,
    ensures
        requests(actions) == Seq::<RequestView>::empty() || (requests(actions).len() > 0
            && requests(actions)[0] == get_request(task.url) && download_requests_after_primary(
            task,
            requests(actions).drop_first(),
        )),
    decreases events.len(),
{
    if events.len() > 0 {
        lemma_rest_of_run(client, task, states, events, actions);
        let rest_states = states.drop_first();
        let rest_events = events.drop_first();
        let rest_actions = actions.drop_first();
        if states[1] == StateView::Start {
            lemma_download_requests_from_start(
                client,
                task,
                rest_states,
                rest_events,
                rest_actions,
            );
        } else {
            lemma_download_requests_after_primary(
                client,
                task,
                rest_states,
                rest_events,
                rest_actions,
            );
            assert(requests(actions).drop_first() =~= requests(rest_actions));
        }
    }
}

/// What is kept at the destination is never written again.
///
/// Take any run that goes on from the lookup of the destination with the
/// report that something is kept there. The task ends in success at once,
/// and the rest of the run asks for no write and for no request.
pub proof fn lemma_download_keeps_what_is_there(
    client: &DownloadClient,
    task: AssetsTaskView,
    states: Seq<StateView>,
    events: Seq<EventView>,
    actions: Seq<ActionView>,
)
    requires
        is_run(client, task, states, events, actions),
        events.len() > 0,
        states[0] is Probing,
        events[0] == EventView::Probed(true),
    ensures
        actions[0] == ActionView::Finish(Ok(())),
        states[1] == StateView::Success,
        written_keys(actions) == Seq::<Seq<char>>::empty(),
        requests(actions) == Seq::<RequestView>::empty(),
{
    lemma_download_sends_nothing_later(client, task, states, events, actions);
    lemma_rest_of_run(client, task, states, events, actions);
    lemma_download_writes_nothing_later(
        client,
        task,
        states.drop_first(),
        events.drop_first(),
        actions.drop_first(),
    );
}

/// A task is written at most once, and only under its own key: whatever
/// state a run starts in and whatever is reported to it, it asks for one
/// write at most, and for none but under the destination of the task.
pub proof fn lemma_download_writes_at_most_once(
    client: &DownloadClient,
    task: AssetsTaskView,
    states: Seq<StateView>,
    events: Seq<EventView>,
    actions: Seq<ActionView>,
)
    requires
        is_run(client, task, states, events, actions),
    ensures
        written_keys(actions) == Seq::<Seq<char>>::empty() || written_keys(actions) == seq![
            task.destination(),
        ],
    decreases events.len(),
{
    if events.len() > 0 {
        lemma_rest_of_run(client, task, states, events, actions);
        let rest_states = states.drop_first();
        let rest_events = events.drop_first();
        let rest_actions = actions.drop_first();
        if actions[0] is Store {
            lemma_download_writes_nothing_later(
                client,
                task,
                rest_states,
                rest_events,
                rest_actions,
            );
        } else {
            lemma_download_writes_at_most_once(
                client,
                task,
                rest_states,
                rest_events,
                rest_actions,
            );
        }
    }
}

/// What is kept after the download backend took one step: what was kept
/// before, and the asset of the task where its write is reported as done.
pub open spec fn kept_after_step(
    task: AssetsTaskView,
    kept: Set<Seq<char>>,
    state: StateView,
    event: EventView,
) -> Set<Seq<char>> {
    if state is Storing && event matches EventView::Stored(Ok(_)) {
        kept.insert(task.destination())
    } else {
        kept
    }
}

/// The keys that are kept after a run, where `kept` were kept before it.
pub open spec fn kept_after(
    task: AssetsTaskView,
    kept: Set<Seq<char>>,
    states: Seq<StateView>,
    events: Seq<EventView>,
) -> Set<Seq<char>>
    decreases events.len(),
{
    if events.len() == 0 {
        kept
    } else {
        kept_after(
            task,
            kept_after_step(task, kept, states[0], events[0]),
            states.drop_first(),
            events.drop_first(),
        )
    }
}

/// The lookups of a run are answered truly: whenever the backend waits for
/// the lookup of the destination, it is told whether that is kept.
pub open spec fn lookups_are_true(
    task: AssetsTaskView,
    kept: Set<Seq<char>>,
    states: Seq<StateView>,
    events: Seq<EventView>,
) -> bool
    decreases events.len(),
{
    events.len() == 0 || {
        &&& states[0] is Probing && events[0] is Probed ==> events[0] == EventView::Probed(
            kept.contains(task.destination()),
        )
        &&& lookups_are_true(
            task,
            kept_after_step(task, kept, states[0], events[0]),
            states.drop_first(),
            events.drop_first(),
        )
    }
}

/// The event reports that a fetch has failed: a request brought no
/// response, or one that is turned down, or the bytes of a response could
/// not be read.
pub open spec fn fetch_failed(event: EventView) -> bool {
    ||| event matches EventView::Replied(Err(_))
    ||| event matches EventView::Replied(Ok(status)) && !status_is_success(status)
    ||| event matches EventView::Bytes(Err(_))
}

/// Nothing that is kept is lost in a run.
pub proof fn lemma_download_loses_nothing(
    task: AssetsTaskView,
    kept: Set<Seq<char>>,
    states: Seq<StateView>,
    events: Seq<EventView>,
    key: Seq<char>,
)
    requires
        kept.contains(key),
    ensures
        kept_after(task, kept, states, events).contains(key),
    decreases events.len(),
{
    if events.len() > 0 {
        lemma_download_loses_nothing(
            task,
            kept_after_step(task, kept, states[0], events[0]),
            states.drop_first(),
            events.drop_first(),
            key,
        );
    }
}

/// A task that ends in success leaves its asset behind: after a run with
/// true lookups that leads into success, the destination is kept.
pub proof fn lemma_download_success_keeps_the_asset(
    client: &DownloadClient,
    task: AssetsTaskView,
    kept: Set<Seq<char>>,
    states: Seq<StateView>,
    events: Seq<EventView>,
    actions: Seq<ActionView>,
)
    requires
        is_run(client, task, states, events, actions),
        lookups_are_true(task, kept, states, events),
        states[0] != StateView::Success,
        states.last() == StateView::Success,
    ensures
        kept_after(task, kept, states, events).contains(task.destination()),
    decreases events.len(),
{
    if events.len() > 0 {
        lemma_rest_of_run(client, task, states, events, actions);
        let rest_states = states.drop_first();
        let rest_events = events.drop_first();
        let rest_actions = actions.drop_first();
        let next = kept_after_step(task, kept, states[0], events[0]);
        if states[1] == StateView::Success {
            lemma_download_loses_nothing(task, next, rest_states, rest_events, task.destination());
        } else {
            lemma_download_success_keeps_the_asset(
                client,
                task,
                next,
                rest_states,
                rest_events,
                rest_actions,
            );
        }
    }
}

/// Where the asset is kept, it is not written: a run with true lookups that
/// starts with the destination kept asks for no write, and it does not end
/// in failure unless a fetch has failed, on the way or just before.
pub proof fn lemma_download_leaves_a_kept_asset(
    client: &DownloadClient,
    task: AssetsTaskView,
    kept: Set<Seq<char>>,
    states: Seq<StateView>,
    events: Seq<EventView>,
    actions: Seq<ActionView>,
)
    requires
        is_run(client, task, states, events, actions),
        lookups_are_true(task, kept, states, events),
        kept.contains(task.destination()),
        states[0] != StateView::Storing,
    ensures
        written_keys(actions) == Seq::<Seq<char>>::empty(),
        states[0] != StateView::Failed && states.last() == StateView::Failed ==> {
            ||| states[0] is PrimaryRefused
            ||| states[0] is FallbackRefused
            ||| exists|i: int| 0 <= i < events.len() && fetch_failed(#[trigger] events[i])
        },
    decreases events.len(),
{
    if events.len() > 0 {
        lemma_rest_of_run(client, task, states, events, actions);
        let rest_states = states.drop_first();
        let rest_events = events.drop_first();
        let rest_actions = actions.drop_first();
        let next = kept_after_step(task, kept, states[0], events[0]);
        lemma_download_leaves_a_kept_asset(
            client,
            task,
            next,
            rest_states,
            rest_events,
            rest_actions,
        );
        if states[1] != StateView::Failed && states.last() == StateView::Failed {
            if states[1] is PrimaryRefused || states[1] is FallbackRefused {
                assert(states[0] == states[1] || fetch_failed(events[0]));
            } else {
                let i = choose|i: int|
                    0 <= i < rest_events.len() && fetch_failed(#[trigger] rest_events[i]);
                assert(events[i + 1] == rest_events[i]);
            }
        }
    }
}

/// Carrying a task out once more writes nothing.
///
/// Take a first run of a task, from its start into success, and a second
/// run of the same task from its start, on what the first has left behind,
/// the lookups of both answered truly. The second run asks for no write, and
/// it does not end in failure unless a request or the reading of a response
/// has failed on the way.
pub proof fn lemma_download_is_idempotent(
    client: &DownloadClient,
    task: AssetsTaskView,
    kept: Set<Seq<char>>,
    first_states: Seq<StateView>,
    first_events: Seq<EventView>,
    first_actions: Seq<ActionView>,
    states: Seq<StateView>,
    events: Seq<EventView>,
    actions: Seq<ActionView>,
)
    requires
        is_run(client, task, first_states, first_events, first_actions),
        lookups_are_true(task, kept, first_states, first_events),
        first_states[0] == StateView::Start,
        first_states.last() == StateView::Success,
        is_run(client, task, states, events, actions),
        lookups_are_true(task, kept_after(task, kept, first_states, first_events), states, events),
        states[0] == StateView::Start,
    ensures
        written_keys(actions) == Seq::<Seq<char>>::empty(),
        states.last() == StateView::Failed ==> exists|i: int|
            0 <= i < events.len() && fetch_failed(#[trigger] events[i]),
{
    lemma_download_success_keeps_the_asset(
        client,
        task,
        kept,
        first_states,
        first_events,
        first_actions,
    );
    lemma_download_leaves_a_kept_asset(
        client,
        task,
        kept_after(task, kept, first_states, first_events),
        states,
        events,
        actions,
    );
}

} // verus!
