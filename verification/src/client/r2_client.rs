//! The backend that has a remote proxy fetch an asset and keep it in object
//! storage.

use crate::client::client_trait::{
    is_run, lemma_rest_of_run, requests, Action, ActionView, AssetsTask, AssetsTaskView,
    ClientTrait, Event, EventView, State, StateView,
};
use crate::client::fetch_client::{
    header_views, post_request, receive, reception_of, refusal_of, refuse, status_is_success,
    FetchClient, Header, HeaderView, Reception, ReceptionView, Request, RequestView,
    APPLICATION_JSON, CONTENT_TYPE, DEFAULT_MAX_RETRIES,
};
use crate::error::{LfaError, LfaErrorView};
use vstd::prelude::*;

verus! {

/// Environment variable that holds the address of the proxy.
pub const WORKER_URL_VARIABLE: &'static str = "R2_WORKER_URL";

/// Environment variable that holds the token by which the proxy knows its
/// callers.
pub const TOKEN_VARIABLE: &'static str = "R2_TOKEN";

/// Path of the proxy under which it fetches and keeps a file.
pub const FETCH_SAVE_PATH: &'static str = "/fetchSave";

/// Path of the proxy under which it removes a file.
pub const DELETE_PATH: &'static str = "/delete";

/// Name of the header that carries the token.
pub const AUTHORIZATION: &'static str = "Authorization";

/// What stands before the token in its header.
pub const BEARER: &'static str = "Bearer ";

/// Status by which the proxy says that it did what it was asked.
pub const STATUS_DONE: u16 = 200;

/// What the proxy is asked to do with one object.
#[derive(Default, Debug, Clone, PartialEq)]
pub struct UploadRequest {
    /// Where the proxy fetches the object from; nothing where the object is
    /// to be removed.
    pub download_url: Option<String>,
    /// The key of the object.
    pub img_id: String,
    /// Whether an object already kept under the key is replaced.
    pub force: bool,
}

/// The mathematical value of an [`UploadRequest`].
pub struct UploadRequestView {
    pub download_url: Option<Seq<char>>,
    pub img_id: Seq<char>,
    pub force: bool,
}

impl View for UploadRequest {
    type V = UploadRequestView;

    open spec fn view(&self) -> UploadRequestView {
        UploadRequestView {
            download_url: self.download_url.deep_view(),
            img_id: self.img_id@,
            force: self.force,
        }
    }
}

/// The error of `serde_json`: nothing is read from it but its message.
#[verifier::external_type_specification]
#[verifier::external_body]
pub struct ExJsonError(serde_json::Error);

/// The mark with which a string begins in JSON text.
pub const QUOTATION_MARK: char = '\u{22}';

/// The JSON text that `serde_json::to_string` gives for a string.
pub uninterp spec fn json_string(value: Seq<char>) -> Seq<char>;

/// Encodes a string as JSON text by `serde_json::to_string`.
///
/// Trusted: the call succeeds on every string, since it writes into memory
/// and a string has nothing that cannot be written. Its result is the JSON
/// text of the string, a function of the string alone; that text stands
/// between two quotation marks, so it has two characters at least and the
/// first is the mark.
#[verifier::external_body]
pub(crate) fn encode_json_string(value: &str) -> (encoded: Result<String, serde_json::Error>)
    ensures
        encoded is Ok,
        encoded matches Ok(text) ==> text@ == json_string(value@),
        encoded matches Ok(text) ==> text@.len() >= 2,
        encoded matches Ok(text) ==> text@.first() == QUOTATION_MARK,
{
    serde_json::to_string(value)
}

/// A string as JSON text. The encoding of a string does not fail.
pub fn json_text(value: &str) -> (encoded: Result<String, LfaError>)
    ensures
        encoded matches Ok(text) && text@ == json_string(value@),
        encoded matches Ok(text) && text@.len() >= 2 && text@.first() == QUOTATION_MARK,
{
    match encode_json_string(value) {
        Ok(text) => Ok(text),
        Err(e) => Err(LfaError::SerializationError(e.to_string())),
    }
}

/// The JSON object of an upload request whose strings are encoded already.
pub open spec fn framed_upload_request(
    download_url: Option<Seq<char>>,
    img_id: Seq<char>,
    force: bool,
) -> Seq<char> {
    "{\"downloadUrl\":"@ + (match download_url {
        Some(url) => url,
        None => "null"@,
    }) + ",\"imgId\":"@ + img_id + ",\"force\":"@ + (if force {
        "true"@
    } else {
        "false"@
    }) + "}"@
}

/// The body by which the proxy is handed an upload request.
pub open spec fn upload_body(request: UploadRequestView) -> Seq<char> {
    framed_upload_request(
        match request.download_url {
            Some(url) => Some(json_string(url)),
            None => None,
        },
        json_string(request.img_id),
        request.force,
    )
}

/// Writes the JSON object of an upload request from its members, the strings
/// among them encoded already: `downloadUrl` (or `null`), `imgId`, `force`,
/// in this order.
pub fn frame_upload_request(download_url: &Option<String>, img_id: &str, force: bool) -> (body:
    String)
    ensures
        body@ == framed_upload_request(download_url.deep_view(), img_id@, force),
{
    let mut body = String::from_str("{\"downloadUrl\":");
    match download_url {
        Some(url) => body.append(url.as_str()),
        None => body.append("null"),
    }
    body.append(",\"imgId\":");
    body.append(img_id);
    body.append(",\"force\":");
    if force {
        body.append("true");
    } else {
        body.append("false");
    }
    body.append("}");
    body
}

impl UploadRequest {
    /// The request as a JSON object. The encoding does not fail, and a
    /// request that names a source is never written as one that names none.
    pub fn to_json(&self) -> (body: Result<String, LfaError>)
        ensures
            body matches Ok(text) && text@ == upload_body(self@),
            self.download_url is Some ==> upload_body(self@) != upload_body(
                UploadRequestView { download_url: None, img_id: self.img_id@, force: self.force },
            ),
    {
        let download_url = match &self.download_url {
            Some(url) => match json_text(url.as_str()) {
                Ok(text) => Some(text),
                Err(e) => {
                    return Err(e);
                },
            },
            None => None,
        };
        let img_id = match json_text(self.img_id.as_str()) {
            Ok(text) => text,
            Err(e) => {
                return Err(e);
            },
        };
        proof {
            if download_url is Some {
                reveal_strlit("{\"downloadUrl\":");
                reveal_strlit("null");
                let named = upload_body(self@);
                let unnamed = upload_body(
                    UploadRequestView {
                        download_url: None,
                        img_id: self.img_id@,
                        force: self.force,
                    },
                );
                assert(named[15] == QUOTATION_MARK);
                assert(unnamed[15] == 'n');
            }
        }
        Ok(frame_upload_request(&download_url, img_id.as_str(), self.force))
    }
}

/// Why no upload backend could be made.
#[derive(Debug, Clone, Copy, PartialEq, Eq)]
pub enum MissingVariable {
    /// The address of the proxy is not set.
    WorkerUrl,
    /// The token is not set.
    Token,
}

/// The upload backend: has the proxy fetch an asset, from the fallback URL
/// where the primary one has no such file, and keep it under the task's key.
#[derive(Debug, Clone)]
pub struct R2Client {
    pub client: FetchClient,
    pub worker_url: String,
    pub token: String,
}

/// The mathematical value of an [`R2Client`].
pub struct R2ClientView {
    pub max_retries: u32,
    pub worker_url: Seq<char>,
    pub token: Seq<char>,
}

impl View for R2Client {
    type V = R2ClientView;

    open spec fn view(&self) -> R2ClientView {
        R2ClientView {
            max_retries: self.client.max_retries,
            worker_url: self.worker_url@,
            token: self.token@,
        }
    }
}

/// The headers of every request to the proxy.
pub open spec fn proxy_headers(token: Seq<char>) -> Seq<HeaderView> {
    seq![
        HeaderView { name: CONTENT_TYPE@, value: APPLICATION_JSON@ },
        HeaderView { name: AUTHORIZATION@, value: BEARER@ + token },
    ]
}

/// The request that has the proxy fetch `download_url` and keep it under
/// `img_id`, unless something is kept there.
pub open spec fn upload_request(client: R2ClientView, download_url: Seq<char>, img_id: Seq<char>)
    -> RequestView {
    post_request(
        client.worker_url + FETCH_SAVE_PATH@,
        proxy_headers(client.token),
        upload_body(UploadRequestView { download_url: Some(download_url), img_id, force: false }),
    )
}

/// The request that has the proxy remove what it keeps under `img_id`.
pub open spec fn delete_request(client: R2ClientView, img_id: Seq<char>) -> RequestView {
    post_request(
        client.worker_url + DELETE_PATH@,
        proxy_headers(client.token),
        upload_body(UploadRequestView { download_url: None, img_id, force: false }),
    )
}

impl R2Client {
    /// The backend for the proxy at `worker_url`, with a transport of the
    /// default settings.
    pub fn new(worker_url: String, token: String) -> (backend: Self)
        ensures
            backend.worker_url == worker_url,
            backend.token == token,
            backend.client.max_retries == DEFAULT_MAX_RETRIES,
    {
        Self { client: FetchClient::default(), worker_url, token }
    }

    /// The backend that the environment describes, from the values of
    /// [`WORKER_URL_VARIABLE`] and [`TOKEN_VARIABLE`] as the caller found
    /// them. Each of the two must be set; the address is looked at first.
    pub fn try_from_env(worker_url: Option<String>, token: Option<String>) -> (backend: Result<
        Self,
        MissingVariable,
    >)
        ensures
            match (worker_url, token) {
                (Some(url), Some(token)) => backend matches Ok(b) && b.worker_url == url && b.token
                    == token && b.client.max_retries == DEFAULT_MAX_RETRIES,
                (None, _) => backend == Err::<Self, MissingVariable>(MissingVariable::WorkerUrl),
                (Some(_), None) => backend == Err::<Self, MissingVariable>(
                    MissingVariable::Token,
                ),
            },
    {
        match worker_url {
            None => Err(MissingVariable::WorkerUrl),
            Some(worker_url) => match token {
                None => Err(MissingVariable::Token),
                Some(token) => Ok(Self::new(worker_url, token)),
            },
        }
    }

    /// The headers of every request to the proxy: the kind of the body, and
    /// the token.
    fn headers(&self) -> (headers: Vec<Header>)
        ensures
            header_views(headers@) == proxy_headers(self.token@),
    {
        let mut bearer = String::from_str(BEARER);
        bearer.append(self.token.as_str());
        let mut headers = Vec::new();
        headers.push(
            Header {
                name: String::from_str(CONTENT_TYPE),
                value: String::from_str(APPLICATION_JSON),
            },
        );
        headers.push(Header { name: String::from_str(AUTHORIZATION), value: bearer });
        headers
    }

    /// The request that has the proxy fetch `download_url` and keep it under
    /// `img_id`. Writing the request does not fail.
    pub fn upload_file(&self, download_url: &str, img_id: &str) -> (request: Result<
        Request,
        LfaError,
    >)
        ensures
            request matches Ok(r) && r@ == upload_request(self@, download_url@, img_id@),
    {
        let mut endpoint = self.worker_url.clone();
        endpoint.append(FETCH_SAVE_PATH);
        let headers = self.headers();
        let upload = UploadRequest {
            download_url: Some(String::from_str(download_url)),
            img_id: String::from_str(img_id),
            force: false,
        };
        match upload.to_json() {
            Ok(body) => Ok(self.client.post(endpoint.as_str(), headers, body)),
            Err(e) => Err(e),
        }
    }

    /// The request that has the proxy remove what it keeps under `img_id`.
    /// Writing the request does not fail.
    pub fn delete_file(&self, img_id: &str) -> (request: Result<Request, LfaError>)
        ensures
            request matches Ok(r) && r@ == delete_request(self@, img_id@),
    {
        let mut endpoint = self.worker_url.clone();
        endpoint.append(DELETE_PATH);
        let headers = self.headers();
        let upload = UploadRequest {
            download_url: None,
            img_id: String::from_str(img_id),
            force: false,
        };
        match upload.to_json() {
            Ok(body) => Ok(self.client.post(endpoint.as_str(), headers, body)),
            Err(e) => Err(e),
        }
    }
}

/// The step that follows the reply to a request of the upload backend, the
/// fallback one or the primary one.
///
/// A response is accepted exactly when its status is one of success: with
/// the status that says "done" the task ends in success, with any other the
/// text of the response is read. The text of a response that is turned down
/// is read as well. A request that failed ends the task.
pub open spec fn upload_after_reply(reply: Result<u16, Seq<char>>, fallback: bool) -> (
    StateView,
    ActionView,
) {
    match reception_of(reply) {
        ReceptionView::Accept(status) => if status == STATUS_DONE {
            (StateView::Success, ActionView::Finish(Ok(())))
        } else {
            (StateView::ReadingText(status), ActionView::ReadText)
        },
        ReceptionView::Refuse(status) => (
            if fallback {
                StateView::FallbackRefused(status)
            } else {
                StateView::PrimaryRefused(status)
            },
            ActionView::ReadText,
        ),
        ReceptionView::Fail(e) => (StateView::Failed, ActionView::Finish(Err(e))),
    }
}

/// The step that ends the task after a response was turned down: that the
/// object is kept already counts as success, every other error is the
/// outcome of the task.
pub open spec fn upload_after_refusal(error: LfaErrorView) -> (StateView, ActionView) {
    if error.conflict() {
        (StateView::Success, ActionView::Finish(Ok(())))
    } else {
        (StateView::Failed, ActionView::Finish(Err(error)))
    }
}

/// The step that the upload backend takes from `state` on `event`.
///
/// The proxy is asked to fetch the primary URL first. It is asked to fetch
/// the fallback URL only when it answers that the primary one has no such
/// file, and only where the task has a fallback URL. That the object is
/// kept already counts as success, in either attempt. A response that was
/// accepted with another status than "done" ends the task with the status
/// and the text of the response, or as a failed request where the text
/// cannot be read. An event that does not answer what the state waits for
/// changes nothing.
pub open spec fn upload_step(
    client: R2ClientView,
    task: AssetsTaskView,
    state: StateView,
    event: EventView,
) -> (StateView, ActionView) {
    match (state, event) {
        (StateView::Start, EventView::Begin) => (
            StateView::PrimaryAttempt,
            ActionView::Send(upload_request(client, task.url, task.destination())),
        ),
        (StateView::PrimaryAttempt, EventView::Replied(reply)) => upload_after_reply(
            reply,
            false,
        ),
        (StateView::PrimaryRefused(status), EventView::Text(text)) => {
            if refusal_of(status, text).not_found() && task.fallback_url is Some {
                (
                    StateView::FallbackAttempt,
                    ActionView::Send(
                        upload_request(client, task.fallback_url->0, task.destination()),
                    ),
                )
            } else {
                upload_after_refusal(refusal_of(status, text))
            }
        },
        (StateView::FallbackAttempt, EventView::Replied(reply)) => upload_after_reply(
            reply,
            true,
        ),
        (StateView::FallbackRefused(status), EventView::Text(text)) => upload_after_refusal(
            refusal_of(status, text),
        ),
        (StateView::ReadingText(status), EventView::Text(Ok(text))) => (
            StateView::Failed,
            ActionView::Finish(Err(LfaErrorView::UploadFailed(status, text))),
        ),
        (StateView::ReadingText(_), EventView::Text(Err(reason))) => (
            StateView::Failed,
            ActionView::Finish(Err(LfaErrorView::RequestError(reason))),
        ),
        _ => (state, ActionView::Idle),
    }
}

/// Takes up an attempt with the request that was written for it, or ends
/// the task where none could be written.
pub fn begin_attempt(request: Result<Request, LfaError>, attempt: State) -> (next: (State, Action))
    ensures
        match request {
            Ok(r) => next.0@ == attempt@ && next.1@ == ActionView::Send(r@),
            Err(e) => next.0@ == StateView::Failed && next.1@ == ActionView::Finish(Err(e@)),
        },
{
    match request {
        Ok(request) => (attempt, Action::Send(request)),
        Err(e) => (State::Failed, Action::Finish(Err(e))),
    }
}

/// Decides what follows the reply to a request, the fallback one or the
/// primary one.
pub fn after_reply(reply: Result<u16, String>, fallback: bool) -> (next: (State, Action))
    ensures
        (next.0@, next.1@) == upload_after_reply(
            crate::client::fetch_client::reply_view(reply),
            fallback,
        ),
{
    match receive(reply) {
        Reception::Accept(status) => {
            if status == STATUS_DONE {
                (State::Success, Action::Finish(Ok(())))
            } else {
                (State::ReadingText(status), Action::ReadText)
            }
        },
        Reception::Refuse(status) => {
            if fallback {
                (State::FallbackRefused(status), Action::ReadText)
            } else {
                (State::PrimaryRefused(status), Action::ReadText)
            }
        },
        Reception::Fail(e) => (State::Failed, Action::Finish(Err(e))),
    }
}

/// Ends the task after a response was turned down with this error.
pub fn after_refusal(error: LfaError) -> (next: (State, Action))
    ensures
        (next.0@, next.1@) == upload_after_refusal(error@),
{
    if error.is_conflict() {
        (State::Success, Action::Finish(Ok(())))
    } else {
        (State::Failed, Action::Finish(Err(error)))
    }
}

impl ClientTrait for R2Client {
    open spec fn steps(
        &self,
        task: AssetsTaskView,
        state: StateView,
        event: EventView,
        next: (StateView, ActionView),
    ) -> bool {
        next == upload_step(self@, task, state, event)
    }

    proof fn lemma_steps_keep_protocol(
        &self,
        task: AssetsTaskView,
        state: StateView,
        event: EventView,
        next: (StateView, ActionView),
    ) {
    }

    fn do_task(&self, task: &AssetsTask, state: State, event: Event) -> (next: (State, Action)) {
        match (state, event) {
            (State::Start, Event::Begin) => {
                let key = task.destination();
                begin_attempt(
                    self.upload_file(task.url.as_str(), key.as_str()),
                    State::PrimaryAttempt,
                )
            },
            (State::PrimaryAttempt, Event::Replied(reply)) => after_reply(reply, false),
            (State::PrimaryRefused(status), Event::Text(text)) => {
                let error = refuse(status, text);
                if error.is_not_found() {
                    if let Some(fallback_url) = &task.fallback_url {
                        let key = task.destination();
                        return begin_attempt(
                            self.upload_file(fallback_url.as_str(), key.as_str()),
                            State::FallbackAttempt,
                        );
                    }
                }
                after_refusal(error)
            },
            (State::FallbackAttempt, Event::Replied(reply)) => after_reply(reply, true),
            (State::FallbackRefused(status), Event::Text(text)) => after_refusal(
                refuse(status, text),
            ),
            (State::ReadingText(status), Event::Text(Ok(text))) => (
                State::Failed,
                Action::Finish(Err(LfaError::UploadFailed(status, text))),
            ),
            (State::ReadingText(_), Event::Text(Err(reason))) => (
                State::Failed,
                Action::Finish(Err(LfaError::RequestError(reason))),
            ),
            (state, _) => (state, Action::Idle),
        }
    }
}

/// How far the upload backend has come with a task. No step leads back.
pub open spec fn upload_progress(state: StateView) -> nat {
    match state {
        StateView::Start => 0,
        StateView::PrimaryAttempt => 1,
        StateView::PrimaryRefused(_) => 2,
        StateView::FallbackAttempt => 3,
        StateView::FallbackRefused(_) => 4,
        StateView::ReadingText(_) => 5,
        _ => 6,
    }
}

/// Once the primary attempt is settled, the upload backend sends nothing
/// more: a run that starts after it asks for no request.
pub proof fn lemma_upload_sends_nothing_later(
    client: &R2Client,
    task: AssetsTaskView,
    states: Seq<StateView>,
    events: Seq<EventView>,
    actions: Seq<ActionView>,
)
    requires
        is_run(client, task, states, events, actions),
        upload_progress(states[0]) >= 3,
    ensures
        requests(actions) == Seq::<RequestView>::empty(),
    decreases events.len(),
{
    if events.len() > 0 {
        lemma_rest_of_run(client, task, states, events, actions);
        lemma_upload_sends_nothing_later(
            client,
            task,
            states.drop_first(),
            events.drop_first(),
            actions.drop_first(),
        );
    }
}

/// The requests that a run of the upload backend may ask for once the
/// primary request is under way: none, or the one that names the fallback
/// URL.
pub open spec fn upload_requests_after_primary(
    client: R2ClientView,
    task: AssetsTaskView,
    sent: Seq<RequestView>,
) -> bool {
    ||| sent == Seq::<RequestView>::empty()
    ||| task.fallback_url is Some && sent == seq![
        upload_request(client, task.fallback_url->0, task.destination()),
    ]
}

/// A run that goes on while the primary attempt is not settled asks for one
/// request at most, and for none but the one that names the fallback URL.
pub proof fn lemma_upload_requests_after_primary(
    client: &R2Client,
    task: AssetsTaskView,
    states: Seq<StateView>,
    events: Seq<EventView>,
    actions: Seq<ActionView>,
)
    requires
        is_run(client, task, states, events, actions),
        states[0] == StateView::PrimaryAttempt || states[0] is PrimaryRefused,
    ensures
        upload_requests_after_primary(client@, task, requests(actions)),
    decreases events.len(),
{
    if events.len() > 0 {
        lemma_rest_of_run(client, task, states, events, actions);
        let rest_states = states.drop_first();
        let rest_events = events.drop_first();
        let rest_actions = actions.drop_first();
        if states[1] == StateView::PrimaryAttempt || states[1] is PrimaryRefused {
            lemma_upload_requests_after_primary(
                client,
                task,
                rest_states,
                rest_events,
                rest_actions,
            );
        } else {
            lemma_upload_sends_nothing_later(
                client,
                task,
                rest_states,
                rest_events,
                rest_actions,
            );
        }
    }
}

/// No work is done twice: a run of a task from its start asks for two
/// requests at most, the first naming the primary URL and the second, if
/// any, the fallback URL.
pub proof fn lemma_upload_requests_from_start(
    client: &R2Client,
    task: AssetsTaskView,
    states: Seq<StateView>,
    events: Seq<EventView>,
    actions: Seq<ActionView>,
)
    requires
        is_run(client, task, states, events, actions),
        states[0] == StateView::Start,
    ensures
        requests(actions) == Seq::<RequestView>::empty() || (requests(actions).len() > 0
            && requests(actions)[0] == upload_request(client@, task.url, task.destination())
            && upload_requests_after_primary(client@, task, requests(actions).drop_first())),
    decreases events.len(),
{
    if events.len() > 0 {
        lemma_rest_of_run(client, task, states, events, actions);
        let rest_states = states.drop_first();
        let rest_events = events.drop_first();
        let rest_actions = actions.drop_first();
        if states[1] == StateView::Start {
            lemma_upload_requests_from_start(
                client,
                task,
                rest_states,
                rest_events,
                rest_actions,
            );
        } else {
            lemma_upload_requests_after_primary(
                client,
                task,
                rest_states,
                rest_events,
                rest_actions,
            );
            assert(requests(actions).drop_first() =~= requests(rest_actions));
        }
    }
}

/// The fallback is tried exactly when the proxy could not find the primary
/// URL.
///
/// Take any run that goes on from the primary attempt with a response that
/// is turned down, and then with its text. If the status is 404 and the
/// task has a fallback URL, the rest of the run asks for exactly one
/// request, the one that names the fallback URL. In every other case it
/// asks for none, and the task ends at once: in success where the status is
/// 409, and with the error of status and text otherwise.
pub proof fn lemma_upload_falls_back_once(
    client: &R2Client,
    task: AssetsTaskView,
    states: Seq<StateView>,
    events: Seq<EventView>,
    actions: Seq<ActionView>,
    status: u16,
    text: Result<Seq<char>, Seq<char>>,
)
    requires
        is_run(client, task, states, events, actions),
        events.len() >= 2,
        states[0] == StateView::PrimaryAttempt,
        events[0] == EventView::Replied(Ok(status)),
        !status_is_success(status),
        events[1] == EventView::Text(text),
    ensures
        status == 404 && task.fallback_url is Some ==> requests(actions) == seq![
            upload_request(client@, task.fallback_url->0, task.destination()),
        ],
        !(status == 404 && task.fallback_url is Some) ==> {
            &&& requests(actions) == Seq::<RequestView>::empty()
            &&& actions[1] == if status == 409 {
                ActionView::Finish(Ok(()))
            } else {
                ActionView::Finish(Err(refusal_of(status, text)))
            }
        },
{
    lemma_rest_of_run(client, task, states, events, actions);
    let states1 = states.drop_first();
    let events1 = events.drop_first();
    let actions1 = actions.drop_first();
    lemma_rest_of_run(client, task, states1, events1, actions1);
    lemma_upload_sends_nothing_later(
        client,
        task,
        states1.drop_first(),
        events1.drop_first(),
        actions1.drop_first(),
    );
    assert(requests(actions) =~= requests(actions1));
}

/// A task whose primary URL the proxy cannot find is asked for twice, and no
/// more.
///
/// Take any run of a task with a fallback URL that starts with the task
/// being taken up, the answer 404 to the first request, and the text of that
/// answer. The run asks for exactly two requests: the first names the
/// primary URL, the second the fallback URL, and both the destination of the
/// task.
pub proof fn lemma_upload_asks_twice(
    client: &R2Client,
    task: AssetsTaskView,
    states: Seq<StateView>,
    events: Seq<EventView>,
    actions: Seq<ActionView>,
)
    requires
        is_run(client, task, states, events, actions),
        events.len() >= 3,
        states[0] == StateView::Start,
        events[0] == EventView::Begin,
        events[1] == EventView::Replied(Ok(404)),
        events[2] is Text,
        task.fallback_url is Some,
    ensures
        requests(actions) == seq![
            upload_request(client@, task.url, task.destination()),
            upload_request(client@, task.fallback_url->0, task.destination()),
        ],
{
    lemma_rest_of_run(client, task, states, events, actions);
    let rest_actions = actions.drop_first();
    lemma_upload_falls_back_once(
        client,
        task,
        states.drop_first(),
        events.drop_first(),
        rest_actions,
        404,
        events[2]->Text_0,
    );
    assert(requests(actions) =~= seq![upload_request(client@, task.url, task.destination())]
        + requests(rest_actions));
}

/// That the object is kept already is success.
///
/// Take any run that goes on from an attempt, the primary or the fallback
/// one, with the answer 409 and then with its text. The task ends in
/// success, and the run asks for no request.
pub proof fn lemma_upload_conflict_is_success(
    client: &R2Client,
    task: AssetsTaskView,
    states: Seq<StateView>,
    events: Seq<EventView>,
    actions: Seq<ActionView>,
)
    requires
        is_run(client, task, states, events, actions),
        events.len() >= 2,
        states[0] == StateView::PrimaryAttempt || states[0] == StateView::FallbackAttempt,
        events[0] == EventView::Replied(Ok(409)),
        events[1] is Text,
    ensures
        actions[1] == ActionView::Finish(Ok(())),
        states[2] == StateView::Success,
        requests(actions) == Seq::<RequestView>::empty(),
{
    lemma_rest_of_run(client, task, states, events, actions);
    let states1 = states.drop_first();
    let events1 = events.drop_first();
    let actions1 = actions.drop_first();
    lemma_rest_of_run(client, task, states1, events1, actions1);
    lemma_upload_sends_nothing_later(
        client,
        task,
        states1.drop_first(),
        events1.drop_first(),
        actions1.drop_first(),
    );
    assert(requests(actions) =~= requests(actions1));
}

} // verus!
