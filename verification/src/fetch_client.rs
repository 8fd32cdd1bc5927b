//! A transport that resolves the address of an asset by itself and fetches
//! it: it turns to the fallback address after any response that it does not
//! accept.

use crate::client::client_trait::{Action, ActionView, Event, EventView, State, StateView};
use crate::client::fetch_client::{status_is_success, is_success, Method, Request, RequestView};
use crate::error::{LfaError, LfaErrorView};
use crate::types::utils::{
    cdragon_url, fallback_context, get_cdragon_url, Config, ConfigView,
};
use vstd::prelude::*;

verus! {

/// The settings of the transport.
#[derive(Debug, Clone, Copy, PartialEq, Eq)]
pub struct FetchClient {
    /// How many times a request that failed in passing is sent again.
    pub max_retries: u32,
}

/// The request that fetches `url` and says nothing more.
pub open spec fn plain_get_request(url: Seq<char>) -> RequestView {
    RequestView { method: Method::Get, url, headers: Seq::empty(), body: None }
}

/// The step that the transport takes while it fetches the asset at `path`.
///
/// `lenient` tells the two forms of the transport apart. The strict one
/// ends the task when the primary request fails, and ends it with the
/// status and the text of the fallback response when that is not accepted.
/// The lenient one turns to the fallback address when the primary request
/// fails too, and ends the task with the status of the fallback response
/// alone.
pub open spec fn assets_get_step(
    lenient: bool,
    path: Seq<char>,
    config: ConfigView,
    state: StateView,
    event: EventView,
) -> (StateView, ActionView) {
    let fallback = (
        StateView::FallbackAttempt,
        ActionView::Send(plain_get_request(cdragon_url(path, fallback_context()))),
    );
    match (state, event) {
        (StateView::Start, EventView::Begin) => (
            StateView::PrimaryAttempt,
            ActionView::Send(plain_get_request(cdragon_url(path, config))),
        ),
        (StateView::PrimaryAttempt, EventView::Replied(Ok(status))) => {
            if status_is_success(status) {
                (StateView::Success, ActionView::Finish(Ok(())))
            } else {
                fallback
            }
        },
        (StateView::PrimaryAttempt, EventView::Replied(Err(reason))) => {
            if lenient {
                fallback
            } else {
                (
                    StateView::Failed,
                    ActionView::Finish(Err(LfaErrorView::RequestMiddleWareError(reason))),
                )
            }
        },
        (StateView::FallbackAttempt, EventView::Replied(Ok(status))) => {
            if status_is_success(status) {
                (StateView::Success, ActionView::Finish(Ok(())))
            } else if lenient {
                (
                    StateView::Failed,
                    ActionView::Finish(
                        Err(LfaErrorView::UnexpectedStatusCode(status, Seq::empty())),
                    ),
                )
            } else {
                (StateView::FallbackRefused(status), ActionView::ReadText)
            }
        },
        (StateView::FallbackAttempt, EventView::Replied(Err(reason))) => (
            StateView::Failed,
            ActionView::Finish(Err(LfaErrorView::RequestMiddleWareError(reason))),
        ),
        (StateView::FallbackRefused(status), EventView::Text(Ok(text))) => (
            StateView::Failed,
            ActionView::Finish(Err(LfaErrorView::UploadFailed(status, text))),
        ),
        (StateView::FallbackRefused(_), EventView::Text(Err(reason))) => (
            StateView::Failed,
            ActionView::Finish(Err(LfaErrorView::RequestError(reason))),
        ),
        _ => (state, ActionView::Idle),
    }
}

/// The request that fetches `url` and says nothing more.
pub fn plain_get(url: String) -> (request: Request)
    ensures
        request@ == plain_get_request(url@),
{
    let request = Request { method: Method::Get, url, headers: Vec::new(), body: None };
    assert(request@.headers =~= Seq::empty());
    request
}

/// Takes one step of either form of the transport.
pub fn assets_get_either(lenient: bool, path: &str, config: &Config, state: State, event: Event) -> (next:
    (State, Action))
    ensures
        (next.0@, next.1@) == assets_get_step(lenient, path@, config@, state@, event@),
{
    match (state, event) {
        (State::Start, Event::Begin) => (
            State::PrimaryAttempt,
            Action::Send(plain_get(get_cdragon_url(path, config))),
        ),
        (State::PrimaryAttempt, Event::Replied(Ok(status))) => {
            if is_success(status) {
                (State::Success, Action::Finish(Ok(())))
            } else {
                let fallback = Config::fallback();
                (State::FallbackAttempt, Action::Send(plain_get(get_cdragon_url(path, &fallback))))
            }
        },
        (State::PrimaryAttempt, Event::Replied(Err(reason))) => {
            if lenient {
                let fallback = Config::fallback();
                (State::FallbackAttempt, Action::Send(plain_get(get_cdragon_url(path, &fallback))))
            } else {
                (State::Failed, Action::Finish(Err(LfaError::RequestMiddleWareError(reason))))
            }
        },
        (State::FallbackAttempt, Event::Replied(Ok(status))) => {
            if is_success(status) {
                (State::Success, Action::Finish(Ok(())))
            } else if lenient {
                (
                    State::Failed,
                    Action::Finish(Err(LfaError::UnexpectedStatusCode(status, String::new()))),
                )
            } else {
                (State::FallbackRefused(status), Action::ReadText)
            }
        },
        (State::FallbackAttempt, Event::Replied(Err(reason))) => (
            State::Failed,
            Action::Finish(Err(LfaError::RequestMiddleWareError(reason))),
        ),
        (State::FallbackRefused(status), Event::Text(Ok(text))) => (
            State::Failed,
            Action::Finish(Err(LfaError::UploadFailed(status, text))),
        ),
        (State::FallbackRefused(_), Event::Text(Err(reason))) => (
            State::Failed,
            Action::Finish(Err(LfaError::RequestError(reason))),
        ),
        (state, _) => (state, Action::Idle),
    }
}

impl FetchClient {
    pub fn new(max_retries: u32) -> (client: Self)
        ensures
            client.max_retries == max_retries,
    {
        Self { max_retries }
    }

    pub fn default() -> (client: Self)
        ensures
            client.max_retries == 3,
    {
        Self::new(3)
    }

    /// The request that fetches `url`; its response is handed on whatever
    /// its status.
    pub fn get(&self, url: &str) -> (request: Request)
        ensures
            request@ == plain_get_request(url@),
    {
        plain_get(String::from_str(url))
    }

    /// Takes one step in fetching the asset at `ori_url`: the address in the
    /// context `config` first, the fallback address after a response that
    /// was not accepted. The task ends in success as soon as a response is
    /// accepted; that response is the caller's to read.
    pub fn assets_get(&self, ori_url: &str, config: &Config, state: State, event: Event) -> (next:
        (State, Action))
        ensures
            (next.0@, next.1@) == assets_get_step(false, ori_url@, config@, state@, event@),
    {
        assets_get_either(false, ori_url, config, state, event)
    }
}

} // verus!
