//! The transport, seen from the side of the backends: which requests it is
//! asked to send, which responses it accepts, and which failures it tries
//! again.

use crate::error::{error_of_status, LfaError, LfaErrorView};
use vstd::prelude::*;

verus! {

/// Number of retries of a transport that was not told otherwise.
pub const DEFAULT_MAX_RETRIES: u32 = 3;

/// Name of the header that states the kind of a request's body.
pub const CONTENT_TYPE: &'static str = "Content-Type";

/// The kind of body that every request of this crate announces.
pub const APPLICATION_JSON: &'static str = "application/json";

#[derive(Debug, Clone, Copy, PartialEq, Eq)]
pub enum Method {
    Get,
    Post,
}

/// One header line of a request.
#[derive(Debug, Clone, PartialEq, Eq)]
pub struct Header {
    pub name: String,
    pub value: String,
}

/// The mathematical value of a [`Header`].
pub struct HeaderView {
    pub name: Seq<char>,
    pub value: Seq<char>,
}

impl View for Header {
    type V = HeaderView;

    open spec fn view(&self) -> HeaderView {
        HeaderView { name: self.name@, value: self.value@ }
    }
}

/// A request for the transport to send.
#[derive(Debug, Clone, PartialEq, Eq)]
pub struct Request {
    pub method: Method,
    pub url: String,
    pub headers: Vec<Header>,
    pub body: Option<String>,
}

/// The mathematical value of a [`Request`].
pub struct RequestView {
    pub method: Method,
    pub url: Seq<char>,
    pub headers: Seq<HeaderView>,
    pub body: Option<Seq<char>>,
}

/// The values of a sequence of headers.
pub open spec fn header_views(headers: Seq<Header>) -> Seq<HeaderView> {
    Seq::new(headers.len(), |i: int| headers[i]@)
}

impl View for Request {
    type V = RequestView;

    open spec fn view(&self) -> RequestView {
        RequestView {
            method: self.method,
            url: self.url@,
            headers: header_views(self.headers@),
            body: self.body.deep_view(),
        }
    }
}

/// The request by which the transport fetches `url`.
pub open spec fn get_request(url: Seq<char>) -> RequestView {
    RequestView {
        method: Method::Get,
        url,
        headers: seq![HeaderView { name: CONTENT_TYPE@, value: APPLICATION_JSON@ }],
        body: None,
    }
}

/// The request by which the transport posts `body` to `url`.
pub open spec fn post_request(url: Seq<char>, headers: Seq<HeaderView>, body: Seq<char>)
    -> RequestView {
    RequestView { method: Method::Post, url, headers, body: Some(body) }
}

/// Whether a response with this status is handed to the caller as it is.
pub open spec fn status_is_success(status: u16) -> bool {
    200 <= status < 300
}

/// Whether a response with this status is handed to the caller as it is:
/// the statuses from 200 up to, not including, 300.
pub fn is_success(status: u16) -> (accepted: bool)
    ensures
        accepted == status_is_success(status),
{
    200 <= status && status < 300
}

/// What the transport makes of the reply to a request.
#[derive(Debug, Clone, PartialEq, Eq)]
pub enum Reception {
    /// A response with this status arrived and is handed on as it is, for
    /// the caller to read.
    Accept(u16),
    /// A response with this status arrived and is turned down: its text is
    /// to be read, and status and text make the error.
    Refuse(u16),
    /// No response arrived: the request has failed with this error.
    Fail(LfaError),
}

/// The mathematical value of a [`Reception`].
pub enum ReceptionView {
    Accept(u16),
    Refuse(u16),
    Fail(LfaErrorView),
}

impl View for Reception {
    type V = ReceptionView;

    open spec fn view(&self) -> ReceptionView {
        match self {
            Reception::Accept(status) => ReceptionView::Accept(*status),
            Reception::Refuse(status) => ReceptionView::Refuse(*status),
            Reception::Fail(e) => ReceptionView::Fail(e@),
        }
    }
}

/// What the transport makes of a reply: a response is accepted exactly when
/// its status is one of success, and turned down otherwise; a request that
/// brought no response has failed, for the reason told.
pub open spec fn reception_of(reply: Result<u16, Seq<char>>) -> ReceptionView {
    match reply {
        Ok(status) => if status_is_success(status) {
            ReceptionView::Accept(status)
        } else {
            ReceptionView::Refuse(status)
        },
        Err(reason) => ReceptionView::Fail(LfaErrorView::RequestMiddleWareError(reason)),
    }
}

/// The error that a response stands for which was turned down: the one of
/// its status, with its text, or with no text where that could not be read.
pub open spec fn refusal_of(status: u16, text: Result<Seq<char>, Seq<char>>) -> LfaErrorView {
    error_of_status(
        status,
        match text {
            Ok(text) => text,
            Err(_) => Seq::empty(),
        },
    )
}

/// The value of a reply.
pub open spec fn reply_view(reply: Result<u16, String>) -> Result<u16, Seq<char>> {
    match reply {
        Ok(status) => Ok(status),
        Err(reason) => Err(reason@),
    }
}

/// The value of a text that was read, or of the reason why it was not.
pub open spec fn text_view(text: Result<String, String>) -> Result<Seq<char>, Seq<char>> {
    match text {
        Ok(text) => Ok(text@),
        Err(reason) => Err(reason@),
    }
}

/// Decides what becomes of the reply to a request: a response with this
/// status has arrived, or none has, for the reason told.
pub fn receive(reply: Result<u16, String>) -> (reception: Reception)
    ensures
        reception@ == reception_of(reply_view(reply)),
{
    match reply {
        Ok(status) => {
            if is_success(status) {
                Reception::Accept(status)
            } else {
                Reception::Refuse(status)
            }
        },
        Err(reason) => Reception::Fail(LfaError::RequestMiddleWareError(reason)),
    }
}

/// Makes the error of a response that was turned down, from its status and
/// from its text as far as that could be read.
pub fn refuse(status: u16, text: Result<String, String>) -> (error: LfaError)
    ensures
        error@ == refusal_of(status, text_view(text)),
{
    match text {
        Ok(text) => LfaError::from_response(status, text),
        Err(_) => LfaError::from_response(status, String::new()),
    }
}

/// How one attempt to send a request ended.
#[derive(Debug, Clone, Copy, PartialEq, Eq)]
pub enum Attempt {
    /// A response arrived; it carries this status.
    Answered(u16),
    /// No connection could be made.
    ConnectionFailed,
    /// The request ran out of time.
    TimedOut,
    /// The request failed in some way that trying again will not mend.
    Broken,
}

impl Attempt {
    /// The attempt failed in passing: no connection, or no answer in time.
    pub open spec fn transient(self) -> bool {
        self is ConnectionFailed || self is TimedOut
    }

    /// Whether the attempt failed in a way that another attempt may mend.
    pub fn is_transient(&self) -> (transient: bool)
        ensures
            transient == self.transient(),
    {
        match self {
            Attempt::ConnectionFailed | Attempt::TimedOut => true,
            _ => false,
        }
    }
}

/// The settings of the retrying transport.
#[derive(Debug, Clone, Copy, PartialEq, Eq)]
pub struct FetchClient {
    /// How many times a request is sent again after an attempt that failed
    /// in passing.
    pub max_retries: u32,
}

impl FetchClient {
    pub fn new(max_retries: u32) -> (client: Self)
        ensures
            client.max_retries == max_retries,
    {
        Self { max_retries }
    }

    pub fn default() -> (client: Self)
        ensures
            client.max_retries == DEFAULT_MAX_RETRIES,
    {
        Self::new(DEFAULT_MAX_RETRIES)
    }

    /// The request that fetches `url`.
    pub fn get(&self, url: &str) -> (request: Request)
        ensures
            request@ == get_request(url@),
    {
        let mut headers = Vec::new();
        headers.push(
            Header {
                name: String::from_str(CONTENT_TYPE),
                value: String::from_str(APPLICATION_JSON),
            },
        );
        let request = Request {
            method: Method::Get,
            url: String::from_str(url),
            headers,
            body: None,
        };
        assert(request@.headers =~= get_request(url@).headers);
        request
    }

    /// The request that posts `body` to `url` under `headers`.
    pub fn post(&self, url: &str, headers: Vec<Header>, body: String) -> (request: Request)
        ensures
            request@ == post_request(url@, header_views(headers@), body@),
    {
        Request { method: Method::Post, url: String::from_str(url), headers, body: Some(body) }
    }
}

} // verus!
