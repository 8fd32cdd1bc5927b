//! A client of the upload proxy that names an object by `url` and `name`
//! and judges every response by itself.

use crate::client::fetch_client::{
    header_views, is_success, post_request, status_is_success, Header, HeaderView, Method,
    Request, RequestView,
};
use crate::client::r2_client::{json_string, json_text, AUTHORIZATION, BEARER, DELETE_PATH, FETCH_SAVE_PATH};
use crate::error::{LfaError, LfaErrorView};
use vstd::prelude::*;

verus! {

/// The client of the proxy at `worker_url`.
#[derive(Debug, Clone)]
pub struct R2Client {
    pub worker_url: String,
    pub token: String,
}

/// The body that names an object by the encoded `url` and `name`.
pub open spec fn framed_body(url: Seq<char>, name: Seq<char>) -> Seq<char> {
    "{\"url\":"@ + url + ",\"name\":"@ + name + "}"@
}

/// The request that posts the object `url`, `name` to `path` of the proxy.
pub open spec fn proxy_request(
    worker_url: Seq<char>,
    token: Seq<char>,
    path: Seq<char>,
    url: Seq<char>,
    name: Seq<char>,
) -> RequestView {
    post_request(
        worker_url + path,
        seq![HeaderView { name: AUTHORIZATION@, value: BEARER@ + token }],
        framed_body(json_string(url), json_string(name)),
    )
}

/// What a response to an upload means: done, kept already, or failed.
pub open spec fn upload_outcome_of(status: u16, text: Seq<char>) -> Result<(), LfaErrorView> {
    if status_is_success(status) {
        Ok(())
    } else if status == 409 {
        Err(LfaErrorView::FileExists(text))
    } else {
        Err(LfaErrorView::UploadFailed(status, text))
    }
}

/// What a response to a removal means: done, nothing there, or failed.
pub open spec fn delete_outcome_of(status: u16, text: Seq<char>) -> Result<(), LfaErrorView> {
    if status_is_success(status) {
        Ok(())
    } else if status == 404 {
        Err(LfaErrorView::FileNotExists(text))
    } else {
        Err(LfaErrorView::UploadFailed(status, text))
    }
}

/// Writes the body that names an object, from its two strings encoded
/// already: `url`, then `name`.
pub fn frame_body(url: &str, name: &str) -> (body: String)
    ensures
        body@ == framed_body(url@, name@),
{
    let mut body = String::from_str("{\"url\":");
    body.append(url);
    body.append(",\"name\":");
    body.append(name);
    body.append("}");
    body
}

impl R2Client {
    /// The client that the environment describes, from the values of its
    /// two variables as the caller found them; nothing where one is not set.
    pub fn try_from_env(worker_url: Option<String>, token: Option<String>) -> (client: Option<
        Self,
    >)
        ensures
            match (worker_url, token) {
                (Some(url), Some(token)) => client matches Some(c) && c.worker_url == url
                    && c.token == token,
                _ => client is None,
            },
    {
        match (worker_url, token) {
            (Some(worker_url), Some(token)) => Some(Self { worker_url, token }),
            _ => None,
        }
    }

    /// The request that posts the object `url`, `name` to `path`.
    fn request(&self, path: &str, url: &str, name: &str) -> (request: Result<Request, LfaError>)
        ensures
            request matches Ok(r) && r@ == proxy_request(
                self.worker_url@,
                self.token@,
                path@,
                url@,
                name@,
            ),
    {
        let url = match json_text(url) {
            Ok(text) => text,
            Err(e) => {
                return Err(e);
            },
        };
        let name = match json_text(name) {
            Ok(text) => text,
            Err(e) => {
                return Err(e);
            },
        };
        let mut endpoint = self.worker_url.clone();
        endpoint.append(path);
        let mut bearer = String::from_str(BEARER);
        bearer.append(self.token.as_str());
        let mut headers = Vec::new();
        headers.push(Header { name: String::from_str(AUTHORIZATION), value: bearer });
        let request = Request {
            method: Method::Post,
            url: endpoint,
            headers,
            body: Some(frame_body(url.as_str(), name.as_str())),
        };
        assert(header_views(request.headers@) =~= seq![
            HeaderView { name: AUTHORIZATION@, value: BEARER@ + self.token@ },
        ]);
        Ok(request)
    }

    /// The request that has the proxy fetch `download_url` and keep it as
    /// `name`. Writing the request does not fail.
    pub fn upload_file(&self, download_url: &str, name: &str) -> (request: Result<
        Request,
        LfaError,
    >)
        ensures
            request matches Ok(r) && r@ == proxy_request(
                self.worker_url@,
                self.token@,
                FETCH_SAVE_PATH@,
                download_url@,
                name@,
            ),
    {
        self.request(FETCH_SAVE_PATH, download_url, name)
    }

    /// The request that has the proxy remove what it keeps as `name`.
    /// Writing the request does not fail.
    pub fn delete_file(&self, name: &str) -> (request: Result<Request, LfaError>)
        ensures
            request matches Ok(r) && r@ == proxy_request(
                self.worker_url@,
                self.token@,
                DELETE_PATH@,
                ""@,
                name@,
            ),
    {
        self.request(DELETE_PATH, "", name)
    }

    /// Judges the response to an upload by its status: accepted is done,
    /// 409 says that the object is kept already, anything else has failed.
    pub fn upload_outcome(status: u16, text: String) -> (outcome: Result<(), LfaError>)
        ensures
            crate::client::client_trait::outcome_view(outcome) == upload_outcome_of(status, text@),
    {
        if is_success(status) {
            Ok(())
        } else if status == 409 {
            Err(LfaError::FileExists(text))
        } else {
            Err(LfaError::UploadFailed(status, text))
        }
    }

    /// Judges the response to a removal by its status: accepted is done,
    /// 404 says that nothing was kept, anything else has failed.
    pub fn delete_outcome(status: u16, text: String) -> (outcome: Result<(), LfaError>)
        ensures
            crate::client::client_trait::outcome_view(outcome) == delete_outcome_of(status, text@),
    {
        if is_success(status) {
            Ok(())
        } else if status == 404 {
            Err(LfaError::FileNotExists(text))
        } else {
            Err(LfaError::UploadFailed(status, text))
        }
    }
}

} // verus!
