//! The lenient form of the transport that resolves addresses by itself: it
//! turns to the fallback address after a failed request as well, and reports
//! a fallback response that it does not accept by its status alone.

use crate::client::client_trait::{Action, Event, State};
use crate::client::fetch_client::Request;
use crate::fetch_client::{assets_get_either, assets_get_step, plain_get, plain_get_request};
use crate::types::utils::Config;
use vstd::prelude::*;

verus! {

/// The settings of the transport.
#[derive(Debug, Clone, Copy, PartialEq, Eq)]
pub struct FetchClient {
    /// How many times a request that failed in passing is sent again.
    pub max_retries: u32,
}

impl FetchClient {
    pub fn new(max_retries: u32) -> (client: Self)
        ensures
            client.max_retries == max_retries,
    {
        Self { max_retries }
    }

    pub fn default() -> (client: Self)
        ensures
            client.max_retries == 3,
    {
        Self::new(3)
    }

    /// The request that fetches `url`; its response is handed on whatever
    /// its status.
    pub fn get(&self, url: &str) -> (request: Request)
        ensures
            request@ == plain_get_request(url@),
    {
        plain_get(String::from_str(url))
    }

    /// Takes one step in fetching the asset at `ori_url`: the address in the
    /// context `config` first, the fallback address after a response that
    /// was not accepted or a request that failed. The task ends in success
    /// as soon as a response is accepted; that response is the caller's to
    /// read.
    pub fn assets_get(&self, ori_url: &str, config: &Config, state: State, event: Event) -> (next:
        (State, Action))
        ensures
            (next.0@, next.1@) == assets_get_step(true, ori_url@, config@, state@, event@),
    {
        assets_get_either(true, ori_url, config, state, event)
    }
}

} // verus!
