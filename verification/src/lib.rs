//! Client core for a remote document-database web service: request
//! building, classification of transport failures into a small error
//! taxonomy, and a bounded retry loop honoring server-provided timing.

pub mod api;
pub mod failure;
pub mod http;
pub mod json;
pub mod parameters;
pub mod text;

pub use failure::Error as NotionApiClientError;
pub use parameters::ClientParameters;
pub use parameters::ClientParameters as NotionApiClientParameters;
pub use parameters::RetryParameters;

use vstd::prelude::*;
use vstd::string::StringExecFns;
use crate::api::PRODUCTION_BASE_URL;

verus! {

/// The client configuration of the older entry points: credential and
/// endpoint. Immutable once built; the transport that carries the
/// requests lives with the caller.
pub struct NotionApiClient {
    api_key: String,
    base_url: String,
}

impl NotionApiClient {
    /// The credential sent with every request.
    pub closed spec fn spec_api_key(&self) -> Seq<char> {
        self.api_key@
    }

    /// The endpoint requests are addressed to.
    pub closed spec fn spec_base_url(&self) -> Seq<char> {
        self.base_url@
    }

    /// A client from its parameters: the production endpoint unless the
    /// caller overrides it.
    pub fn new(parameters: ClientParameters) -> (c: Self)
        ensures
            c.spec_api_key() == parameters.api_key@,
            c.spec_base_url() == (match parameters.base_url_override {
                Option::Some(u) => u@,
                Option::None => PRODUCTION_BASE_URL@,
            }),
    {
        let base_url = match parameters.base_url_override {
            Some(u) => u,
            None => String::from_str(PRODUCTION_BASE_URL),
        };
        NotionApiClient { api_key: parameters.api_key, base_url }
    }

    /// The same configuration as a client of the newer entry points.
    pub fn to_client(&self) -> (c: crate::api::Client)
        ensures
            c.spec_api_key() == self.spec_api_key(),
            c.spec_base_url() == self.spec_base_url(),
    {
        crate::api::Client::new(self.api_key.clone()).base_url(self.base_url.clone())
    }
}

} // verus!
