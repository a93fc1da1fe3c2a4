//! Parameters of the older entry points: client construction and the
//! retry wrapper's substitutable wait.

use vstd::prelude::*;

verus! {

/// What a client needs at construction: the credential, and an endpoint
/// override for callers that do not talk to the production service.
pub struct ClientParameters {
    pub api_key: String,
    pub base_url_override: Option<String>,
}

/// The retry wrapper's options: a substitutable wait primitive, in
/// place of the default blocking sleep.
pub struct RetryParameters<F> {
    pub custom_sleep: Option<F>,
}

impl<F> Default for RetryParameters<F> {
    /// No custom wait: the default blocking sleep is used.
    fn default() -> (r: Self)
        ensures
            r.custom_sleep is None,
    {
        RetryParameters { custom_sleep: None }
    }
}

} // verus!
