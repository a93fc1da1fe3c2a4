//! The coarser failure report kept for callers of the older entry
//! points: rate limit with its wait, plain status, or transport text.

use vstd::prelude::*;
use vstd::string::StrSliceExecFns;
use vstd::string::StringExecFns;
use crate::http::TransportOutcome;
use crate::http::spec_is_success_status;
use crate::api::failure::retry_after_millis;
use crate::api::failure::spec_retry_after_millis;
use crate::text::millis_to_string;
use crate::text::spec_dec;
use crate::text::spec_millis_text;
use crate::text::u64_to_string;

verus! {

/// What went wrong with one request: a server-requested backoff (with
/// its wait in milliseconds), a plain non-success status, or a
/// connection-level failure with its description.
pub enum Error {
    RateLimit(u64),
    Status(u16),
    Transport(String),
}

impl Error {
    /// The text this failure reports.
    pub open spec fn spec_message(&self) -> Seq<char> {
        match self {
            Error::RateLimit(ms) => "Notion API request failure. Please retry in "@
                + spec_millis_text(*ms as nat),
            Error::Status(code) => "Notion API request failed with status code "@ + spec_dec(
                *code as nat,
            ),
            Error::Transport(m) => "Notion API request failure: "@ + m@,
        }
    }

    /// Renders the text this failure reports.
    pub fn message(&self) -> (s: String)
        ensures
            s@ == self.spec_message(),
    {
        match self {
            Error::RateLimit(ms) => {
                let mut s = String::from_str("Notion API request failure. Please retry in ");
                let wait = millis_to_string(*ms);
                s.append(wait.as_str());
                s
            },
            Error::Status(code) => {
                let mut s = String::from_str("Notion API request failed with status code ");
                let code_text = u64_to_string(*code as u64);
                s.append(code_text.as_str());
                s
            },
            Error::Transport(m) => {
                let mut s = String::from_str("Notion API request failure: ");
                s.append(m.as_str());
                s
            },
        }
    }
}

/// Maps a failed transport outcome to the failure reported to callers
/// of the older entry points: a connection failure keeps its text, a
/// rate-limited response carries the wait its headers ask for, and any
/// other status is reported as-is.
pub fn api_client_error(outcome: &TransportOutcome) -> (e: Error)
    requires
        outcome matches TransportOutcome::Response(r) ==> !spec_is_success_status(r.status),
    ensures
        outcome matches TransportOutcome::Failure(m) ==> e matches Error::Transport(t) && t@ == m@,
        outcome matches TransportOutcome::Response(r) ==> e == (if r.status == 429 {
            Error::RateLimit(spec_retry_after_millis(r.headers@))
        } else {
            Error::Status(r.status)
        }),
{
    match outcome {
        TransportOutcome::Failure(m) => Error::Transport(m.clone()),
        TransportOutcome::Response(r) => {
            if r.status == 429 {
                Error::RateLimit(retry_after_millis(&r.headers))
            } else {
                Error::Status(r.status)
            }
        },
    }
}

} // verus!
