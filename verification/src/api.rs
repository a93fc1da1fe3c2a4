//! The client proper: configuration, one request builder per operation,
//! interpretation of transport outcomes, and the bounded retry driver.

pub mod failure;
pub mod headers;
pub mod parameters;

use vstd::prelude::*;
use vstd::string::StringExecFns;
use crate::http::HttpRequest;
use crate::http::HttpResponse;
use crate::http::Method;
use crate::http::TransportOutcome;
use crate::http::is_success_status;
use crate::http::spec_headers;
use crate::http::spec_is_success_status;
use crate::json::PayloadError;
use crate::json::json_text_of;
use crate::json::json_value_to_text;
use crate::text::json_escape;
use crate::text::spec_dec;
use crate::text::spec_json_escaped;
use crate::text::u64_to_string;
use crate::api::failure::Error;
use crate::api::failure::ErrorKind;
use crate::api::failure::classify;
use crate::api::failure::spec_classify_detail;
use crate::api::failure::spec_classify_kind;
use crate::api::parameters::CreateDatabaseEntryParameters;
use crate::api::parameters::QueryDatabaseParameters;
use crate::api::parameters::UpdateDatabaseEntryParameters;

verus! {

/// The service endpoint used when the caller overrides nothing.
pub const PRODUCTION_BASE_URL: &'static str = "https://api.notion.com/v1";

/// The client configuration: credential and endpoint. Immutable once
/// built; the transport that carries the requests lives with the caller.
pub struct Client {
    api_key: String,
    base_url: String,
}

impl Client {
    /// The credential sent with every request.
    pub closed spec fn spec_api_key(&self) -> Seq<char> {
        self.api_key@
    }

    /// The endpoint requests are addressed to.
    pub closed spec fn spec_base_url(&self) -> Seq<char> {
        self.base_url@
    }

    /// A client for the production endpoint.
    pub fn new(api_key: String) -> (c: Self)
        ensures
            c.spec_api_key() == api_key@,
            c.spec_base_url() == PRODUCTION_BASE_URL@,
    {
        Client { api_key, base_url: String::from_str(PRODUCTION_BASE_URL) }
    }

    /// The same client, addressed to another endpoint.
    pub fn base_url(self, base_url: String) -> (c: Self)
        ensures
            c.spec_api_key() == self.spec_api_key(),
            c.spec_base_url() == base_url@,
    {
        Client { api_key: self.api_key, base_url }
    }
}

/// The three headers every request carries, in the order they are set.
pub open spec fn spec_request_headers(api_key: Seq<char>) -> Seq<(Seq<char>, Seq<char>)> {
    seq![
        ("Content-Type"@, "application/json"@),
        ("Notion-Version"@, "2022-06-28"@),
        ("Authorization"@, "Bearer "@ + api_key),
    ]
}

/// The body of a create-entry request, around the serialized payload.
pub open spec fn spec_create_entry_body(
    database_id: Seq<char>,
    properties_text: Seq<char>,
) -> Seq<char> {
    "{\"parent\":{\"database_id\":\""@ + spec_json_escaped(database_id) + "\"},\"properties\":"@
        + properties_text + "}"@
}

/// Assembles the create-entry body around an already serialized payload.
pub fn create_entry_body_text(database_id: &str, properties_text: &str) -> (b: String)
    ensures
        b@ == spec_create_entry_body(database_id@, properties_text@),
{
    let mut b = String::from_str("{\"parent\":{\"database_id\":\"");
    let escaped = json_escape(database_id);
    b.append(escaped.as_str());
    b.append("\"},\"properties\":");
    b.append(properties_text);
    b.append("}");
    proof {
        assert(b@ =~= spec_create_entry_body(database_id@, properties_text@));
    }
    b
}

/// Builds the create-entry request: a POST to `{base}/pages` carrying
/// the parent collection and the property payload, under the three
/// fixed headers. Building never fails: serializing the payload is the
/// one failure the result type allows for, and a JSON value always
/// serializes.
pub fn create_database_entry_request(
    client: &Client,
    parameters: &CreateDatabaseEntryParameters,
) -> (r: Result<HttpRequest, PayloadError>)
    ensures
        r is Ok,
        r matches Ok(req) ==> {
            &&& req.method == Method::Post
            &&& req.url@ == client.spec_base_url() + "/pages"@
            &&& spec_headers(req.headers@) == spec_request_headers(client.spec_api_key())
            &&& req.body matches Some(b) && b@ == spec_create_entry_body(
                parameters.database_id@,
                json_text_of(parameters.properties),
            )
        },
{
    let properties_text = match json_value_to_text(&parameters.properties) {
        Some(t) => t,
        None => {
            return Err(PayloadError);
        },
    };
    let mut url = client.base_url.clone();
    url.append("/pages");
    let body = create_entry_body_text(parameters.database_id.as_str(), properties_text.as_str());
    let req = HttpRequest::new(Method::Post, url).set_default_headers().set_authorization_header(
        client.api_key.as_str(),
    ).set_body(body);
    proof {
        assert(spec_headers(req.headers@) =~= spec_request_headers(client.spec_api_key()));
    }
    Ok(req)
}

/// Builds the read-only metadata request: a GET to
/// `{base}/databases/{id}` with no body, under the three fixed headers.
pub fn query_database_properties_request(client: &Client, database_id: &str) -> (req: HttpRequest)
    ensures
        req.method == Method::Get,
        req.url@ == client.spec_base_url() + "/databases/"@ + database_id@,
        spec_headers(req.headers@) == spec_request_headers(client.spec_api_key()),
        req.body is None,
{
    let mut url = client.base_url.clone();
    url.append("/databases/");
    url.append(database_id);
    let req = HttpRequest::new(Method::Get, url).set_default_headers().set_authorization_header(
        client.api_key.as_str(),
    );
    proof {
        assert(spec_headers(req.headers@) =~= spec_request_headers(client.spec_api_key()));
    }
    req
}

/// The page size a query asks for when the caller names none.
pub const DEFAULT_PAGE_SIZE: u32 = 100;

/// The page size a query sends.
pub open spec fn spec_effective_page_size(page_size: Option<u32>) -> u32 {
    match page_size {
        Option::None => DEFAULT_PAGE_SIZE,
        Option::Some(n) => n,
    }
}

/// The text of an optional pagination cursor.
pub open spec fn spec_cursor_view(cursor: Option<String>) -> Option<Seq<char>> {
    match cursor {
        Option::None => Option::None,
        Option::Some(c) => Option::Some(c@),
    }
}

/// The serialized text of an optional filter payload.
pub open spec fn spec_filter_text(filter: Option<serde_json::Value>) -> Option<Seq<char>> {
    match filter {
        Option::None => Option::None,
        Option::Some(v) => Option::Some(json_text_of(v)),
    }
}

/// The body of a query request: the page size always, the cursor and
/// the filter only when present.
pub open spec fn spec_query_body(
    page_size: u32,
    cursor: Option<Seq<char>>,
    filter_text: Option<Seq<char>>,
) -> Seq<char> {
    let sized = "{\"page_size\":"@ + spec_dec(page_size as nat);
    let with_cursor = match cursor {
        Option::None => sized,
        Option::Some(c) => sized + ",\"start_cursor\":\""@ + spec_json_escaped(c) + "\""@,
    };
    let with_filter = match filter_text {
        Option::None => with_cursor,
        Option::Some(f) => with_cursor + ",\"filter\":"@ + f,
    };
    with_filter + "}"@
}

/// Builds the query request: a POST to `{base}/databases/{id}/query`
/// whose body names the page size, and the cursor and filter only when
/// the caller supplied them. Building never fails: serializing the
/// filter is the one failure the result type allows for, and a JSON
/// value always serializes.
pub fn query_database_request(client: &Client, parameters: &QueryDatabaseParameters) -> (r: Result<
    HttpRequest,
    PayloadError,
>)
    requires
        parameters.page_size matches Some(n) ==> n > 0,
    ensures
        r is Ok,
        r matches Ok(req) ==> {
            &&& req.method == Method::Post
            &&& req.url@ == client.spec_base_url() + "/databases/"@ + parameters.database_id@
                + "/query"@
            &&& spec_headers(req.headers@) == spec_request_headers(client.spec_api_key())
            &&& req.body matches Some(b) && b@ == spec_query_body(
                spec_effective_page_size(parameters.page_size),
                spec_cursor_view(parameters.start_cursor),
                spec_filter_text(parameters.filter),
            )
        },
{
    let page_size: u32 = match parameters.page_size {
        Some(n) => n,
        None => DEFAULT_PAGE_SIZE,
    };
    let mut body = String::from_str("{\"page_size\":");
    let page_size_text = u64_to_string(page_size as u64);
    body.append(page_size_text.as_str());
    match &parameters.start_cursor {
        Some(cursor) => {
            body.append(",\"start_cursor\":\"");
            let escaped = json_escape(cursor.as_str());
            body.append(escaped.as_str());
            body.append("\"");
        },
        None => {},
    }
    match &parameters.filter {
        Some(filter) => {
            let filter_text = match json_value_to_text(filter) {
                Some(t) => t,
                None => {
                    return Err(PayloadError);
                },
            };
            body.append(",\"filter\":");
            body.append(filter_text.as_str());
        },
        None => {},
    }
    body.append("}");
    proof {
        assert(body@ =~= spec_query_body(
            spec_effective_page_size(parameters.page_size),
            spec_cursor_view(parameters.start_cursor),
            spec_filter_text(parameters.filter),
        ));
    }
    let mut url = client.base_url.clone();
    url.append("/databases/");
    url.append(parameters.database_id.as_str());
    url.append("/query");
    let req = HttpRequest::new(Method::Post, url).set_default_headers().set_authorization_header(
        client.api_key.as_str(),
    ).set_body(body);
    proof {
        assert(spec_headers(req.headers@) =~= spec_request_headers(client.spec_api_key()));
    }
    Ok(req)
}

/// The body of an update-entry request, around the serialized payload.
pub open spec fn spec_update_entry_body(properties_text: Seq<char>) -> Seq<char> {
    "{\"properties\":"@ + properties_text + "}"@
}

/// Builds the update-entry request: a PATCH to `{base}/pages/{id}`
/// carrying the property payload, under the three fixed headers.
/// Building never fails: serializing the payload is the one failure the
/// result type allows for, and a JSON value always serializes.
pub fn update_database_entry_request(
    client: &Client,
    parameters: &UpdateDatabaseEntryParameters,
) -> (r: Result<HttpRequest, PayloadError>)
    ensures
        r is Ok,
        r matches Ok(req) ==> {
            &&& req.method == Method::Patch
            &&& req.url@ == client.spec_base_url() + "/pages/"@ + parameters.entry_id@
            &&& spec_headers(req.headers@) == spec_request_headers(client.spec_api_key())
            &&& req.body matches Some(b) && b@ == spec_update_entry_body(
                json_text_of(parameters.properties),
            )
        },
{
    let properties_text = match json_value_to_text(&parameters.properties) {
        Some(t) => t,
        None => {
            return Err(PayloadError);
        },
    };
    let mut body = String::from_str("{\"properties\":");
    body.append(properties_text.as_str());
    body.append("}");
    proof {
        assert(body@ =~= spec_update_entry_body(json_text_of(parameters.properties)));
    }
    let mut url = client.base_url.clone();
    url.append("/pages/");
    url.append(parameters.entry_id.as_str());
    let req = HttpRequest::new(Method::Patch, url).set_default_headers().set_authorization_header(
        client.api_key.as_str(),
    ).set_body(body);
    proof {
        assert(spec_headers(req.headers@) =~= spec_request_headers(client.spec_api_key()));
    }
    Ok(req)
}

/// What an operation does with the transport's outcome: a successful
/// response is returned unchanged — classification is never invoked for
/// it — and anything else is classified into exactly one error.
pub fn interpret_outcome(outcome: TransportOutcome) -> (r: Result<HttpResponse, Error>)
    ensures
        match outcome {
            TransportOutcome::Response(resp) => {
                if spec_is_success_status(resp.status) {
                    r matches Ok(ret) && ret == resp
                } else {
                    r matches Err(e) && e.spec_kind() == spec_classify_kind(outcome)
                        && e.spec_detail() == spec_classify_detail(outcome)
                }
            },
            TransportOutcome::Failure(m) => {
                r matches Err(e) && e.spec_kind() == spec_classify_kind(outcome)
                    && e.spec_detail() == spec_classify_detail(outcome)
            },
        },
{
    match outcome {
        TransportOutcome::Response(resp) => {
            if is_success_status(resp.status) {
                Ok(resp)
            } else {
                let failed = TransportOutcome::Response(resp);
                let e = classify(&failed);
                Err(e)
            }
        },
        TransportOutcome::Failure(message) => {
            let failed = TransportOutcome::Failure(message);
            let e = classify(&failed);
            Err(e)
        },
    }
}

/// The most times a failed call is tried again.
pub const MAX_RETRIES: u64 = 3;

/// What the driver does after one failed attempt: wait the given
/// milliseconds and call again, or stop and return the failure.
#[derive(Clone, Copy, Debug, PartialEq, Eq, Structural)]
pub enum RetryDecision {
    Stop,
    Wait(u64),
}

/// The retry policy, one step: only a rate limit is retried, only while
/// retries remain, and the wait is exactly the one the error asks.
pub open spec fn spec_retry_decision(kind: ErrorKind, retries_made: u64) -> RetryDecision {
    match kind {
        ErrorKind::RateLimit(ms) => {
            if retries_made < MAX_RETRIES {
                RetryDecision::Wait(ms)
            } else {
                RetryDecision::Stop
            }
        },
        _ => RetryDecision::Stop,
    }
}

/// Decides one retry step, after `retries_made` retries already spent.
pub fn retry_decision(error: &Error, retries_made: u64) -> (d: RetryDecision)
    ensures
        d == spec_retry_decision(error.spec_kind(), retries_made),
{
    if retries_made < MAX_RETRIES {
        match error.retry_after() {
            Some(ms) => RetryDecision::Wait(ms),
            None => RetryDecision::Stop,
        }
    } else {
        RetryDecision::Stop
    }
}

/// The trace the policy produces over the successive outcomes of an
/// operation (entry `i` is what its call number `i + 1` would answer:
/// `None` a success, `Some(kind)` a failure of that kind), starting with
/// `retries_made` retries already spent: how many calls are made, which
/// waits are taken in order, and the kind of the outcome returned
/// (`None` again meaning success). No entry past the returning call is
/// consulted.
pub open spec fn spec_retry_trace(outcomes: Seq<Option<ErrorKind>>, retries_made: u64) -> (
    int,
    Seq<u64>,
    Option<ErrorKind>,
)
    decreases outcomes.len(),
{
    if outcomes.len() == 0 {
        (0int, Seq::<u64>::empty(), None::<ErrorKind>)
    } else {
        match outcomes[0] {
            Option::None => (1int, Seq::<u64>::empty(), None::<ErrorKind>),
            Option::Some(kind) => match spec_retry_decision(kind, retries_made) {
                RetryDecision::Stop => (1int, Seq::<u64>::empty(), Some(kind)),
                RetryDecision::Wait(ms) => {
                    let rest = spec_retry_trace(
                        outcomes.skip(1),
                        (retries_made + 1) as u64,
                    );
                    (1 + rest.0, seq![ms] + rest.1, rest.2)
                },
            },
        }
    }
}

/// An operation that answers two rate limits and then a success is
/// called three times; the two waits, in order, are exactly those the
/// errors asked; and the success is returned.
pub proof fn lemma_two_rate_limits_then_success(outcomes: Seq<Option<ErrorKind>>, a: u64, b: u64)
    requires
        outcomes.len() >= 3,
        outcomes[0] == Some(ErrorKind::RateLimit(a)),
        outcomes[1] == Some(ErrorKind::RateLimit(b)),
        outcomes[2] == None::<ErrorKind>,
    ensures
        spec_retry_trace(outcomes, 0) == (3int, seq![a, b], None::<ErrorKind>),
{
    assert(outcomes.skip(1)[0] == outcomes[1]);
    assert(outcomes.skip(1).skip(1) =~= outcomes.skip(2));
    assert(outcomes.skip(2)[0] == outcomes[2]);
    assert(spec_retry_trace(outcomes.skip(2), 2) == (1int, Seq::<u64>::empty(), None::<ErrorKind>));
    assert(spec_retry_trace(outcomes.skip(1), 1) == (2int, seq![b], None::<ErrorKind>)) by {
        assert(seq![b] + Seq::<u64>::empty() =~= seq![b]);
    }
    assert(spec_retry_trace(outcomes, 0) == (3int, seq![a, b], None::<ErrorKind>)) by {
        assert(seq![a] + seq![b] =~= seq![a, b]);
    }
}

/// An operation that answers nothing but rate limits is called four
/// times — the initial try and the full three retries — with exactly
/// three waits, and the fourth answer is returned.
pub proof fn lemma_persistent_rate_limit_exhausts_retries(outcomes: Seq<Option<ErrorKind>>)
    requires
        outcomes.len() >= 4,
        forall|i: int|
            0 <= i < outcomes.len() ==> (#[trigger] outcomes[i] matches Some(kind)
                && kind is RateLimit),
    ensures
        spec_retry_trace(outcomes, 0).0 == 4,
        spec_retry_trace(outcomes, 0).1.len() == 3,
        spec_retry_trace(outcomes, 0).2 == outcomes[3],
{
    assert(outcomes.skip(1)[0] == outcomes[1]);
    assert(outcomes.skip(1).skip(1) =~= outcomes.skip(2));
    assert(outcomes.skip(2)[0] == outcomes[2]);
    assert(outcomes.skip(2).skip(1) =~= outcomes.skip(3));
    assert(outcomes.skip(3)[0] == outcomes[3]);
    let t3 = spec_retry_trace(outcomes.skip(3), 3);
    assert(t3 == (1int, Seq::<u64>::empty(), outcomes[3]));
    let t2 = spec_retry_trace(outcomes.skip(2), 2);
    assert(t2.0 == 2 && t2.1.len() == 1 && t2.2 == outcomes[3]);
    let t1 = spec_retry_trace(outcomes.skip(1), 1);
    assert(t1.0 == 3 && t1.1.len() == 2 && t1.2 == outcomes[3]);
    assert(spec_retry_trace(outcomes, 0).0 == 4);
    assert(spec_retry_trace(outcomes, 0).1.len() == 4 - 1);
    assert(spec_retry_trace(outcomes, 0).2 == outcomes[3]);
}

/// An operation whose first answer is a failure other than a rate limit
/// is called once, with no wait, and that failure is returned unchanged.
pub proof fn lemma_non_retryable_returns_at_once(outcomes: Seq<Option<ErrorKind>>, kind: ErrorKind)
    requires
        outcomes.len() >= 1,
        outcomes[0] == Some(kind),
        !(kind is RateLimit),
    ensures
        spec_retry_trace(outcomes, 0) == (1int, Seq::<u64>::empty(), Some(kind)),
{
}

/// Runs `operation` up to one initial try plus MAX_RETRIES retries.
/// A success returns at once; each failure is handled as
/// `retry_decision` says: a rate-limit failure waits, through `sleep`,
/// for the milliseconds the error asks, then tries again; any other
/// failure — or a rate limit once the retries are spent — returns
/// as-is. Whatever comes back is an outcome of `operation` itself.
pub fn send_with_retries<T, F: Fn() -> Result<T, Error>, S: Fn(u64)>(operation: F, sleep: S) -> (r:
    Result<T, Error>)
    requires
        call_requires(operation, ()),
        forall|ms: u64| call_requires(sleep, (ms,)),
    ensures
        call_ensures(operation, (), r),
{
    let mut retries: u64 = 0;
    loop
        invariant
            retries <= MAX_RETRIES,
            call_requires(operation, ()),
            forall|ms: u64| call_requires(sleep, (ms,)),
        decreases MAX_RETRIES - retries,
    {
        let result = operation();
        match result {
            Ok(value) => {
                return Ok(value);
            },
            Err(error) => {
                match retry_decision(&error, retries) {
                    RetryDecision::Stop => {
                        return Err(error);
                    },
                    RetryDecision::Wait(ms) => {
                        sleep(ms);
                        retries = retries + 1;
                    },
                }
            },
        }
    }
}

} // verus!
