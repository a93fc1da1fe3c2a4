//! The error taxonomy and the classifier that maps a raw transport
//! outcome to exactly one error, reading the `Retry-After` header on
//! rate-limited responses.

use vstd::prelude::*;
use vstd::string::StrSliceExecFns;
use crate::http::Header;
use crate::http::HttpResponse;
use crate::http::TransportOutcome;
use crate::http::header_value;
use crate::http::spec_header_lookup;
use crate::http::spec_is_success_status;

verus! {

/// The wait used when a rate-limited response names no usable delay.
pub const DEFAULT_RETRY_AFTER_MILLIS: u64 = 1000;

/// Whether `c` is a decimal digit.
pub open spec fn spec_is_digit(c: char) -> bool {
    48 <= c as u32 && c as u32 <= 57
}

/// The numeric value of a decimal digit character.
pub open spec fn spec_digit_val(c: char) -> nat {
    (c as u32 - 48) as nat
}

/// Whether every character of `s` is a decimal digit.
pub open spec fn spec_all_digits(s: Seq<char>) -> bool {
    forall|i: int| 0 <= i < s.len() ==> spec_is_digit(s[i])
}

/// The number written by a sequence of decimal digits (0 when empty).
pub open spec fn spec_digits_val(s: Seq<char>) -> nat
    decreases s.len(),
{
    if s.len() == 0 {
        0
    } else {
        spec_digits_val(s.drop_last()) * 10 + spec_digit_val(s.last())
    }
}

/// The index of the first `'.'` in `s`, or `s.len()` if there is none.
pub open spec fn spec_dot_pos(s: Seq<char>) -> int
    decreases s.len(),
{
    if s.len() == 0 {
        0
    } else if s[0] == '.' {
        0
    } else {
        1 + spec_dot_pos(s.skip(1))
    }
}

proof fn lemma_dot_pos_le(s: Seq<char>)
    ensures
        0 <= spec_dot_pos(s) <= s.len(),
    decreases s.len(),
{
    if s.len() == 0 {
    } else if s[0] == '.' {
    } else {
        lemma_dot_pos_le(s.skip(1));
    }
}

proof fn lemma_dot_pos_ge(s: Seq<char>, m: int)
    requires
        0 <= m <= s.len(),
        forall|t: int| 0 <= t < m ==> s[t] != '.',
    ensures
        spec_dot_pos(s) >= m,
    decreases m,
{
    if m > 0 {
        assert(s[0] != '.');
        assert(forall|t: int| 0 <= t < m - 1 ==> s.skip(1)[t] == s[t + 1] && s[t + 1] != '.');
        lemma_dot_pos_ge(s.skip(1), m - 1);
        assert(spec_dot_pos(s) == 1 + spec_dot_pos(s.skip(1)));
    } else {
        lemma_dot_pos_le(s);
    }
}

proof fn lemma_dot_pos_at(s: Seq<char>, k: int)
    requires
        0 <= k <= s.len(),
        forall|t: int| 0 <= t < k ==> s[t] != '.',
        k < s.len() ==> s[k] == '.',
    ensures
        spec_dot_pos(s) == k,
    decreases s.len(),
{
    if s.len() == 0 {
    } else if k == 0 {
    } else {
        assert(s[0] != '.');
        assert(forall|t: int| 0 <= t < k - 1 ==> s.skip(1)[t] == s[t + 1] && s[t + 1] != '.');
        assert(k - 1 < s.skip(1).len() ==> s.skip(1)[k - 1] == s[k]);
        lemma_dot_pos_at(s.skip(1), k - 1);
    }
}

/// The digit of the fractional part at position `i`, 0 past its end.
pub open spec fn spec_frac_digit(f: Seq<char>, i: int) -> nat {
    if 0 <= i < f.len() {
        spec_digit_val(f[i])
    } else {
        0
    }
}

/// The whole milliseconds written by the fractional digits of a count of
/// seconds; digits beyond the third are cut off.
pub open spec fn spec_frac_millis(f: Seq<char>) -> nat {
    spec_frac_digit(f, 0) * 100 + spec_frac_digit(f, 1) * 10 + spec_frac_digit(f, 2)
}

/// Whether `u` (the text after any sign) is a decimal number: digits,
/// at most one point, and at least one digit in all.
pub open spec fn spec_valid_unsigned(u: Seq<char>) -> bool {
    let k = spec_dot_pos(u);
    &&& spec_all_digits(u.take(k))
    &&& (k == u.len() || spec_all_digits(u.skip(k + 1)))
    &&& (k == u.len() ==> u.len() >= 1)
    &&& (k < u.len() ==> u.len() >= 2)
}

/// The milliseconds written by the unsigned decimal number `u`.
pub open spec fn spec_unsigned_millis(u: Seq<char>) -> nat {
    let k = spec_dot_pos(u);
    let f = if k < u.len() {
        u.skip(k + 1)
    } else {
        Seq::<char>::empty()
    };
    spec_digits_val(u.take(k)) * 1000 + spec_frac_millis(f)
}

/// A number too large for a millisecond count saturates.
pub open spec fn spec_clamp_millis(n: nat) -> u64 {
    if n > u64::MAX {
        u64::MAX
    } else {
        n as u64
    }
}

/// The milliseconds meant by a `Retry-After` text: a decimal count of
/// seconds, optionally signed; a negative count is clamped to zero;
/// `None` when the text is not such a number.
pub open spec fn spec_parse_retry_after_millis(s: Seq<char>) -> Option<u64> {
    let signed = s.len() > 0 && (s[0] == '-' || s[0] == '+');
    let u = if signed {
        s.skip(1)
    } else {
        s
    };
    if spec_valid_unsigned(u) {
        if s.len() > 0 && s[0] == '-' {
            Some(0u64)
        } else {
            Some(spec_clamp_millis(spec_unsigned_millis(u)))
        }
    } else {
        None
    }
}

fn is_digit_char(c: char) -> (r: bool)
    ensures
        r == spec_is_digit(c),
{
    let code: u32 = c as u32;
    48 <= code && code <= 57
}

/// Reads a `Retry-After` text as whole milliseconds.
#[verifier::rlimit(100)]
pub fn parse_retry_after_millis(s: &str) -> (r: Option<u64>)
    ensures
        r == spec_parse_retry_after_millis(s@),
{
    let n: usize = s.unicode_len();
    let mut start: usize = 0;
    let mut negative: bool = false;
    if n > 0 {
        let c0 = s.get_char(0);
        if c0 == '-' {
            negative = true;
            start = 1;
        } else if c0 == '+' {
            start = 1;
        }
    }
    let ghost u: Seq<char> = s@.skip(start as int);
    proof {
        assert(s@.skip(0) =~= s@);
        assert(u.len() == n - start);
        assert(forall|t: int| 0 <= t < u.len() ==> u[t] == s@[t + start]);
    }

    // One scan: find the first point, and reject anything that is
    // neither a digit nor the single point.
    let mut j: usize = start;
    let mut dot: usize = n;
    let mut seen_dot: bool = false;
    while j < n
        invariant
            start <= j <= n,
            n == s@.len(),
            start == (if n > 0 && (s@[0] == '-' || s@[0] == '+') {
                1usize
            } else {
                0usize
            }),
            u == s@.skip(start as int),
            !seen_dot ==> dot == n,
            !seen_dot ==> forall|t: int| start <= t < j ==> s@[t] != '.' && spec_is_digit(s@[t]),
            seen_dot ==> start <= dot < j && s@[dot as int] == '.',
            seen_dot ==> forall|t: int| start <= t < dot ==> s@[t] != '.' && spec_is_digit(s@[t]),
            seen_dot ==> forall|t: int| dot < t < j ==> spec_is_digit(s@[t]),
        decreases n - j,
    {
        let c = s.get_char(j);
        if c == '.' {
            if seen_dot {
                proof {
                    assert(s@.skip(0) =~= s@);
                    assert(forall|t: int| 0 <= t < dot - start ==> u[t] == s@[t + start] && u[t]
                        != '.');
                    assert(u[dot - start] == '.');
                    lemma_dot_pos_at(u, dot - start);
                    let k = dot - start;
                    assert(u.skip(k + 1)[j - start - k - 1] == u[j - start]);
                    assert(u[j - start] == s@[j as int]);
                    assert(!spec_is_digit('.'));
                    assert(!spec_all_digits(u.skip(k + 1)));
                    assert(!spec_valid_unsigned(u));
                }
                return None;
            }
            seen_dot = true;
            dot = j;
        } else if !is_digit_char(c) {
            proof {
                assert(s@.skip(0) =~= s@);
                if seen_dot {
                    assert(forall|t: int| 0 <= t < dot - start ==> u[t] == s@[t + start] && u[t]
                        != '.');
                    assert(u[dot - start] == '.');
                    lemma_dot_pos_at(u, dot - start);
                    let k = dot - start;
                    assert(u.skip(k + 1)[j - start - k - 1] == u[j - start]);
                    assert(u[j - start] == s@[j as int]);
                    assert(!spec_all_digits(u.skip(k + 1)));
                    assert(!spec_valid_unsigned(u));
                } else {
                    assert(forall|t: int| 0 <= t < j - start + 1 ==> u[t] == s@[t + start] && u[t]
                        != '.');
                    lemma_dot_pos_ge(u, j - start + 1);
                    lemma_dot_pos_le(u);
                    let k = spec_dot_pos(u);
                    assert(j - start < k);
                    assert(u.take(k)[j - start] == u[j - start]);
                    assert(u[j - start] == s@[j as int]);
                    assert(!spec_all_digits(u.take(k)));
                    assert(!spec_valid_unsigned(u));
                }
            }
            return None;
        }
        j = j + 1;
    }

    proof {
        if seen_dot {
            assert(forall|t: int| 0 <= t < dot - start ==> u[t] == s@[t + start] && u[t] != '.');
            assert(u[dot - start] == '.');
            lemma_dot_pos_at(u, dot - start);
        } else {
            assert(forall|t: int| 0 <= t < n - start ==> u[t] == s@[t + start] && u[t] != '.');
            lemma_dot_pos_ge(u, n - start);
            lemma_dot_pos_le(u);
        }
        assert(spec_dot_pos(u) == dot - start);
    }
    let digit_chars: usize = if seen_dot {
        n - start - 1
    } else {
        n - start
    };
    if digit_chars == 0 {
        proof {
            assert(!spec_valid_unsigned(u));
        }
        return None;
    }
    proof {
        let k = spec_dot_pos(u);
        assert(forall|t: int| 0 <= t < k ==> u.take(k)[t] == u[t] && spec_is_digit(u[t]));
        assert(spec_all_digits(u.take(k)));
        if seen_dot {
            assert(forall|t: int|
                0 <= t < u.len() - k - 1 ==> #[trigger] u.skip(k + 1)[t] == u[t + k + 1]
                    && spec_is_digit(u[t + k + 1]));
            assert(spec_all_digits(u.skip(k + 1)));
        }
        assert(spec_valid_unsigned(u));
    }
    if negative {
        return Some(0);
    }

    // The whole seconds, saturating at the largest count.
    let mut acc: u64 = 0;
    let mut saturated: bool = false;
    let mut m: usize = start;
    proof {
        assert(u.take(0) =~= Seq::<char>::empty());
    }
    while m < dot
        invariant
            start <= m <= dot,
            dot <= n,
            n == s@.len(),
            u == s@.skip(start as int),
            forall|t: int| start <= t < dot ==> spec_is_digit(s@[t]),
            !saturated ==> acc as nat == spec_digits_val(u.take(m - start)),
            saturated ==> spec_digits_val(u.take(m - start)) > u64::MAX,
        decreases dot - m,
    {
        let c = s.get_char(m);
        proof {
            assert(u[m - start] == s@[m as int]);
            assert(u.take(m - start + 1).drop_last() =~= u.take(m - start));
            assert(u.take(m - start + 1).last() == u[m - start]);
        }
        let code: u32 = c as u32;
        let d: u64 = (code - 48) as u64;
        if !saturated {
            match acc.checked_mul(10) {
                Some(t) => {
                    match t.checked_add(d) {
                        Some(v) => {
                            acc = v;
                        },
                        None => {
                            saturated = true;
                        },
                    }
                },
                None => {
                    saturated = true;
                },
            }
        }
        m = m + 1;
    }

    // The first three fractional digits, read as milliseconds.
    let ghost f: Seq<char> = if seen_dot {
        u.skip(dot - start + 1)
    } else {
        Seq::<char>::empty()
    };
    let mut frac: u64 = 0;
    if seen_dot {
        proof {
            assert(f.len() == n - dot - 1);
            assert(forall|t: int| 0 <= t < f.len() ==> f[t] == u[t + (dot - start) + 1]);
            assert(forall|t: int| 0 <= t < f.len() ==> f[t] == s@[t + dot + 1]);
        }
        if dot + 1 < n {
            let c = s.get_char(dot + 1);
            proof {
                assert(f[0] == s@[dot + 1]);
            }
            frac = ((c as u32 - 48) as u64) * 100;
            if dot + 2 < n {
                let c2 = s.get_char(dot + 2);
                proof {
                    assert(f[1] == s@[dot + 2]);
                }
                frac = frac + ((c2 as u32 - 48) as u64) * 10;
                if dot + 3 < n {
                    let c3 = s.get_char(dot + 3);
                    proof {
                        assert(f[2] == s@[dot + 3]);
                    }
                    frac = frac + ((c3 as u32 - 48) as u64);
                }
            }
        }
    }
    proof {
        assert(frac as nat == spec_frac_millis(f));
        let k = spec_dot_pos(u);
        assert(k == dot - start);
        if !seen_dot {
            assert(k == u.len());
        }
        assert(spec_unsigned_millis(u) == spec_digits_val(u.take(k)) * 1000 + spec_frac_millis(f));
    }

    if saturated {
        proof {
            assert(spec_digits_val(u.take(dot - start)) > u64::MAX);
            assert(spec_unsigned_millis(u) > u64::MAX);
        }
        return Some(u64::MAX);
    }
    match acc.checked_mul(1000) {
        Some(t) => {
            match t.checked_add(frac) {
                Some(v) => Some(v),
                None => Some(u64::MAX),
            }
        },
        None => Some(u64::MAX),
    }
}

/// The semantic kinds a request failure is sorted into: rejected
/// credentials, a malformed request, a connection-level failure, a
/// server-requested backoff (with its wait in milliseconds), or any
/// other non-success status.
#[derive(Clone, Copy, Debug, PartialEq, Eq, Structural)]
pub enum ErrorKind {
    Authorization,
    BadRequest,
    Communication,
    RateLimit(u64),
    Unexpected(u16),
}

/// A classified request failure: exactly one kind, plus the text the
/// transport or the response supplied.
#[derive(Debug)]
pub struct Error {
    kind: ErrorKind,
    detail: String,
}

impl Error {
    /// The kind of this failure.
    pub closed spec fn spec_kind(&self) -> ErrorKind {
        self.kind
    }

    /// The text kept from the transport outcome.
    pub closed spec fn spec_detail(&self) -> Seq<char> {
        self.detail@
    }

    /// An error of the given kind carrying the given text.
    pub fn new(kind: ErrorKind, detail: String) -> (e: Error)
        ensures
            e.spec_kind() == kind,
            e.spec_detail() == detail@,
    {
        Error { kind, detail }
    }

    pub fn is_authorization(&self) -> (r: bool)
        ensures
            r == (self.spec_kind() is Authorization),
    {
        matches!(self.kind, ErrorKind::Authorization)
    }

    pub fn is_bad_request(&self) -> (r: bool)
        ensures
            r == (self.spec_kind() is BadRequest),
    {
        matches!(self.kind, ErrorKind::BadRequest)
    }

    pub fn is_communication(&self) -> (r: bool)
        ensures
            r == (self.spec_kind() is Communication),
    {
        matches!(self.kind, ErrorKind::Communication)
    }

    pub fn is_rate_limit(&self) -> (r: bool)
        ensures
            r == (self.spec_kind() is RateLimit),
    {
        matches!(self.kind, ErrorKind::RateLimit(_))
    }

    pub fn is_unexptected_status(&self) -> (r: bool)
        ensures
            r == (self.spec_kind() is Unexpected),
    {
        matches!(self.kind, ErrorKind::Unexpected(_))
    }

    /// The wait a rate-limit failure asks for, in milliseconds.
    pub fn retry_after(&self) -> (r: Option<u64>)
        ensures
            r == (match self.spec_kind() {
                ErrorKind::RateLimit(ms) => Some(ms),
                _ => None,
            }),
    {
        match self.kind {
            ErrorKind::RateLimit(ms) => Some(ms),
            _ => None,
        }
    }

    /// The text kept from the transport outcome.
    pub fn detail(&self) -> (d: &str)
        ensures
            d@ == self.spec_detail(),
    {
        self.detail.as_str()
    }
}

/// The wait asked for by a rate-limited response: its `Retry-After`
/// header read as seconds, or the default when the header is missing
/// or not a number.
pub open spec fn spec_retry_after_millis(headers: Seq<Header>) -> u64 {
    match spec_header_lookup(headers, "Retry-After"@) {
        Option::None => DEFAULT_RETRY_AFTER_MILLIS,
        Option::Some(v) => match spec_parse_retry_after_millis(v) {
            Option::None => DEFAULT_RETRY_AFTER_MILLIS,
            Option::Some(ms) => ms,
        },
    }
}

/// Reads the wait asked for by a rate-limited response's headers.
pub fn retry_after_millis(headers: &Vec<Header>) -> (ms: u64)
    ensures
        ms == spec_retry_after_millis(headers@),
{
    match header_value(headers, "Retry-After") {
        Option::Some(v) => {
            match parse_retry_after_millis(v.as_str()) {
                Option::Some(ms) => ms,
                Option::None => DEFAULT_RETRY_AFTER_MILLIS,
            }
        },
        Option::None => DEFAULT_RETRY_AFTER_MILLIS,
    }
}

/// The kind one failed transport outcome classifies to: a connection
/// failure is Communication, 400 is BadRequest, 401 is Authorization,
/// 429 is RateLimit with the wait its headers ask for, and every other
/// status is Unexpected — never anything else.
pub open spec fn spec_classify_kind(outcome: TransportOutcome) -> ErrorKind {
    match outcome {
        TransportOutcome::Failure(_) => ErrorKind::Communication,
        TransportOutcome::Response(r) => {
            if r.status == 400 {
                ErrorKind::BadRequest
            } else if r.status == 401 {
                ErrorKind::Authorization
            } else if r.status == 429 {
                ErrorKind::RateLimit(spec_retry_after_millis(r.headers@))
            } else {
                ErrorKind::Unexpected(r.status)
            }
        },
    }
}

/// The text kept with the classified error: the connection failure's
/// description, or the response body.
pub open spec fn spec_classify_detail(outcome: TransportOutcome) -> Seq<char> {
    match outcome {
        TransportOutcome::Failure(m) => m@,
        TransportOutcome::Response(r) => r.body@,
    }
}

/// Maps a failed transport outcome to exactly one error; successful
/// outcomes never reach classification.
pub fn classify(outcome: &TransportOutcome) -> (e: Error)
    requires
        outcome matches TransportOutcome::Response(r) ==> !spec_is_success_status(r.status),
    ensures
        e.spec_kind() == spec_classify_kind(*outcome),
        e.spec_detail() == spec_classify_detail(*outcome),
{
    match outcome {
        TransportOutcome::Failure(m) => Error {
            kind: ErrorKind::Communication,
            detail: m.clone(),
        },
        TransportOutcome::Response(r) => {
            let kind = if r.status == 400 {
                ErrorKind::BadRequest
            } else if r.status == 401 {
                ErrorKind::Authorization
            } else if r.status == 429 {
                ErrorKind::RateLimit(retry_after_millis(&r.headers))
            } else {
                ErrorKind::Unexpected(r.status)
            };
            Error { kind, detail: r.body.clone() }
        },
    }
}

/// A rate-limited response whose `Retry-After` header holds a decimal
/// count of seconds is classified with exactly that wait.
pub proof fn lemma_retry_after_honored(headers: Seq<Header>, value: Seq<char>, ms: u64)
    requires
        spec_header_lookup(headers, "Retry-After"@) == Some(value),
        spec_parse_retry_after_millis(value) == Some(ms),
    ensures
        spec_retry_after_millis(headers) == ms,
{
}

/// A rate-limited response whose `Retry-After` header is missing, or is
/// not a decimal count of seconds, is classified with the default wait.
pub proof fn lemma_retry_after_defaulted(headers: Seq<Header>)
    requires
        match spec_header_lookup(headers, "Retry-After"@) {
            Option::None => true,
            Option::Some(v) => spec_parse_retry_after_millis(v) is None,
        },
    ensures
        spec_retry_after_millis(headers) == DEFAULT_RETRY_AFTER_MILLIS,
{
}

/// A 400 response is classified as BadRequest and a 401 as
/// Authorization, whatever their headers and body hold.
pub proof fn lemma_status_classification(r: HttpResponse)
    ensures
        r.status == 400 ==> spec_classify_kind(TransportOutcome::Response(r))
            == ErrorKind::BadRequest,
        r.status == 401 ==> spec_classify_kind(TransportOutcome::Response(r))
            == ErrorKind::Authorization,
{
}

} // verus!
