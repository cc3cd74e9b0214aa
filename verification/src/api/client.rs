//! Transport rules: what a request carries, when a response is retried and
//! how the final response is classified.
//!
//! Nothing here touches the network. The caller sends what `prepare` returns,
//! hands each status it receives to `RetryPolicy::judge`, sleeps when told to,
//! and passes the last response to `classify`.
//!
//! A request is sent a bounded number of times. While attempts are left, a
//! response that says the server is overloaded for the moment is answered
//! by a wait and another send; the response to the last attempt is handed
//! on whatever it says. A failure to reach the server at all is never
//! retried.

use vstd::prelude::*;
use vstd::string::*;
use vstd::arithmetic::power2::{lemma2_to64, lemma_pow2_unfold, pow2};
use crate::text::{natural_digits, push_natural};

verus! {

/// How many times a request is sent at most by default, the first send
/// included.
pub const MAX_ATTEMPTS: u32 = 5;

/// The default delay before the first retry, in milliseconds.
pub const INITIAL_BACKOFF_MS: u64 = 1000;

/// The HTTP methods the API uses.
#[derive(Debug, Clone, Copy, PartialEq, Eq, Structural)]
pub enum Method {
    Get,
    Post,
    Put,
    Delete,
}

/// One call to the API: a method, a path below the base URL (query string
/// included) and, for calls that send one, the XML body.
#[derive(Debug, Clone, PartialEq, Eq)]
pub struct Request {
    pub method: Method,
    pub path: String,
    pub body: Option<String>,
}

/// The view of an optional string.
pub open spec fn opt_text(s: Option<String>) -> Option<Seq<char>> {
    match s {
        Some(t) => Some(t@),
        None => None,
    }
}

impl Request {
    /// A request without a body.
    pub fn bare(method: Method, path: String) -> (r: Request)
        ensures
            r.method == method,
            r.path == path,
            r.body is None,
    {
        Request { method, path, body: None }
    }

    /// A request that sends `body`.
    pub fn with_body(method: Method, path: String, body: String) -> (r: Request)
        ensures
            r.method == method,
            r.path == path,
            r.body == Some(body),
    {
        Request { method, path, body: Some(body) }
    }
}

/// A request ready to be sent: the absolute URL, the credentials for basic
/// authentication and the two content headers.
#[derive(Debug, Clone, PartialEq, Eq)]
pub struct Prepared {
    pub method: Method,
    pub url: String,
    pub username: String,
    pub password: String,
    pub accept: String,
    pub content_type: String,
    pub body: Option<String>,
}

/// Where the API lives and who is calling it.
#[derive(Debug, Clone, PartialEq, Eq)]
pub struct CodebaseClient {
    pub base_url: String,
    pub account: String,
    pub username: String,
    pub api_key: String,
}

impl CodebaseClient {
    /// A client for the public endpoint.
    pub fn new(account: String, username: String, api_key: String) -> (c: CodebaseClient)
        ensures
            c.base_url@ == "https://api3.codebasehq.com"@,
            c.account == account,
            c.username == username,
            c.api_key == api_key,
    {
        CodebaseClient {
            base_url: String::from_str("https://api3.codebasehq.com"),
            account,
            username,
            api_key,
        }
    }

    /// A client for another endpoint, such as a local stand-in.
    pub fn with_base_url(
        base_url: String,
        account: String,
        username: String,
        api_key: String,
    ) -> (c: CodebaseClient)
        ensures
            c.base_url == base_url,
            c.account == account,
            c.username == username,
            c.api_key == api_key,
    {
        CodebaseClient { base_url, account, username, api_key }
    }

    /// The absolute URL of `path`.
    pub fn url(&self, path: &str) -> (u: String)
        ensures
            u@ == self.base_url@ + path@,
    {
        let mut u = self.base_url.clone();
        u.append(path);
        u
    }

    /// What is sent for a call of `method` to `path`, with `body` where
    /// there is one.
    pub fn request(&self, method: Method, path: &str, body: Option<String>) -> (p: Prepared)
        ensures
            p.method == method,
            p.url@ == self.base_url@ + path@,
            p.username@ == self.username@,
            p.password@ == self.api_key@,
            p.accept@ == "application/xml"@,
            p.content_type@ == "application/xml"@,
            p.body == body,
    {
        Prepared {
            method,
            url: self.url(path),
            username: self.username.clone(),
            password: self.api_key.clone(),
            accept: String::from_str("application/xml"),
            content_type: String::from_str("application/xml"),
            body,
        }
    }

    /// What is sent to read `path`.
    pub fn get(&self, path: &str) -> (p: Prepared)
        ensures
            p.method == Method::Get,
            p.url@ == self.base_url@ + path@,
            p.username@ == self.username@,
            p.password@ == self.api_key@,
            p.accept@ == "application/xml"@,
            p.content_type@ == "application/xml"@,
            p.body is None,
    {
        self.request(Method::Get, path, None)
    }

    /// What is sent to post `body` to `path`.
    pub fn post(&self, path: &str, body: String) -> (p: Prepared)
        ensures
            p.method == Method::Post,
            p.url@ == self.base_url@ + path@,
            p.username@ == self.username@,
            p.password@ == self.api_key@,
            p.accept@ == "application/xml"@,
            p.content_type@ == "application/xml"@,
            p.body == Some(body),
    {
        self.request(Method::Post, path, Some(body))
    }

    /// What is sent to put `body` at `path`.
    pub fn put(&self, path: &str, body: String) -> (p: Prepared)
        ensures
            p.method == Method::Put,
            p.url@ == self.base_url@ + path@,
            p.username@ == self.username@,
            p.password@ == self.api_key@,
            p.accept@ == "application/xml"@,
            p.content_type@ == "application/xml"@,
            p.body == Some(body),
    {
        self.request(Method::Put, path, Some(body))
    }

    /// What is sent to delete `path`.
    pub fn delete(&self, path: &str) -> (p: Prepared)
        ensures
            p.method == Method::Delete,
            p.url@ == self.base_url@ + path@,
            p.username@ == self.username@,
            p.password@ == self.api_key@,
            p.accept@ == "application/xml"@,
            p.content_type@ == "application/xml"@,
            p.body is None,
    {
        self.request(Method::Delete, path, None)
    }

    /// What is sent for `request`: its URL under this client's base, this
    /// client's credentials, and XML announced in both content headers.
    pub fn prepare(&self, request: &Request) -> (p: Prepared)
        ensures
            p.method == request.method,
            p.url@ == self.base_url@ + request.path@,
            p.username@ == self.username@,
            p.password@ == self.api_key@,
            p.accept@ == "application/xml"@,
            p.content_type@ == "application/xml"@,
            opt_text(p.body) == opt_text(request.body),
    {
        let body = match &request.body {
            Some(b) => Some(b.clone()),
            None => None,
        };
        self.request(request.method, request.path.as_str(), body)
    }
}

/// Why a call did not yield a response body.
#[derive(Debug, Clone, PartialEq, Eq)]
pub enum TransportError {
    /// The endpoint could not be reached; never retried.
    Network(String),
    /// The final response was not a success.
    Api { status: u16, body: String },
}

/// Whether `status` is in the 200-299 range.
pub open spec fn is_success(status: u16) -> bool {
    200 <= status <= 299
}

/// Splits the final response: a success yields its body, anything else an
/// `Api` error that carries status and body.
pub fn classify(status: u16, body: String) -> (r: Result<String, TransportError>)
    ensures
        is_success(status) ==> r == Ok::<String, TransportError>(body),
        !is_success(status) ==> r == Err::<String, TransportError>(
            (TransportError::Api { status, body }),
        ),
{
    if 200 <= status && status <= 299 {
        Ok(body)
    } else {
        Err(TransportError::Api { status, body })
    }
}

/// What comes of a send that did not reach the service: a `Network` error
/// with the details, at once. Such a failure is never retried, whatever
/// the attempt; only statuses that were received are.
pub fn network_failure(detail: String) -> (r: Result<String, TransportError>)
    ensures
        r == Err::<String, TransportError>(TransportError::Network(detail)),
{
    Err(TransportError::Network(detail))
}

impl TransportError {
    /// What `message` returns.
    pub open spec fn message_text(self) -> Seq<char> {
        match self {
            TransportError::Network(detail) => "Failed to send request: "@ + detail@,
            TransportError::Api { status, body } => "API error ("@ + natural_digits(status as nat)
                + "): "@ + body@,
        }
    }

    /// The line shown to the user.
    pub fn message(&self) -> (m: String)
        ensures
            m@ == self.message_text(),
    {
        match self {
            TransportError::Network(detail) => {
                let mut m = String::from_str("Failed to send request: ");
                m.append(detail.as_str());
                m
            },
            TransportError::Api { status, body } => {
                let mut m = String::from_str("API error (");
                push_natural(&mut m, *status as u64);
                m.append("): ");
                m.append(body.as_str());
                m
            },
        }
    }
}

/// Whether `status` says that the server is overloaded for the moment:
/// 429, 503 or 529.
pub open spec fn is_transient(status: u16) -> bool {
    status == 429 || status == 503 || status == 529
}

/// `base` doubled `times` times.
pub open spec fn doubled(base: nat, times: nat) -> nat
    decreases times,
{
    if times == 0 {
        base
    } else {
        2 * doubled(base, (times - 1) as nat)
    }
}

/// Doubling more often never gives less.
pub proof fn lemma_doubled_grows(base: nat, fewer: nat, more: nat)
    requires
        fewer <= more,
    ensures
        doubled(base, fewer) <= doubled(base, more),
    decreases more,
{
    if fewer < more {
        lemma_doubled_grows(base, fewer, (more - 1) as nat);
    }
}

/// `base` doubled `times` times, where that fits in 64 bits.
fn double_times(base: u64, times: u32) -> (r: Option<u64>)
    ensures
        r is Some <==> doubled(base as nat, times as nat) <= u64::MAX,
        r matches Some(v) ==> v == doubled(base as nat, times as nat),
{
    if base == 0 {
        proof {
            lemma_doubled_zero(times as nat);
        }
        return Some(0);
    }
    let mut acc: u64 = base;
    let mut k: u32 = 0;
    while k < times
        invariant
            k <= times,
            acc == doubled(base as nat, k as nat),
            acc >= 1,
        decreases times - k,
    {
        if acc > u64::MAX / 2 {
            proof {
                lemma_doubled_grows(base as nat, (k + 1) as nat, times as nat);
            }
            return None;
        }
        acc = acc * 2;
        k += 1;
    }
    Some(acc)
}

/// What to do with a response that has just arrived.
#[derive(Debug, Clone, Copy, PartialEq, Eq, Structural)]
pub enum Verdict {
    /// Wait `delay_ms` milliseconds, then send the request again.
    Retry { delay_ms: u64 },
    /// Hand this response to the caller.
    Deliver,
}

/// Whether every wait of a policy of `attempts` attempts that first waits
/// `first` milliseconds fits in 64 bits. The longest wait is the one
/// before the last attempt.
pub open spec fn waits_fit(attempts: nat, first: nat) -> bool {
    attempts >= 2 ==> doubled(first, (attempts - 2) as nat) <= u64::MAX
}

/// How many times a request is sent at most, and how long the wait after
/// the first transient response is. Each further wait is twice the one
/// before.
#[derive(Debug, Clone, Copy)]
pub struct RetryPolicy {
    max_attempts: u32,
    initial_backoff_ms: u64,
}

impl RetryPolicy {
    #[verifier::type_invariant]
    spec fn sound(self) -> bool {
        &&& self.max_attempts >= 1
        &&& waits_fit(self.max_attempts as nat, self.initial_backoff_ms as nat)
    }

    /// The number of attempts allowed, the first send included.
    pub closed spec fn budget(self) -> nat {
        self.max_attempts as nat
    }

    /// The first wait, in milliseconds.
    pub closed spec fn first_wait(self) -> nat {
        self.initial_backoff_ms as nat
    }

    /// The wait that follows the transient response to attempt number
    /// `attempt` (counted from 0).
    pub open spec fn wait(self, attempt: nat) -> nat {
        doubled(self.first_wait(), attempt)
    }

    /// What `judge` answers: a retry where the status is transient and
    /// another attempt is left after this one, delivery otherwise.
    pub open spec fn verdict(self, attempt: u32, status: u16) -> Verdict {
        if attempt + 1 < self.budget() && is_transient(status) {
            Verdict::Retry { delay_ms: self.wait(attempt as nat) as u64 }
        } else {
            Verdict::Deliver
        }
    }

    /// A policy that sends a request at most `max_attempts` times and
    /// first waits `initial_backoff_ms`. `None` for no attempt at all,
    /// since a request is sent at least once, and where the longest wait
    /// would not fit in 64 bits.
    pub fn new(max_attempts: u32, initial_backoff_ms: u64) -> (r: Option<RetryPolicy>)
        ensures
            r is Some <==> max_attempts >= 1 && waits_fit(
                max_attempts as nat,
                initial_backoff_ms as nat,
            ),
            r matches Some(p) ==> p.budget() == max_attempts && p.first_wait()
                == initial_backoff_ms,
    {
        if max_attempts == 0 {
            None
        } else if max_attempts == 1 {
            Some(RetryPolicy { max_attempts, initial_backoff_ms })
        } else {
            match double_times(initial_backoff_ms, max_attempts - 2) {
                Some(_) => Some(RetryPolicy { max_attempts, initial_backoff_ms }),
                None => None,
            }
        }
    }

    /// Five attempts, the first wait one second.
    pub fn standard() -> (p: RetryPolicy)
        ensures
            p.budget() == MAX_ATTEMPTS,
            p.first_wait() == INITIAL_BACKOFF_MS,
    {
        assert(doubled(1000, 3) == 8000) by {
            reveal_with_fuel(doubled, 4);
        }
        RetryPolicy { max_attempts: MAX_ATTEMPTS, initial_backoff_ms: INITIAL_BACKOFF_MS }
    }

    /// The number of attempts allowed, the first send included.
    pub fn max_attempts(&self) -> (n: u32)
        ensures
            n == self.budget(),
            n >= 1,
    {
        proof {
            use_type_invariant(self);
        }
        self.max_attempts
    }

    /// The first wait, in milliseconds.
    pub fn initial_backoff_ms(&self) -> (n: u64)
        ensures
            n == self.first_wait(),
    {
        self.initial_backoff_ms
    }

    /// The wait after the transient response to attempt number `attempt`,
    /// in milliseconds, for an attempt that is not the last.
    pub fn backoff_ms(&self, attempt: u32) -> (d: u64)
        requires
            attempt + 1 < self.budget(),
        ensures
            d == self.wait(attempt as nat),
    {
        proof {
            use_type_invariant(self);
            lemma_doubled_grows(
                self.initial_backoff_ms as nat,
                attempt as nat,
                (self.max_attempts - 2) as nat,
            );
        }
        match double_times(self.initial_backoff_ms, attempt) {
            Some(d) => d,
            None => 0,
        }
    }

    /// Decides what follows the response with `status` that came back for
    /// attempt number `attempt` (counted from 0): a transient status is
    /// retried after its wait where another attempt is left; every other
    /// response, and the response to the last attempt, is delivered.
    pub fn judge(&self, attempt: u32, status: u16) -> (v: Verdict)
        ensures
            v == self.verdict(attempt, status),
            v matches Verdict::Retry { delay_ms } ==> delay_ms == self.wait(attempt as nat),
    {
        if self.max_attempts >= 2 && attempt < self.max_attempts - 1 && (status == 429 || status
            == 503 || status == 529) {
            Verdict::Retry { delay_ms: self.backoff_ms(attempt) }
        } else {
            Verdict::Deliver
        }
    }
}

impl RetryPolicy {
    /// What `retry_notice` returns.
    pub open spec fn notice_text(self, status: u16, attempt: u32, delay_ms: u64) -> Seq<char> {
        "Server returned "@ + natural_digits(status as nat) + " - retrying in "@ + natural_digits(
            delay_ms as nat,
        ) + "ms (attempt "@ + natural_digits((attempt + 1) as nat) + "/"@ + natural_digits(
            self.budget(),
        ) + ")"@
    }

    /// The line to log before a retry: the status that came back, the wait
    /// in milliseconds, and which attempt of how many has just failed.
    pub fn retry_notice(&self, status: u16, attempt: u32, delay_ms: u64) -> (m: String)
        ensures
            m@ == self.notice_text(status, attempt, delay_ms),
    {
        let mut m = String::from_str("Server returned ");
        push_natural(&mut m, status as u64);
        m.append(" - retrying in ");
        push_natural(&mut m, delay_ms);
        m.append("ms (attempt ");
        push_natural(&mut m, attempt as u64 + 1);
        m.append("/");
        push_natural(&mut m, self.max_attempts as u64);
        m.append(")");
        m
    }
}

/// How a recorded exchange went: the number of the response that was
/// delivered (counted from 0) and the waits that came before it.
#[derive(Debug, Clone, PartialEq, Eq)]
pub struct Exchange {
    pub delivered: usize,
    pub sleeps: Vec<u64>,
}

impl RetryPolicy {
    /// Whether an exchange that receives `statuses` in this order ends with
    /// the delivery of response number `k` (counted from 0): all responses
    /// before it were transient and retried, and response `k` is either
    /// not transient or the response to the last attempt allowed.
    pub open spec fn settles_at(self, statuses: Seq<u16>, k: int) -> bool {
        &&& 0 <= k < statuses.len()
        &&& k + 1 <= self.budget()
        &&& forall|j: int| 0 <= j < k ==> is_transient(#[trigger] statuses[j])
        &&& (k + 1 == self.budget() || !is_transient(statuses[k]))
    }

    /// Whether `statuses` ends before any response is delivered: all of them
    /// are transient and attempts are left after the last of them.
    pub open spec fn starves(self, statuses: Seq<u16>) -> bool {
        &&& statuses.len() < self.budget()
        &&& forall|j: int| 0 <= j < statuses.len() ==> is_transient(#[trigger] statuses[j])
    }

    /// Runs the retry loop over a record of the statuses that came back, in
    /// order, without sending or sleeping: tells which response is delivered
    /// and which waits precede it, or `None` where the record ends first.
    pub fn replay(&self, statuses: &Vec<u16>) -> (r: Option<Exchange>)
        ensures
            match r {
                Some(x) => {
                    &&& self.settles_at(statuses@, x.delivered as int)
                    &&& x.sleeps@.len() == x.delivered
                    &&& forall|j: int|
                        0 <= j < x.delivered ==> #[trigger] x.sleeps@[j] == self.wait(j as nat)
                },
                None => self.starves(statuses@),
            },
    {
        let mut sleeps: Vec<u64> = Vec::new();
        let mut attempt: u32 = 0;
        let mut k: usize = 0;
        proof {
            use_type_invariant(self);
        }
        while k < statuses.len()
            invariant
                k <= statuses.len(),
                k == attempt,
                attempt < self.budget(),
                sleeps@.len() == k,
                forall|j: int| 0 <= j < k ==> is_transient(#[trigger] statuses@[j]),
                forall|j: int| 0 <= j < k ==> #[trigger] sleeps@[j] == self.wait(j as nat),
            decreases statuses.len() - k,
        {
            match self.judge(attempt, statuses[k]) {
                Verdict::Retry { delay_ms } => {
                    sleeps.push(delay_ms);
                    attempt += 1;
                    k += 1;
                },
                Verdict::Deliver => {
                    return Some(Exchange { delivered: k, sleeps });
                },
            }
        }
        None
    }
}

/// An exchange has one outcome: the same record never settles at two
/// different responses.
pub proof fn law_settlement_is_unique(policy: RetryPolicy, statuses: Seq<u16>, a: int, b: int)
    requires
        policy.settles_at(statuses, a),
        policy.settles_at(statuses, b),
    ensures
        a == b,
{
}

/// A status outside the transient set is never retried, whatever the
/// attempt and however many attempts are left, and so is never slept on:
/// a record that opens with such a status settles at once.
pub proof fn law_only_transient_is_retried(policy: RetryPolicy, attempt: u32, status: u16)
    requires
        policy.budget() >= 1,
        !is_transient(status),
    ensures
        policy.verdict(attempt, status) == Verdict::Deliver,
        forall|rest: Seq<u16>| policy.settles_at(#[trigger] (seq![status] + rest), 0),
{
    assert forall|rest: Seq<u16>| policy.settles_at(#[trigger] (seq![status] + rest), 0) by {
        assert((seq![status] + rest)[0] == status);
    }
}

/// The response to the last attempt is delivered, transient or not, and
/// nothing is sent after it: a record that opens with as many transient
/// statuses as there are attempts settles at the last of them, neither
/// sooner nor later, after one wait less than there are attempts.
pub proof fn law_budget_bounds_retries(policy: RetryPolicy, statuses: Seq<u16>)
    requires
        policy.budget() >= 1,
        statuses.len() >= policy.budget(),
        forall|j: int| 0 <= j < policy.budget() ==> is_transient(#[trigger] statuses[j]),
    ensures
        policy.settles_at(statuses, policy.budget() - 1),
        forall|k: int| policy.settles_at(statuses, k) ==> k == policy.budget() - 1,
        policy.verdict((policy.budget() - 1) as u32, statuses[policy.budget() - 1])
            == Verdict::Deliver,
{
    assert forall|k: int| policy.settles_at(statuses, k) implies k == policy.budget() - 1 by {
        if k + 1 < policy.budget() {
            assert(is_transient(statuses[k]));
        }
    }
}

/// Each wait is twice the one before it, starting from the first wait:
/// the wait after attempt `n` (counted from 0) is the first wait times
/// two to the power `n`.
pub proof fn law_waits_double(policy: RetryPolicy, attempt: nat)
    ensures
        policy.wait(0) == policy.first_wait(),
        policy.wait(attempt + 1) == 2 * policy.wait(attempt),
        policy.wait(attempt) == policy.first_wait() * pow2(attempt),
    decreases attempt,
{
    if attempt == 0 {
        lemma2_to64();
    } else {
        law_waits_double(policy, (attempt - 1) as nat);
        lemma_pow2_unfold(attempt);
        assert(policy.first_wait() * (2 * pow2((attempt - 1) as nat)) == 2 * (policy.first_wait()
            * pow2((attempt - 1) as nat))) by (nonlinear_arith);
    }
}

/// Doubling nothing gives nothing.
pub proof fn lemma_doubled_zero(times: nat)
    ensures
        doubled(0, times) == 0,
    decreases times,
{
    if times > 0 {
        lemma_doubled_zero((times - 1) as nat);
    }
}

} // verus!
