//! Failover rules of the upstream dispatcher: the shared pool state with its
//! generation counter, the classification of one attempt's outcome, and the
//! decision that follows each attempt.

use vstd::prelude::*;
use vstd::string::*;
use crate::text::{str_eq, decimal_string, decimal_digits};

verus! {

/// Retries that one logical request may make after its first attempt.
pub const RETRY_BUDGET: u32 = 8;

/// Pause before every attempt but the first, in milliseconds.
pub const RETRY_DELAY_MS: u64 = 250;

/// Time allowed for reading a response body, in milliseconds.
pub const BODY_DEADLINE_MS: u64 = 1000;

/// Why an attempt failed.
#[derive(Debug, PartialEq, Eq)]
pub enum Failure {
    /// The request never produced a response; the text says why.
    Transport(String),
    /// A response without JSON content that carried this failure status.
    Http(u16),
    /// A response that claimed success without JSON content.
    UnexpectedContent,
    /// The body could not be read to its end.
    Body,
    /// The body was not read within the deadline.
    Timeout,
}

/// How the read of a response body ended.
#[derive(Debug, PartialEq, Eq)]
pub enum BodyRead {
    Complete(Vec<u8>),
    Broken,
    DeadlineElapsed,
}

/// What the dispatcher does after an attempt.
#[derive(Debug, PartialEq, Eq)]
pub enum Next {
    /// Hand the body on to the client.
    Deliver(Vec<u8>),
    /// Wait for the retry delay and make the attempt with this number.
    Retry { n_retries: u32 },
    /// Give the client this failure.
    Surface(Failure),
}

/// What a remedy did to the pool.
#[derive(Clone, Copy, PartialEq, Eq, Structural, Debug)]
pub enum Remedy {
    /// The shared client was thrown away.
    Discarded,
    /// The pool moved on to the next server.
    Rotated,
    /// Another attempt had acted already.
    Skipped,
}

/// The pool state as contracts see it.
pub struct PoolModel<C> {
    pub client: Option<C>,
    pub generation: u64,
}

/// The state that all requests share: the client, built when first needed,
/// and the generation, which picks the server.
pub struct ServerPool<C> {
    client: Option<C>,
    generation: u64,
}

impl<C> View for ServerPool<C> {
    type V = PoolModel<C>;

    closed spec fn view(&self) -> PoolModel<C> {
        PoolModel { client: self.client, generation: self.generation }
    }
}

impl Failure {
    /// The failure that calls for a new client.
    pub open spec fn is_transport(&self) -> bool {
        self is Transport
    }

    /// The failure that says that the record does not exist.
    pub open spec fn is_not_found(&self) -> bool {
        *self == Failure::Http(404)
    }

    /// The status under which the failure is reported to the client.
    pub open spec fn status_spec(&self) -> u16 {
        match *self {
            Failure::Transport(_) => 503,
            Failure::Http(code) => code,
            Failure::UnexpectedContent => 416,
            Failure::Body => 400,
            Failure::Timeout => 408,
        }
    }

    /// The message that goes with the status.
    pub open spec fn message_spec(&self) -> Seq<char> {
        match *self {
            Failure::Transport(why) => "GET error: "@ + why@,
            Failure::Http(_) => "HTTP error"@,
            Failure::UnexpectedContent => "expected application/json"@,
            Failure::Body => "GET body error"@,
            Failure::Timeout => "request timeout"@,
        }
    }

    /// The status under which the failure is reported to the client. A
    /// transport failure is reported as 503: its own mark stays inside.
    pub fn status(&self) -> (r: u16)
        ensures
            r == self.status_spec(),
    {
        match self {
            Failure::Transport(_) => 503,
            Failure::Http(code) => *code,
            Failure::UnexpectedContent => 416,
            Failure::Body => 400,
            Failure::Timeout => 408,
        }
    }

    /// The message that goes with the status.
    pub fn message(&self) -> (r: String)
        ensures
            r@ == self.message_spec(),
    {
        match self {
            Failure::Transport(why) => String::from_str("GET error: ").concat(why.as_str()),
            Failure::Http(_) => String::from_str("HTTP error"),
            Failure::UnexpectedContent => String::from_str("expected application/json"),
            Failure::Body => String::from_str("GET body error"),
            Failure::Timeout => String::from_str("request timeout"),
        }
    }

    /// The reply line for this failure.
    pub fn reply(&self) -> (r: String)
        ensures
            r@ == error_line_spec(self.status_spec(), self.message_spec()),
    {
        let m = self.message();
        error_line(self.status(), m.as_str())
    }
}

/// A reply line that reports an error: the status, a space, the message.
pub open spec fn error_line_spec(status: u16, message: Seq<char>) -> Seq<char> {
    decimal_digits(status as nat) + " "@ + message
}

/// Writes the reply line that reports an error.
pub fn error_line(status: u16, message: &str) -> (r: String)
    ensures
        r@ == error_line_spec(status, message@),
{
    decimal_string(status as u64).concat(" ").concat(message)
}

/// The content type is exactly `application/json`.
pub open spec fn is_json(content_type: Option<Seq<char>>) -> bool {
    content_type == Some("application/json"@)
}

/// A status from 200 to 299.
pub open spec fn is_success(status: u16) -> bool {
    200 <= status < 300
}

/// What the head of a response means for the attempt.
pub open spec fn response_class(status: u16, content_type: Option<Seq<char>>) -> Result<
    (),
    Failure,
> {
    if is_json(content_type) {
        Ok(())
    } else if is_success(status) {
        Err(Failure::UnexpectedContent)
    } else {
        Err(Failure::Http(status))
    }
}

/// The text of an optional string.
pub open spec fn opt_view(s: Option<&str>) -> Option<Seq<char>> {
    match s {
        Some(t) => Some(t@),
        None => None,
    }
}

/// Accepts a response whose content type is exactly `application/json`.
/// Another response fails with its own status, or as unexpected content where
/// its status claimed success.
pub fn classify_response(status: u16, content_type: Option<&str>) -> (r: Result<(), Failure>)
    ensures
        r == response_class(status, opt_view(content_type)),
{
    let json = match content_type {
        Some(t) => str_eq(t, "application/json"),
        None => false,
    };
    if json {
        Ok(())
    } else if 200 <= status && status < 300 {
        Err(Failure::UnexpectedContent)
    } else {
        Err(Failure::Http(status))
    }
}

/// A body read to its end is the attempt's result; a breach of the deadline is
/// a timeout, and a read that broke off is a body failure.
pub fn classify_body(read: BodyRead) -> (r: Result<Vec<u8>, Failure>)
    ensures
        r == match read {
            BodyRead::Complete(body) => Ok::<Vec<u8>, Failure>(body),
            BodyRead::Broken => Err(Failure::Body),
            BodyRead::DeadlineElapsed => Err(Failure::Timeout),
        },
{
    match read {
        BodyRead::Complete(body) => Ok(body),
        BodyRead::Broken => Err(Failure::Body),
        BodyRead::DeadlineElapsed => Err(Failure::Timeout),
    }
}

/// The server that a generation selects among `count` servers.
pub open spec fn server_index_spec(generation: u64, count: usize) -> int {
    generation as int % count as int
}

/// Picks the server for a generation.
pub fn server_index(generation: u64, count: usize) -> (r: usize)
    requires
        count > 0,
    ensures
        r == server_index_spec(generation, count),
        r < count,
{
    (generation % (count as u64)) as usize
}

/// The pause before the attempt with this number of retries behind it.
pub fn attempt_delay_ms(n_retries: u32) -> (r: u64)
    ensures
        r == if n_retries == 0 { 0 } else { RETRY_DELAY_MS },
{
    if n_retries == 0 {
        0
    } else {
        RETRY_DELAY_MS
    }
}

/// A failure is retried unless the record does not exist, the process is
/// shutting down, or the budget is spent.
pub open spec fn retryable(failure: Failure, n_retries: u32, shutdown: bool) -> bool {
    !failure.is_not_found() && !shutdown && n_retries < RETRY_BUDGET
}

/// The pool after the remedy of an attempt that saw generation `observed`:
/// unchanged if the generation has moved since; without its client after a
/// transport failure; one generation on after any other failure.
pub open spec fn remedied<C>(pool: PoolModel<C>, observed: u64, failure: Failure) -> PoolModel<C> {
    if pool.generation != observed {
        pool
    } else if failure.is_transport() {
        PoolModel { client: None, generation: pool.generation }
    } else {
        PoolModel { client: pool.client, generation: (pool.generation + 1) as u64 }
    }
}

/// The remedy of this failure, seen at `observed`, moves the pool one
/// generation on.
pub open spec fn rotates<C>(pool: PoolModel<C>, observed: u64, failure: Failure) -> bool {
    pool.generation == observed && !failure.is_transport()
}

/// The attempt ends in a remedy that moves the pool one generation on.
pub open spec fn attempt_rotates<C>(
    pool: PoolModel<C>,
    observed: u64,
    outcome: Result<Vec<u8>, Failure>,
    n_retries: u32,
    shutdown: bool,
) -> bool {
    match outcome {
        Ok(_) => false,
        Err(failure) => retryable(failure, n_retries, shutdown) && rotates(pool, observed, failure),
    }
}

/// The pool after a client was offered: a pool that lacks one takes it and
/// moves one generation on.
pub open spec fn installed<C>(pool: PoolModel<C>, fresh: C) -> PoolModel<C> {
    if pool.client is Some {
        pool
    } else {
        PoolModel { client: Some(fresh), generation: (pool.generation + 1) as u64 }
    }
}

/// The step that follows an attempt.
pub open spec fn next_step(outcome: Result<Vec<u8>, Failure>, n_retries: u32, shutdown: bool) -> Next {
    match outcome {
        Ok(body) => Next::Deliver(body),
        Err(failure) => if retryable(failure, n_retries, shutdown) {
            Next::Retry { n_retries: (n_retries + 1) as u32 }
        } else {
            Next::Surface(failure)
        },
    }
}

/// The pool after an attempt: remedied where the attempt is retried, else as
/// it was.
pub open spec fn pool_after<C>(
    pool: PoolModel<C>,
    observed: u64,
    outcome: Result<Vec<u8>, Failure>,
    n_retries: u32,
    shutdown: bool,
) -> PoolModel<C> {
    match outcome {
        Ok(_) => pool,
        Err(failure) => if retryable(failure, n_retries, shutdown) {
            remedied(pool, observed, failure)
        } else {
            pool
        },
    }
}

impl<C> ServerPool<C> {
    /// A pool at generation 0, without a client.
    pub fn new() -> (r: Self)
        ensures
            r@.client is None,
            r@.generation == 0,
    {
        ServerPool { client: None, generation: 0 }
    }

    /// The current generation.
    pub fn generation(&self) -> (r: u64)
        ensures
            r == self@.generation,
    {
        self.generation
    }

    /// Whether the pool holds a client.
    pub fn has_client(&self) -> (r: bool)
        ensures
            r == (self@.client is Some),
    {
        self.client.is_some()
    }

    /// The shared client, where the pool holds one.
    pub fn client(&self) -> (r: Option<&C>)
        ensures
            r is Some == (self@.client is Some),
            r is Some ==> *r->0 == self@.client->0,
    {
        self.client.as_ref()
    }

    /// Offers a freshly built client to the pool.
    pub fn install(&mut self, fresh: C)
        requires
            old(self)@.client is None ==> old(self)@.generation < u64::MAX,
        ensures
            final(self)@ == installed(old(self)@, fresh),
    {
        if self.client.is_none() {
            self.client = Some(fresh);
            self.generation = self.generation + 1;
        }
    }

    /// Applies the remedy for a failed attempt that saw generation `observed`,
    /// unless another attempt has acted since.
    pub fn remedy(&mut self, observed: u64, failure: &Failure) -> (r: Remedy)
        requires
            rotates(old(self)@, observed, *failure) ==> old(self)@.generation < u64::MAX,
        ensures
            final(self)@ == remedied(old(self)@, observed, *failure),
            r == if old(self)@.generation != observed {
                Remedy::Skipped
            } else if failure.is_transport() {
                Remedy::Discarded
            } else {
                Remedy::Rotated
            },
    {
        if self.generation != observed {
            Remedy::Skipped
        } else {
            match failure {
                Failure::Transport(_) => {
                    self.client = None;
                    Remedy::Discarded
                },
                _ => {
                    self.generation = self.generation + 1;
                    Remedy::Rotated
                },
            }
        }
    }
}

/// Tells whether a failed attempt is followed by another.
pub fn should_retry(failure: &Failure, n_retries: u32, shutdown: bool) -> (r: bool)
    ensures
        r == retryable(*failure, n_retries, shutdown),
{
    let not_found = match failure {
        Failure::Http(code) => *code == 404,
        _ => false,
    };
    !not_found && !shutdown && n_retries < RETRY_BUDGET
}

/// Tells whether the attempt ends in a remedy that moves the pool one
/// generation on: the one case in which the generation must have room.
pub fn will_rotate<C>(
    pool: &ServerPool<C>,
    observed: u64,
    outcome: &Result<Vec<u8>, Failure>,
    n_retries: u32,
    shutdown: bool,
) -> (r: bool)
    ensures
        r == attempt_rotates(pool@, observed, *outcome, n_retries, shutdown),
{
    match outcome {
        Ok(_) => false,
        Err(failure) => {
            let transport = match failure {
                Failure::Transport(_) => true,
                _ => false,
            };
            should_retry(failure, n_retries, shutdown) && pool.generation == observed
                && !transport
        },
    }
}

/// Decides what follows an attempt that saw generation `observed`. A body is
/// delivered. A failure that may be retried has its remedy applied to the pool
/// and asks for the next attempt; any other failure is surfaced as it is.
pub fn after_attempt<C>(
    pool: &mut ServerPool<C>,
    observed: u64,
    outcome: Result<Vec<u8>, Failure>,
    n_retries: u32,
    shutdown: bool,
) -> (next: Next)
    requires
        attempt_rotates(old(pool)@, observed, outcome, n_retries, shutdown) ==> old(
            pool,
        )@.generation < u64::MAX,
    ensures
        next == next_step(outcome, n_retries, shutdown),
        final(pool)@ == pool_after(old(pool)@, observed, outcome, n_retries, shutdown),
{
    match outcome {
        Ok(body) => Next::Deliver(body),
        Err(failure) => {
            if should_retry(&failure, n_retries, shutdown) {
                pool.remedy(observed, &failure);
                Next::Retry { n_retries: n_retries + 1 }
            } else {
                Next::Surface(failure)
            }
        },
    }
}

/// One rotation moves the selection to the next server, wrapping at the end
/// of the list.
pub proof fn law_rotation_selects_next<C>(pool: PoolModel<C>, failure: Failure, count: usize)
    requires
        count > 0,
        pool.generation < u64::MAX,
        !failure.is_transport(),
    ensures
        remedied(pool, pool.generation, failure).generation == pool.generation + 1,
        server_index_spec(remedied(pool, pool.generation, failure).generation, count) == (
        server_index_spec(pool.generation, count) + 1) % (count as int),
{
    let g = pool.generation as int;
    let n = count as int;
    assert((g + 1) % n == ((g % n) + 1) % n) by (nonlinear_arith)
        requires
            n > 0,
            g >= 0,
    ;
}

/// Of two failed attempts that saw the same generation, only the first one's
/// remedy changes the pool when it rotated: the second is skipped.
pub proof fn law_second_remedy_skipped<C>(pool: PoolModel<C>, first: Failure, second: Failure)
    requires
        pool.generation < u64::MAX,
        !first.is_transport(),
    ensures
        remedied(remedied(pool, pool.generation, first), pool.generation, second) == remedied(
            pool,
            pool.generation,
            first,
        ),
        remedied(remedied(pool, pool.generation, first), pool.generation, second).generation
            == pool.generation + 1,
{
}

/// Two transport failures seen at one generation discard the client once: the
/// pool is as after the first, and the client built next moves it on by one
/// generation.
pub proof fn law_discard_once<C>(pool: PoolModel<C>, first: Failure, second: Failure, fresh: C)
    requires
        pool.generation < u64::MAX,
        first.is_transport(),
        second.is_transport(),
    ensures
        remedied(remedied(pool, pool.generation, first), pool.generation, second) == remedied(
            pool,
            pool.generation,
            first,
        ),
        installed(
            remedied(remedied(pool, pool.generation, first), pool.generation, second),
            fresh,
        ).generation == pool.generation + 1,
{
}

/// The generation never goes down, and moves by one at most in a step.
pub proof fn law_generation_monotone<C>(pool: PoolModel<C>, observed: u64, failure: Failure, fresh: C)
    requires
        pool.generation < u64::MAX,
    ensures
        pool.generation <= remedied(pool, observed, failure).generation <= pool.generation + 1,
        pool.generation <= installed(pool, fresh).generation <= pool.generation + 1,
{
}

/// A missing record is never retried: the failure is surfaced as it came and
/// the pool is left alone, whatever the retry count and the shutdown flag.
pub proof fn law_not_found_is_final<C>(
    pool: PoolModel<C>,
    observed: u64,
    n_retries: u32,
    shutdown: bool,
)
    ensures
        next_step(Err(Failure::Http(404)), n_retries, shutdown) == Next::Surface(Failure::Http(404)),
        pool_after(pool, observed, Err(Failure::Http(404)), n_retries, shutdown) == pool,
{
}

/// No request is retried once the budget is spent or shutdown was asked for.
pub proof fn law_budget_bounds_retries(failure: Failure, n_retries: u32, shutdown: bool)
    requires
        n_retries >= RETRY_BUDGET || shutdown,
    ensures
        next_step(Err(failure), n_retries, shutdown) == Next::Surface(failure),
{
}

/// A timeout is reported under another status than a transport failure.
pub proof fn law_timeout_is_not_transport(why: String)
    ensures
        Failure::Timeout.status_spec() == 408,
        Failure::Timeout.status_spec() != Failure::Transport(why).status_spec(),
        !Failure::Timeout.is_transport(),
        Failure::Transport(why).is_transport(),
{
}

} // verus!
