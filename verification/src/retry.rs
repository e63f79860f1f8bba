//! The retry coordinator: a state machine that tells its driver when to send
//! the request, how long to wait after a rate-limited response, and when to
//! stop.

use crate::errors::ZoteroError;
use vstd::prelude::*;
use vstd::string::*;

verus! {

/// Status code of a rate-limited response.
pub const TOO_MANY_REQUESTS: u16 = 429;

/// Retry budget of a fresh client.
pub const DEFAULT_MAX_RETRIES: u8 = 5;

/// The message of a call that gave up.
pub const GAVE_UP: &'static str = "429: Too Many Requests";

/// Nanoseconds in one second.
pub const NANOS_PER_SEC: u32 = 1_000_000_000;

/// A non-negative span of time: whole seconds and a sub-second rest.
#[derive(Clone, Copy, Debug, PartialEq, Eq)]
pub struct Delay {
    secs: u64,
    subsec_nanos: u32,
}

impl Delay {
    #[verifier::type_invariant]
    spec fn well_formed(self) -> bool {
        self.subsec_nanos < NANOS_PER_SEC
    }

    /// Whole seconds of the span.
    pub closed spec fn spec_secs(self) -> nat {
        self.secs as nat
    }

    /// Nanoseconds beyond the whole seconds.
    pub closed spec fn spec_subsec_nanos(self) -> nat {
        self.subsec_nanos as nat
    }

    /// The span in nanoseconds.
    pub open spec fn total_nanos(self) -> nat {
        self.spec_secs() * (NANOS_PER_SEC as nat) + self.spec_subsec_nanos()
    }

    /// The empty span.
    pub closed spec fn spec_zero() -> Delay {
        Delay { secs: 0, subsec_nanos: 0 }
    }

    /// The empty span lasts no time.
    pub proof fn lemma_zero_lasts_nothing()
        ensures
            Delay::spec_zero().spec_secs() == 0,
            Delay::spec_zero().spec_subsec_nanos() == 0,
            Delay::spec_zero().total_nanos() == 0,
    {
    }

    /// Two spans of the same seconds and nanoseconds are the same span.
    pub proof fn lemma_same_parts_same_span(a: Delay, b: Delay)
        requires
            a.spec_secs() == b.spec_secs(),
            a.spec_subsec_nanos() == b.spec_subsec_nanos(),
        ensures
            a == b,
    {
    }

    /// The empty span.
    pub fn zero() -> (d: Delay)
        ensures
            d == Delay::spec_zero(),
    {
        Delay { secs: 0, subsec_nanos: 0 }
    }

    /// The span of `secs` seconds and `subsec_nanos` nanoseconds, or `None`
    /// when `subsec_nanos` is a second or more.
    pub fn new(secs: u64, subsec_nanos: u32) -> (d: Option<Delay>)
        ensures
            d is Some <==> subsec_nanos < NANOS_PER_SEC,
            d matches Some(v) ==> v.spec_secs() == secs && v.spec_subsec_nanos() == subsec_nanos,
    {
        if subsec_nanos < NANOS_PER_SEC {
            Some(Delay { secs, subsec_nanos })
        } else {
            None
        }
    }

    /// Whole seconds of the span.
    pub fn secs(&self) -> (s: u64)
        ensures
            s == self.spec_secs(),
    {
        self.secs
    }

    /// Nanoseconds beyond the whole seconds; always less than a second.
    pub fn subsec_nanos(&self) -> (n: u32)
        ensures
            n == self.spec_subsec_nanos(),
            n < NANOS_PER_SEC,
    {
        proof {
            use_type_invariant(self);
        }
        self.subsec_nanos
    }
}

/// What one delay header of a response says.
#[derive(Clone, Copy, Debug, PartialEq, Eq)]
pub enum HeaderDelay {
    /// The response does not carry the header.
    Absent,
    /// The header is there, but its value is not a usable number of seconds.
    Unreadable,
    /// The header gives this delay.
    Seconds(Delay),
}

/// What the engine reads of a response before it touches the body.
#[derive(Debug)]
pub struct ResponseHead {
    /// The status code.
    pub status: u16,
    /// The `backoff` header.
    pub backoff: HeaderDelay,
    /// The `retry-after` header.
    pub retry_after: HeaderDelay,
    /// The `content-type` header, where it is present and readable as text.
    pub content_type: Option<String>,
}

/// The delay that a response asks for: the `backoff` header where the
/// response carries one, else the `retry-after` header; a header that is
/// there but unreadable, or no header at all, leaves `previous` in force.
pub open spec fn chosen_delay(
    previous: Delay,
    backoff: HeaderDelay,
    retry_after: HeaderDelay,
) -> Delay {
    match backoff {
        HeaderDelay::Seconds(d) => d,
        HeaderDelay::Unreadable => previous,
        HeaderDelay::Absent => match retry_after {
            HeaderDelay::Seconds(d) => d,
            _ => previous,
        },
    }
}

/// Computes [`chosen_delay`].
pub fn select_delay(previous: Delay, backoff: HeaderDelay, retry_after: HeaderDelay) -> (d: Delay)
    ensures
        d == chosen_delay(previous, backoff, retry_after),
{
    match backoff {
        HeaderDelay::Seconds(d) => d,
        HeaderDelay::Unreadable => previous,
        HeaderDelay::Absent => match retry_after {
            HeaderDelay::Seconds(d) => d,
            _ => previous,
        },
    }
}


/// Where a call stands.
#[derive(Clone, Copy, Debug, PartialEq, Eq)]
pub enum RetryPhase {
    /// The request is to be sent.
    Attempting,
    /// The last response was rate-limited; its delay is to be waited out.
    BackoffWait,
    /// A response that is not rate-limited has arrived.
    Succeeded,
    /// The retry budget is spent.
    Exhausted,
}

/// What the driver of a coordinator has to do next.
#[derive(Clone, Copy, Debug, PartialEq, Eq)]
pub enum RetryAction {
    /// Send the request and report the response.
    Send,
    /// Wait this long, then report that the wait is over.
    Wait(Delay),
    /// Hand the last response to the decoder.
    Decode,
    /// Give up: every attempt was rate-limited.
    GiveUp,
}

/// The state of a coordinator as contracts see it.
pub struct RetryModel {
    pub phase: RetryPhase,
    /// Rate-limited attempts so far.
    pub attempts: nat,
    pub max_retries: nat,
    /// The delay that the last rate-limited response asked for.
    pub backoff: Delay,
}

impl RetryModel {
    /// The state in which a call starts.
    pub open spec fn start(max_retries: nat) -> RetryModel {
        RetryModel {
            phase: if max_retries > 0 {
                RetryPhase::Attempting
            } else {
                RetryPhase::Exhausted
            },
            attempts: 0,
            max_retries,
            backoff: Delay::spec_zero(),
        }
    }

    /// What the driver has to do in this state.
    pub open spec fn action(self) -> RetryAction {
        match self.phase {
            RetryPhase::Attempting => RetryAction::Send,
            RetryPhase::BackoffWait => RetryAction::Wait(self.backoff),
            RetryPhase::Succeeded => RetryAction::Decode,
            RetryPhase::Exhausted => RetryAction::GiveUp,
        }
    }

    /// The state after a response arrived. Only an attempt that is under way
    /// takes a response: in any other phase the state stays as it is.
    pub open spec fn on_response(self, head: ResponseHead) -> RetryModel {
        if self.phase != RetryPhase::Attempting {
            self
        } else if head.status == TOO_MANY_REQUESTS {
            RetryModel {
                phase: RetryPhase::BackoffWait,
                backoff: chosen_delay(self.backoff, head.backoff, head.retry_after),
                ..self
            }
        } else {
            RetryModel { phase: RetryPhase::Succeeded, ..self }
        }
    }

    /// The state after the delay was waited out: the attempt is counted, and
    /// the request is sent again unless the budget is spent.
    pub open spec fn on_wait_elapsed(self) -> RetryModel {
        if self.phase != RetryPhase::BackoffWait {
            self
        } else {
            RetryModel {
                phase: if self.attempts + 1 < self.max_retries {
                    RetryPhase::Attempting
                } else {
                    RetryPhase::Exhausted
                },
                attempts: self.attempts + 1,
                ..self
            }
        }
    }

    /// What holds of every state that a coordinator reaches: while the
    /// request may still be sent, the budget is not spent.
    pub open spec fn consistent(self) -> bool {
        (self.phase == RetryPhase::Attempting || self.phase == RetryPhase::BackoffWait)
            ==> self.attempts < self.max_retries
    }
}

/// Decides, for one call, when the request is sent, how long to wait after a
/// rate-limited response, and when to stop.
#[derive(Clone, Copy, Debug)]
pub struct RetryCoordinator {
    phase: RetryPhase,
    attempts: u8,
    max_retries: u8,
    backoff: Delay,
}

impl View for RetryCoordinator {
    type V = RetryModel;

    closed spec fn view(&self) -> RetryModel {
        RetryModel {
            phase: self.phase,
            attempts: self.attempts as nat,
            max_retries: self.max_retries as nat,
            backoff: self.backoff,
        }
    }
}

impl RetryCoordinator {
    #[verifier::type_invariant]
    spec fn well_formed(self) -> bool {
        self@.consistent()
    }

    /// A coordinator for a call that may be sent `max_retries` times.
    pub fn new(max_retries: u8) -> (c: RetryCoordinator)
        ensures
            c@ == RetryModel::start(max_retries as nat),
            c@.consistent(),
    {
        RetryCoordinator {
            phase: if max_retries > 0 {
                RetryPhase::Attempting
            } else {
                RetryPhase::Exhausted
            },
            attempts: 0,
            max_retries,
            backoff: Delay::zero(),
        }
    }

    /// What the driver has to do next.
    pub fn action(&self) -> (a: RetryAction)
        ensures
            a == self@.action(),
    {
        match self.phase {
            RetryPhase::Attempting => RetryAction::Send,
            RetryPhase::BackoffWait => RetryAction::Wait(self.backoff),
            RetryPhase::Succeeded => RetryAction::Decode,
            RetryPhase::Exhausted => RetryAction::GiveUp,
        }
    }

    /// Takes the response to the request that was just sent.
    pub fn on_response(&mut self, head: &ResponseHead)
        ensures
            final(self)@ == old(self)@.on_response(*head),
            final(self)@.consistent(),
    {
        proof {
            use_type_invariant(&*self);
        }
        match self.phase {
            RetryPhase::Attempting => {
                if head.status == TOO_MANY_REQUESTS {
                    self.backoff = select_delay(self.backoff, head.backoff, head.retry_after);
                    self.phase = RetryPhase::BackoffWait;
                } else {
                    self.phase = RetryPhase::Succeeded;
                }
            },
            _ => {},
        }
    }

    /// Takes the news that the delay was waited out.
    pub fn on_wait_elapsed(&mut self)
        ensures
            final(self)@ == old(self)@.on_wait_elapsed(),
            final(self)@.consistent(),
    {
        proof {
            use_type_invariant(&*self);
        }
        match self.phase {
            RetryPhase::BackoffWait => {
                let attempts: u8 = self.attempts + 1;
                let phase = if attempts < self.max_retries {
                    RetryPhase::Attempting
                } else {
                    RetryPhase::Exhausted
                };
                *self = RetryCoordinator {
                    phase,
                    attempts,
                    max_retries: self.max_retries,
                    backoff: self.backoff,
                };
            },
            _ => {},
        }
    }

    /// Why the call failed, where the coordinator has given up; `None` in
    /// any other phase.
    pub fn failure(&self) -> (r: Option<ZoteroError>)
        ensures
            r is Some <==> self@.phase == RetryPhase::Exhausted,
            r matches Some(e) ==> (e matches ZoteroError::TooManyRequests(message) && message@
                == GAVE_UP@),
    {
        match self.phase {
            RetryPhase::Exhausted => Some(
                ZoteroError::TooManyRequests(String::from_str(GAVE_UP)),
            ),
            _ => None,
        }
    }

    /// Rate-limited attempts so far.
    pub fn attempts(&self) -> (n: u8)
        ensures
            n == self@.attempts,
    {
        self.attempts
    }
}


/// What a whole call comes to.
pub struct RunSummary {
    /// The phase in which the call stands when the responses are used up or
    /// the coordinator has stopped.
    pub end: RetryPhase,
    /// How often the request was sent.
    pub sends: nat,
    /// The time spent waiting, in nanoseconds.
    pub waited: nat,
}

/// Drives a coordinator from state `m` as its driver does: every `Send` takes
/// the next response of `heads`, every `Wait` is waited out.
pub open spec fn run(m: RetryModel, heads: Seq<ResponseHead>) -> RunSummary
    decreases
        heads.len(),
        (if m.phase == RetryPhase::BackoffWait {
            1nat
        } else {
            0nat
        }),
{
    match m.phase {
        RetryPhase::Attempting => if heads.len() == 0 {
            RunSummary { end: RetryPhase::Attempting, sends: 0, waited: 0 }
        } else {
            let rest = run(m.on_response(heads[0]), heads.drop_first());
            RunSummary { sends: rest.sends + 1, ..rest }
        },
        RetryPhase::BackoffWait => {
            let rest = run(m.on_wait_elapsed(), heads);
            RunSummary { waited: rest.waited + m.backoff.total_nanos(), ..rest }
        },
        _ => RunSummary { end: m.phase, sends: 0, waited: 0 },
    }
}

/// The sum of the delays that the responses `heads` ask for, one after the
/// other, where `previous` is the delay in force before the first of them.
pub open spec fn total_delay(previous: Delay, heads: Seq<ResponseHead>) -> nat
    decreases heads.len(),
{
    if heads.len() == 0 {
        0
    } else {
        let d = chosen_delay(previous, heads[0].backoff, heads[0].retry_after);
        d.total_nanos() + total_delay(d, heads.drop_first())
    }
}

/// Whether the first `n` responses of `heads` are all rate-limited.
pub open spec fn rate_limited_prefix(heads: Seq<ResponseHead>, n: int) -> bool {
    &&& 0 <= n <= heads.len()
    &&& forall|i: int| 0 <= i < n ==> (#[trigger] heads[i]).status == TOO_MANY_REQUESTS
}

proof fn lemma_run_until_success(m: RetryModel, heads: Seq<ResponseHead>, n: int)
    requires
        m.phase == RetryPhase::Attempting,
        rate_limited_prefix(heads, n),
        n < heads.len(),
        heads[n].status != TOO_MANY_REQUESTS,
        m.attempts + n < m.max_retries,
    ensures
        run(m, heads) == (RunSummary {
            end: RetryPhase::Succeeded,
            sends: (n + 1) as nat,
            waited: total_delay(m.backoff, heads.take(n)),
        }),
    decreases n,
{
    let tail = heads.drop_first();
    if n == 0 {
        assert(heads.take(0).len() == 0);
        assert(run(m.on_response(heads[0]), tail).sends == 0);
    } else {
        let waiting = m.on_response(heads[0]);
        let next = waiting.on_wait_elapsed();
        assert forall|i: int| 0 <= i < n - 1 implies (#[trigger] tail[i]).status
            == TOO_MANY_REQUESTS by {
            assert(tail[i] == heads[i + 1]);
        }
        assert(tail[n - 1] == heads[n]);
        lemma_run_until_success(next, tail, n - 1);
        assert(heads.take(n)[0] == heads[0]);
        assert(heads.take(n).drop_first() =~= tail.take(n - 1));
        assert(run(waiting, tail).waited == run(next, tail).waited
            + waiting.backoff.total_nanos());
    }
}

proof fn lemma_run_until_exhausted(m: RetryModel, heads: Seq<ResponseHead>)
    requires
        m.phase == RetryPhase::Attempting,
        m.attempts < m.max_retries,
        rate_limited_prefix(heads, m.max_retries - m.attempts),
    ensures
        run(m, heads) == (RunSummary {
            end: RetryPhase::Exhausted,
            sends: (m.max_retries - m.attempts) as nat,
            waited: total_delay(m.backoff, heads.take(m.max_retries - m.attempts)),
        }),
    decreases m.max_retries - m.attempts,
{
    let n = m.max_retries - m.attempts;
    let tail = heads.drop_first();
    assert(heads[0].status == TOO_MANY_REQUESTS);
    let waiting = m.on_response(heads[0]);
    let next = waiting.on_wait_elapsed();
    assert(heads.take(n)[0] == heads[0]);
    assert(heads.take(n).drop_first() =~= tail.take(n - 1));
    assert(total_delay(m.backoff, heads.take(n)) == waiting.backoff.total_nanos() + total_delay(
        waiting.backoff,
        tail.take(n - 1),
    ));
    assert(run(m, heads).sends == run(waiting, tail).sends + 1);
    assert(run(waiting, tail).waited == run(next, tail).waited + waiting.backoff.total_nanos());
    if n == 1 {
        assert(tail.take(0).len() == 0);
        assert(next.phase == RetryPhase::Exhausted);
        assert(run(next, tail).sends == 0);
    } else {
        assert forall|i: int| 0 <= i < n - 1 implies (#[trigger] tail[i]).status
            == TOO_MANY_REQUESTS by {
            assert(tail[i] == heads[i + 1]);
        }
        lemma_run_until_exhausted(next, tail);
    }
}

/// A call that meets `n` rate-limited responses and then one that is not
/// rate-limited, with `n` below the retry budget, succeeds on that response:
/// the request was sent `n + 1` times, and the time waited is the sum of the
/// delays that the rate-limited responses asked for.
pub proof fn lemma_retries_then_succeeds(max_retries: nat, heads: Seq<ResponseHead>, n: int)
    requires
        rate_limited_prefix(heads, n),
        n < heads.len(),
        heads[n].status != TOO_MANY_REQUESTS,
        n < max_retries,
    ensures
        run(RetryModel::start(max_retries), heads) == (RunSummary {
            end: RetryPhase::Succeeded,
            sends: (n + 1) as nat,
            waited: total_delay(Delay::spec_zero(), heads.take(n)),
        }),
{
    lemma_run_until_success(RetryModel::start(max_retries), heads, n);
}

/// A call whose first `max_retries` responses are all rate-limited gives up:
/// the request was sent exactly `max_retries` times, whatever responses
/// might have followed.
pub proof fn lemma_gives_up_after_max_retries(max_retries: nat, heads: Seq<ResponseHead>)
    requires
        rate_limited_prefix(heads, max_retries as int),
    ensures
        run(RetryModel::start(max_retries), heads) == (RunSummary {
            end: RetryPhase::Exhausted,
            sends: max_retries,
            waited: total_delay(Delay::spec_zero(), heads.take(max_retries as int)),
        }),
{
    if max_retries > 0 {
        lemma_run_until_exhausted(RetryModel::start(max_retries), heads);
    } else {
        assert(heads.take(0).len() == 0);
    }
}

/// Where a rate-limited response carries a readable `backoff` header, that
/// header decides the delay, whatever `retry-after` says and whatever delay
/// was in force before.
pub proof fn lemma_backoff_takes_precedence(m: RetryModel, head: ResponseHead, d: Delay)
    requires
        m.phase == RetryPhase::Attempting,
        head.status == TOO_MANY_REQUESTS,
        head.backoff == HeaderDelay::Seconds(d),
    ensures
        m.on_response(head).action() == RetryAction::Wait(d),
{
}

/// The `retry-after` header decides the delay only where the response has no
/// `backoff` header at all.
pub proof fn lemma_retry_after_is_the_fallback(m: RetryModel, head: ResponseHead, d: Delay)
    requires
        m.phase == RetryPhase::Attempting,
        head.status == TOO_MANY_REQUESTS,
        head.retry_after == HeaderDelay::Seconds(d),
    ensures
        head.backoff == HeaderDelay::Absent ==> m.on_response(head).action() == RetryAction::Wait(d),
        head.backoff == HeaderDelay::Unreadable ==> m.on_response(head).action()
            == RetryAction::Wait(m.backoff),
{
}

} // verus!
