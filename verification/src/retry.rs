//! Retry policy for remote calls, and the bookkeeping of one retried call.
//!
//! A failed remote call is either worth repeating (the provider throttled
//! it, the connection broke, the server faulted) or it is not. The policy
//! decides between the two and computes how long to wait; [`RetryContext`]
//! applies it to one logical operation, attempt after attempt.

use vstd::arithmetic::power2::*;
use vstd::prelude::*;

verus! {

/// How a failed remote call is classified for the purpose of retrying.
#[derive(Clone, Copy, Debug, PartialEq, Eq, Structural)]
pub enum ErrorClass {
    /// The provider answered that too many requests were made.
    RateLimited,
    /// The request never completed: connection or transport failure.
    Transport,
    /// The server answered with a status of 500 or above.
    Server,
    /// Anything else: malformed input, a client error other than rate
    /// limiting, an oversized payload, an unsupported format.
    Fatal,
}

/// What to do after a failed attempt.
#[derive(Clone, Copy, Debug, PartialEq, Eq, Structural)]
pub enum RetryDecision {
    /// Give up and surface the error.
    Stop,
    /// Wait this many seconds, then attempt again.
    RetryAfter(u64),
}

/// Seconds of cool-down per attempt after a rate-limited response.
pub const RATE_LIMIT_BASE_SECS: u64 = 30;

/// The exponent from which exponential backoff no longer fits in 64 bits.
pub const BACKOFF_EXPONENT_LIMIT: u32 = 64;

impl ErrorClass {
    /// Whether a failure of this class may clear by itself.
    pub open spec fn retryable(self) -> bool {
        self != ErrorClass::Fatal
    }

    /// Executable form of [`ErrorClass::retryable`].
    pub fn is_retryable(self) -> (r: bool)
        ensures
            r == self.retryable(),
    {
        match self {
            ErrorClass::Fatal => false,
            _ => true,
        }
    }
}

/// The delay, in seconds, before the retry that follows failed attempt
/// number `attempt` (counted from zero).
///
/// Rate limiting backs off linearly, thirty seconds per attempt made so
/// far. Every other class backs off exponentially from one second, and
/// stays at the largest 64-bit value once the power of two exceeds it.
pub open spec fn backoff_secs(class: ErrorClass, attempt: nat) -> nat {
    match class {
        ErrorClass::RateLimited => RATE_LIMIT_BASE_SECS as nat * (attempt + 1),
        _ => if attempt < BACKOFF_EXPONENT_LIMIT {
            pow2(attempt)
        } else {
            u64::MAX as nat
        },
    }
}

/// What the policy decides after failed attempt number `attempt` out of
/// `max_attempts` allowed.
pub open spec fn decision(class: ErrorClass, attempt: nat, max_attempts: nat) -> RetryDecision {
    if class.retryable() && attempt + 1 < max_attempts {
        RetryDecision::RetryAfter(backoff_secs(class, attempt) as u64)
    } else {
        RetryDecision::Stop
    }
}

/// Every delay the policy computes for a 32-bit attempt counter fits in 64
/// bits.
pub proof fn lemma_backoff_fits(class: ErrorClass, attempt: nat)
    requires
        attempt <= u32::MAX,
    ensures
        backoff_secs(class, attempt) <= u64::MAX,
{
    if class != ErrorClass::RateLimited && attempt < BACKOFF_EXPONENT_LIMIT {
        lemma2_to64_rest();
        if attempt < 63 {
            lemma_pow2_strictly_increases(attempt, 63);
        }
    }
}

/// Two to the power `exponent`, for an exponent below sixty-four.
fn power_of_two(exponent: u32) -> (r: u64)
    requires
        exponent < BACKOFF_EXPONENT_LIMIT,
    ensures
        r == pow2(exponent as nat),
{
    let mut r: u64 = 1;
    let mut i: u32 = 0;
    proof {
        lemma2_to64();
    }
    while i < exponent
        invariant
            i <= exponent < BACKOFF_EXPONENT_LIMIT,
            r == pow2(i as nat),
        decreases exponent - i,
    {
        proof {
            lemma_pow2_unfold((i + 1) as nat);
            lemma2_to64_rest();
            if i + 1 < 63 {
                lemma_pow2_strictly_increases((i + 1) as nat, 63);
            }
        }
        r = r * 2;
        i = i + 1;
    }
    r
}

/// Computes [`backoff_secs`].
pub fn backoff_delay(class: ErrorClass, attempt: u32) -> (secs: u64)
    ensures
        secs == backoff_secs(class, attempt as nat),
{
    match class {
        ErrorClass::RateLimited => {
            let made: u64 = attempt as u64 + 1;
            RATE_LIMIT_BASE_SECS * made
        },
        _ => {
            if attempt < BACKOFF_EXPONENT_LIMIT {
                power_of_two(attempt)
            } else {
                u64::MAX
            }
        },
    }
}

/// The retry policy: stop on a fatal class, stop when `attempt` was the
/// last attempt allowed, otherwise retry after the class's backoff delay.
pub fn decide(class: ErrorClass, attempt: u32, max_attempts: u32) -> (d: RetryDecision)
    ensures
        d == decision(class, attempt as nat, max_attempts as nat),
{
    if class.is_retryable() && attempt < max_attempts && attempt + 1 < max_attempts {
        proof {
            lemma_backoff_fits(class, attempt as nat);
        }
        RetryDecision::RetryAfter(backoff_delay(class, attempt))
    } else {
        RetryDecision::Stop
    }
}

/// A fatal failure is never retried, whatever the attempt count.
pub proof fn lemma_fatal_always_stops(attempt: nat, max_attempts: nat)
    ensures
        decision(ErrorClass::Fatal, attempt, max_attempts) == RetryDecision::Stop,
{
}

/// A transient failure is retried exactly while another attempt is left:
/// the decision is `RetryAfter` when `attempt + 1 < max_attempts`, and
/// `Stop` from `attempt + 1 == max_attempts` on.
pub proof fn lemma_transient_retries_until_exhausted(
    class: ErrorClass,
    attempt: nat,
    max_attempts: nat,
)
    requires
        class.retryable(),
    ensures
        attempt + 1 < max_attempts ==> decision(class, attempt, max_attempts)
            == RetryDecision::RetryAfter(backoff_secs(class, attempt) as u64),
        attempt + 1 >= max_attempts ==> decision(class, attempt, max_attempts)
            == RetryDecision::Stop,
{
}

/// With a single attempt allowed nothing is ever retried.
pub proof fn lemma_single_attempt_never_retries(class: ErrorClass, attempt: nat)
    ensures
        decision(class, attempt, 1) == RetryDecision::Stop,
{
}

/// The rate-limit delay never shrinks as attempts accumulate.
pub proof fn lemma_rate_limit_backoff_monotonic(earlier: nat, later: nat)
    requires
        earlier <= later,
    ensures
        backoff_secs(ErrorClass::RateLimited, earlier) <= backoff_secs(
            ErrorClass::RateLimited,
            later,
        ),
{
    assert(30 * (earlier + 1) <= 30 * (later + 1)) by (nonlinear_arith)
        requires
            earlier <= later,
    ;
}

/// The delay of every other transient class starts at one second and
/// doubles with each attempt, as long as the doubled value fits in 64 bits.
pub proof fn lemma_transient_backoff_doubles(class: ErrorClass, attempt: nat)
    requires
        class.retryable(),
        class != ErrorClass::RateLimited,
        attempt + 1 < BACKOFF_EXPONENT_LIMIT,
    ensures
        backoff_secs(class, 0) == 1,
        backoff_secs(class, attempt + 1) == 2 * backoff_secs(class, attempt),
        backoff_secs(class, attempt + 1) > backoff_secs(class, attempt),
{
    lemma2_to64();
    lemma_pow2_unfold(attempt + 1);
    lemma_pow2_pos(attempt);
}

/// An error that a remote operation can fail with.
pub trait RemoteError: Sized {
    /// The class the retry policy sees in this error.
    spec fn class(&self) -> ErrorClass;

    /// Computes [`RemoteError::class`].
    fn classify(&self) -> (c: ErrorClass)
        ensures
            c == self.class(),
    ;

    /// The error that reports that no attempt was allowed at all.
    spec fn exhausted_spec(max_attempts: u32) -> Self;

    /// Builds [`RemoteError::exhausted_spec`].
    fn exhausted(max_attempts: u32) -> (e: Self)
        ensures
            e == Self::exhausted_spec(max_attempts),
    ;
}

/// What the caller of a retried operation does once an attempt has ended.
#[derive(Debug)]
pub enum CallStep<T, E> {
    /// Hand this result to whoever asked for the operation.
    Finish(Result<T, E>),
    /// Sleep `delay_secs`, then run the operation again. `failed_attempt`
    /// is the number, counted from one, of the attempt that just failed.
    Retry { failed_attempt: u32, max_attempts: u32, delay_secs: u64 },
}

/// The state of one retried remote call: how many attempts have failed and
/// were forgiven, the last forgiven error, and the delay before the next
/// attempt.
#[derive(Debug)]
pub struct RetryContext<E> {
    pub attempt: u32,
    pub max_attempts: u32,
    pub last_error: Option<E>,
    pub next_delay_secs: u64,
}

impl<E: RemoteError> RetryContext<E> {
    /// A context is well formed while the attempt in progress is one of
    /// the `max_attempts` allowed, or none is allowed and none was made.
    pub open spec fn wf(&self) -> bool {
        &&& self.max_attempts == 0 ==> self.attempt == 0 && self.last_error is None
        &&& self.max_attempts > 0 ==> self.attempt < self.max_attempts
        &&& self.attempt == 0 <==> self.last_error is None
    }

    /// The number of attempts begun so far, the one in progress included,
    /// once [`RetryContext::start`] has allowed the first.
    pub open spec fn attempts_begun(&self) -> nat {
        if self.max_attempts == 0 {
            0
        } else {
            (self.attempt + 1) as nat
        }
    }

    /// A fresh context for an operation that may be attempted
    /// `max_attempts` times.
    pub fn new(max_attempts: u32) -> (ctx: Self)
        ensures
            ctx.wf(),
            ctx.attempt == 0,
            ctx.max_attempts == max_attempts,
            ctx.last_error is None,
            ctx.next_delay_secs == 0,
    {
        RetryContext { attempt: 0, max_attempts, last_error: None, next_delay_secs: 0 }
    }

    /// Whether the first attempt may run. With no attempt allowed the call
    /// fails at once with the error that says so.
    pub fn start(&self) -> (refusal: Option<E>)
        ensures
            self.max_attempts > 0 ==> refusal is None,
            self.max_attempts == 0 ==> refusal == Some(E::exhausted_spec(0)),
    {
        if self.max_attempts == 0 {
            Some(E::exhausted(0))
        } else {
            None
        }
    }

    /// Takes the result of the attempt in progress and says how the call
    /// goes on. A success ends the call at once. A failure goes to the
    /// retry policy: on `Retry` the attempt counter advances and the error
    /// is kept as the last error; otherwise the call ends with the error
    /// and the context is unchanged.
    pub fn on_result<T>(&mut self, result: Result<T, E>) -> (step: CallStep<T, E>)
        requires
            old(self).wf(),
            old(self).max_attempts > 0,
        ensures
            final(self).wf(),
            final(self).max_attempts == old(self).max_attempts,
            match result {
                Ok(value) => step == CallStep::<T, E>::Finish(Ok(value)) && *final(self)
                    == *old(self),
                Err(err) => match decision(
                    err.class(),
                    old(self).attempt as nat,
                    old(self).max_attempts as nat,
                ) {
                    RetryDecision::RetryAfter(delay) => {
                        &&& step == (CallStep::<T, E>::Retry {
                            failed_attempt: (old(self).attempt + 1) as u32,
                            max_attempts: old(self).max_attempts,
                            delay_secs: delay,
                        })
                        &&& final(self).attempt == old(self).attempt + 1
                        &&& final(self).last_error == Some(err)
                        &&& final(self).next_delay_secs == delay
                    },
                    RetryDecision::Stop => {
                        &&& step == CallStep::<T, E>::Finish(Err(err))
                        &&& *final(self) == *old(self)
                    },
                },
            },
    {
        match result {
            Ok(value) => CallStep::Finish(Ok(value)),
            Err(err) => match decide(err.classify(), self.attempt, self.max_attempts) {
                RetryDecision::RetryAfter(delay) => {
                    let failed_attempt: u32 = self.attempt + 1;
                    self.attempt = failed_attempt;
                    self.last_error = Some(err);
                    self.next_delay_secs = delay;
                    CallStep::Retry {
                        failed_attempt,
                        max_attempts: self.max_attempts,
                        delay_secs: delay,
                    }
                },
                RetryDecision::Stop => CallStep::Finish(Err(err)),
            },
        }
    }
}

/// However the attempts of one call turn out, no more than `max_attempts`
/// of them are ever begun.
pub proof fn lemma_attempts_bounded<E: RemoteError>(ctx: RetryContext<E>)
    requires
        ctx.wf(),
    ensures
        ctx.attempts_begun() <= ctx.max_attempts,
{
}

/// A failure is forgiven only if it is retryable and another attempt is
/// left; a fatal failure, or one on the last attempt, ends the call.
pub proof fn lemma_give_up_conditions<E: RemoteError>(ctx: RetryContext<E>, err: E)
    requires
        ctx.wf(),
        ctx.max_attempts > 0,
    ensures
        decision(err.class(), ctx.attempt as nat, ctx.max_attempts as nat) == RetryDecision::Stop
            <==> (!err.class().retryable() || ctx.attempts_begun() == ctx.max_attempts),
{
}

/// How many attempts a call makes when its attempts end as `outcomes`
/// tell, in order: `None` for a success, `Some(class)` for a failure of
/// that class. `attempt` is the number, counted from zero, of the first of
/// these attempts. The call goes on while the policy forgives the
/// failure; what follows in `outcomes` after its end is never attempted.
pub open spec fn attempts_made(
    outcomes: Seq<Option<ErrorClass>>,
    attempt: nat,
    max_attempts: nat,
) -> nat
    decreases outcomes.len(),
{
    if outcomes.len() == 0 {
        0
    } else {
        match outcomes[0] {
            None => 1,
            Some(class) => match decision(class, attempt, max_attempts) {
                RetryDecision::Stop => 1,
                RetryDecision::RetryAfter(_) => 1 + attempts_made(
                    outcomes.skip(1),
                    attempt + 1,
                    max_attempts,
                ),
            },
        }
    }
}

/// Whether an attempt ended in a failure that may clear by itself.
pub open spec fn transient(outcome: Option<ErrorClass>) -> bool {
    outcome is Some && outcome->Some_0.retryable()
}

/// A call never makes more attempts than it is allowed, however its
/// attempts end.
pub proof fn lemma_attempts_within_limit(
    outcomes: Seq<Option<ErrorClass>>,
    attempt: nat,
    max_attempts: nat,
)
    requires
        attempt < max_attempts,
    ensures
        attempt + attempts_made(outcomes, attempt, max_attempts) <= max_attempts,
    decreases outcomes.len(),
{
    if outcomes.len() > 0 {
        match outcomes[0] {
            None => {},
            Some(class) => {
                if class.retryable() && attempt + 1 < max_attempts {
                    lemma_attempts_within_limit(outcomes.skip(1), attempt + 1, max_attempts);
                }
            },
        }
    }
}

/// A call whose first `k` attempts fail with transient errors and whose
/// next attempt succeeds makes exactly `k + 1` attempts, provided that
/// many are allowed.
pub proof fn lemma_success_after_transient_failures(
    outcomes: Seq<Option<ErrorClass>>,
    k: int,
    attempt: nat,
    max_attempts: nat,
)
    requires
        0 <= k < outcomes.len(),
        attempt + k < max_attempts,
        forall|i: int| 0 <= i < k ==> transient(#[trigger] outcomes[i]),
        outcomes[k] is None,
    ensures
        attempts_made(outcomes, attempt, max_attempts) == k + 1,
    decreases k,
{
    if k > 0 {
        assert(transient(outcomes[0]));
        assert forall|i: int| 0 <= i < k - 1 implies transient(
            #[trigger] outcomes.skip(1)[i],
        ) by {
            assert(outcomes.skip(1)[i] == outcomes[i + 1]);
        }
        lemma_success_after_transient_failures(outcomes.skip(1), k - 1, attempt + 1, max_attempts);
    }
}

} // verus!
