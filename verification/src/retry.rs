//! Retry layer: exponential backoff around retryable connector failures.
//!
//! On a failed one-shot or stream-open call, when the error is retryable —
//! exactly the network, timeout and rate-limit kinds — and the attempt
//! count is below the maximum, the layer waits `min(initial_delay ×
//! multiplier^attempt, max_delay)` milliseconds and re-issues the call;
//! any other error returns at once. Only the stream-open call is retried:
//! once a stream delivers chunks, a mid-stream failure is never re-issued.
//!
//! Waiting itself is a port: the layer computes every delay and hands it
//! to a [`Delay`] implementation supplied by the caller.

use vstd::prelude::*;

use crate::error::{retryable, AiError, AiErrorV};
use crate::layer::Layer;
use crate::provider::Provider;
use crate::types::{
    dv_res, ChatCompletionRequest, ChatCompletionRequestV, ChatCompletionResponse,
    ChatCompletionResponseV, ProviderInfo, ProviderInfoV,
};

verus! {

/// A source of timed delays. The runtime asks it to wait; what waiting
/// means (an async sleep, a timer, nothing at all in tests) is the
/// implementation's business.
pub trait Delay: Sized {
    /// Wait for the given number of milliseconds.
    fn sleep_ms(&self, ms: u64);
}

/// The backoff delay before re-issuing the call after `attempt` failed
/// attempts: the initial delay grown `attempt` times by the multiplier (in
/// hundredths), capped at the maximum delay at every step. Capping at
/// every step equals capping once at the end for the doubling multiplier
/// (see [`lemma_backoff_doubling`]) and for any multiplier of at least
/// one; the two only part for an initial delay above the maximum combined
/// with a shrinking multiplier.
pub open spec fn backoff_delay(initial: int, mult_pct: int, max: int, attempt: nat) -> int
    decreases attempt,
{
    if attempt == 0 {
        if initial <= max {
            initial
        } else {
            max
        }
    } else {
        let prev = backoff_delay(initial, mult_pct, max, (attempt - 1) as nat);
        let grown = prev * mult_pct / 100;
        if grown <= max {
            grown
        } else {
            max
        }
    }
}

/// Retry layer configuration. The backoff multiplier is in hundredths: 200
/// doubles the delay after every failed attempt.
#[derive(Debug)]
pub struct RetryLayer<D: Delay> {
    /// Maximum number of retries after the first attempt.
    pub max_retries: u32,
    /// Delay before the first retry, in milliseconds.
    pub initial_delay_ms: u64,
    /// Cap on every delay, in milliseconds.
    pub max_delay_ms: u64,
    /// Multiplicative backoff factor, in hundredths.
    pub backoff_multiplier_pct: u32,
    /// The source of timed delays.
    pub delay: D,
}

impl<D: Delay + Clone> Clone for RetryLayer<D> {
    /// Cloning keeps the whole retry policy.
    fn clone(&self) -> (r: Self)
        ensures
            r.max_retries == self.max_retries,
            r.initial_delay_ms == self.initial_delay_ms,
            r.max_delay_ms == self.max_delay_ms,
            r.backoff_multiplier_pct == self.backoff_multiplier_pct,
    {
        RetryLayer {
            max_retries: self.max_retries,
            initial_delay_ms: self.initial_delay_ms,
            max_delay_ms: self.max_delay_ms,
            backoff_multiplier_pct: self.backoff_multiplier_pct,
            delay: self.delay.clone(),
        }
    }
}

impl<D: Delay> RetryLayer<D> {
    /// Create a new retry layer with the default policy: three retries,
    /// 100 ms initial delay doubling up to 10 s.
    pub fn new(delay: D) -> (r: RetryLayer<D>)
        ensures
            r.max_retries == 3u32,
            r.initial_delay_ms == 100u64,
            r.max_delay_ms == 10000u64,
            r.backoff_multiplier_pct == 200u32,
    {
        RetryLayer {
            max_retries: 3,
            initial_delay_ms: 100,
            max_delay_ms: 10000,
            backoff_multiplier_pct: 200,
            delay,
        }
    }

    /// Set the maximum number of retries.
    pub fn with_max_retries(self, max_retries: u32) -> (r: RetryLayer<D>)
        ensures
            r == (RetryLayer { max_retries, ..self }),
    {
        RetryLayer { max_retries, ..self }
    }

    /// Set the initial delay, in milliseconds.
    pub fn with_initial_delay(self, initial_delay_ms: u64) -> (r: RetryLayer<D>)
        ensures
            r == (RetryLayer { initial_delay_ms, ..self }),
    {
        RetryLayer { initial_delay_ms, ..self }
    }

    /// Set the maximum delay, in milliseconds.
    pub fn with_max_delay(self, max_delay_ms: u64) -> (r: RetryLayer<D>)
        ensures
            r == (RetryLayer { max_delay_ms, ..self }),
    {
        RetryLayer { max_delay_ms, ..self }
    }

    /// Set the backoff multiplier, in hundredths.
    pub fn with_backoff_multiplier(self, backoff_multiplier_pct: u32) -> (r: RetryLayer<D>)
        ensures
            r == (RetryLayer { backoff_multiplier_pct, ..self }),
    {
        RetryLayer { backoff_multiplier_pct, ..self }
    }

    /// The delay before the retry following `attempt` failed attempts.
    pub fn calculate_delay(&self, attempt: u32) -> (r: u64)
        ensures
            r as int == backoff_delay(
                self.initial_delay_ms as int,
                self.backoff_multiplier_pct as int,
                self.max_delay_ms as int,
                attempt as nat,
            ),
    {
        let mut d: u64 = if self.initial_delay_ms <= self.max_delay_ms {
            self.initial_delay_ms
        } else {
            self.max_delay_ms
        };
        let mut i: u32 = 0;
        while i < attempt
            invariant
                0 <= i <= attempt,
                d as int == backoff_delay(
                    self.initial_delay_ms as int,
                    self.backoff_multiplier_pct as int,
                    self.max_delay_ms as int,
                    i as nat,
                ),
                d <= self.max_delay_ms || d == self.initial_delay_ms,
            decreases attempt - i,
        {
            proof {
                assert(d as u128 as int * (self.backoff_multiplier_pct as u128 as int)
                    <= 0xffff_ffff_ffff_ffff * 0xffff_ffff) by (nonlinear_arith)
                    requires
                        d as u128 as int <= 0xffff_ffff_ffff_ffff,
                        self.backoff_multiplier_pct as u128 as int <= 0xffff_ffff,
                ;
            }
            let grown: u128 = d as u128 * self.backoff_multiplier_pct as u128 / 100;
            d = if grown <= self.max_delay_ms as u128 {
                grown as u64
            } else {
                self.max_delay_ms
            };
            i += 1;
        }
        d
    }

    /// Decide what to do about a failed attempt: retry, after the backoff
    /// delay, exactly when the error is retryable and the attempt count is
    /// below the maximum.
    pub fn decide(&self, error: &AiError, attempt: u32) -> (r: RetryDecision)
        ensures
            (r is Retry) == (retryable(error.deep_view()) && attempt < self.max_retries),
            r matches RetryDecision::Retry { delay_ms } ==> delay_ms as int == backoff_delay(
                self.initial_delay_ms as int,
                self.backoff_multiplier_pct as int,
                self.max_delay_ms as int,
                attempt as nat,
            ),
    {
        if error.is_retryable() && attempt < self.max_retries {
            RetryDecision::Retry { delay_ms: self.calculate_delay(attempt) }
        } else {
            RetryDecision::GiveUp
        }
    }
}

/// What the retry layer does about one failed attempt.
#[derive(Debug, Clone, Copy, PartialEq, Eq, Structural)]
pub enum RetryDecision {
    /// Wait for the delay, then re-issue the call.
    Retry { delay_ms: u64 },
    /// Return the error to the caller.
    GiveUp,
}

/// Law: with the doubling multiplier, the delay after `attempt` failed
/// attempts is the initial delay times two to the `attempt`, capped at the
/// maximum delay — the per-step cap never changes the value.
pub proof fn lemma_backoff_doubling(initial: int, max: int, attempt: nat)
    requires
        0 <= initial,
        0 <= max,
    ensures
        backoff_delay(initial, 200, max, attempt) == if initial * vstd::arithmetic::power2::pow2(
            attempt,
        ) <= max {
            initial * vstd::arithmetic::power2::pow2(attempt)
        } else {
            max
        },
    decreases attempt,
{
    vstd::arithmetic::power2::lemma_pow2_pos(attempt);
    if attempt == 0 {
        vstd::arithmetic::power2::lemma2_to64();
    } else {
        lemma_backoff_doubling(initial, max, (attempt - 1) as nat);
        let p = vstd::arithmetic::power2::pow2((attempt - 1) as nat) as int;
        vstd::arithmetic::power2::lemma_pow2_unfold(attempt);
        vstd::arithmetic::power2::lemma_pow2_pos((attempt - 1) as nat);
        assert(vstd::arithmetic::power2::pow2(attempt) == 2 * vstd::arithmetic::power2::pow2(
            (attempt - 1) as nat,
        ));
        let prev = backoff_delay(initial, 200, max, (attempt - 1) as nat);
        assert(prev * 200 / 100 == prev * 2) by (nonlinear_arith);
        if initial * p <= max {
            assert(initial * p * 2 == initial * (2 * p)) by (nonlinear_arith);
        } else {
            assert(initial * (2 * p) >= initial * p) by (nonlinear_arith)
                requires
                    0 <= initial,
                    0 < p,
            ;
            assert(max * 2 >= max);
        }
    }
}

/// Connector wrapped with retry logic.
#[derive(Debug)]
pub struct RetryProvider<P: Provider, D: Delay> {
    inner: P,
    config: RetryLayer<D>,
}

impl<P: Provider, D: Delay + Clone> Layer<P> for RetryLayer<D> {
    type Layered = RetryProvider<P, D>;

    /// The produced provider owns the wrapped connector and keeps this
    /// layer's retry policy.
    open spec fn wraps(&self, inner: P, r: Self::Layered) -> bool {
        r.inner() == inner && r.policy() == (
            self.max_retries,
            self.initial_delay_ms,
            self.max_delay_ms,
            self.backoff_multiplier_pct,
        )
    }

    /// Wrap the connector: the provider keeps this layer's policy and
    /// delay source.
    fn layer(&self, inner: P) -> (r: Self::Layered)
        ensures
            self.wraps(inner, r),
    {
        RetryProvider { inner, config: self.clone() }
    }
}

impl<P: Provider, D: Delay> RetryProvider<P, D> {
    /// Wrap a connector with this retry policy.
    pub fn new(inner: P, config: RetryLayer<D>) -> (r: RetryProvider<P, D>)
        ensures
            r.inner() == inner,
            r.policy() == (config.max_retries, config.initial_delay_ms, config.max_delay_ms,
            config.backoff_multiplier_pct),
    {
        RetryProvider { inner, config }
    }

    /// The wrapped connector.
    pub closed spec fn inner(&self) -> P {
        self.inner
    }

    /// The four numbers of the retry policy: maximum retries, initial
    /// delay, maximum delay, backoff multiplier.
    pub closed spec fn policy(&self) -> (u32, u64, u64, u32) {
        (
            self.config.max_retries,
            self.config.initial_delay_ms,
            self.config.max_delay_ms,
            self.config.backoff_multiplier_pct,
        )
    }

    /// Run the one-shot completion with retries, recording in `delays`
    /// each backoff delay waited. The outcome always satisfies the inner
    /// connector's guarantee; an error comes back only when it is not
    /// retryable or the whole retry budget was spent, and the recorded
    /// delays follow the backoff formula.
    pub fn completion_with_retry(
        &self,
        req: &ChatCompletionRequest,
        delays: &mut Vec<u64>,
    ) -> (r: Result<ChatCompletionResponse, AiError>)
        requires
            old(delays)@.len() == 0,
        ensures
            self.inner().completion_post(req.deep_view(), dv_res(r)),
            final(delays)@.len() <= self.policy().0,
            forall|k: int|
                0 <= k < final(delays)@.len() ==> #[trigger] final(delays)@[k] as int
                    == backoff_delay(
                    self.policy().1 as int,
                    self.policy().3 as int,
                    self.policy().2 as int,
                    k as nat,
                ),
            r matches Err(e) ==> !retryable(e.deep_view()) || final(delays)@.len()
                == self.policy().0 as int,
    {
        let mut attempt: u32 = 0;
        loop
            invariant
                delays@.len() == attempt as int,
                attempt <= self.config.max_retries,
                forall|k: int|
                    0 <= k < delays@.len() ==> #[trigger] delays@[k] as int == backoff_delay(
                        self.config.initial_delay_ms as int,
                        self.config.backoff_multiplier_pct as int,
                        self.config.max_delay_ms as int,
                        k as nat,
                    ),
            decreases self.config.max_retries - attempt,
        {
            let result = self.inner.chat_completion(req);
            match result {
                Ok(resp) => {
                    return Ok(resp);
                },
                Err(e) => {
                    match self.config.decide(&e, attempt) {
                        RetryDecision::GiveUp => {
                            return Err(e);
                        },
                        RetryDecision::Retry { delay_ms } => {
                            self.config.delay.sleep_ms(delay_ms);
                            delays.push(delay_ms);
                            attempt += 1;
                        },
                    }
                },
            }
        }
    }

    /// Open the stream with retries, recording each backoff delay waited,
    /// under the same policy as [`Self::completion_with_retry`]. Only this
    /// opening call is retried, never a failure of the running stream.
    pub fn stream_with_retry(&self, req: &ChatCompletionRequest, delays: &mut Vec<u64>) -> (r:
        Result<P::Stream, AiError>)
        requires
            old(delays)@.len() == 0,
        ensures
            self.inner().stream_post(req.deep_view(), &r),
            final(delays)@.len() <= self.policy().0,
            forall|k: int|
                0 <= k < final(delays)@.len() ==> #[trigger] final(delays)@[k] as int
                    == backoff_delay(
                    self.policy().1 as int,
                    self.policy().3 as int,
                    self.policy().2 as int,
                    k as nat,
                ),
            r matches Err(e) ==> !retryable(e.deep_view()) || final(delays)@.len()
                == self.policy().0 as int,
    {
        let mut attempt: u32 = 0;
        loop
            invariant
                delays@.len() == attempt as int,
                attempt <= self.config.max_retries,
                forall|k: int|
                    0 <= k < delays@.len() ==> #[trigger] delays@[k] as int == backoff_delay(
                        self.config.initial_delay_ms as int,
                        self.config.backoff_multiplier_pct as int,
                        self.config.max_delay_ms as int,
                        k as nat,
                    ),
            decreases self.config.max_retries - attempt,
        {
            let result = self.inner.stream_chat_completion(req);
            match result {
                Ok(stream) => {
                    return Ok(stream);
                },
                Err(e) => {
                    match self.config.decide(&e, attempt) {
                        RetryDecision::GiveUp => {
                            return Err(e);
                        },
                        RetryDecision::Retry { delay_ms } => {
                            self.config.delay.sleep_ms(delay_ms);
                            delays.push(delay_ms);
                            attempt += 1;
                        },
                    }
                },
            }
        }
    }
}

impl<P: Provider, D: Delay> Provider for RetryProvider<P, D> {
    type Stream = P::Stream;

    /// The identity of the wrapped connector, unchanged.
    open spec fn s_info(&self) -> ProviderInfoV {
        self.inner().s_info()
    }

    /// Retry absorbs retryable failures but never changes what an outcome
    /// means: every outcome satisfies the inner connector's guarantee.
    open spec fn completion_post(
        &self,
        req: ChatCompletionRequestV,
        r: Result<ChatCompletionResponseV, AiErrorV>,
    ) -> bool {
        self.inner().completion_post(req, r)
    }

    /// Retry absorbs retryable failures but never changes what an outcome
    /// means: every stream-open outcome satisfies the inner connector's
    /// guarantee.
    open spec fn stream_post(
        &self,
        req: ChatCompletionRequestV,
        r: &Result<Self::Stream, AiError>,
    ) -> bool {
        self.inner().stream_post(req, r)
    }

    fn info(&self) -> (r: ProviderInfo)
        ensures
            r.deep_view() == self.s_info(),
    {
        self.inner.info()
    }

    fn chat_completion(&self, req: &ChatCompletionRequest) -> (r: Result<
        ChatCompletionResponse,
        AiError,
    >)
        ensures
            self.completion_post(req.deep_view(), dv_res(r)),
    {
        let mut delays: Vec<u64> = Vec::new();
        self.completion_with_retry(req, &mut delays)
    }

    fn stream_chat_completion(&self, req: &ChatCompletionRequest) -> (r: Result<
        Self::Stream,
        AiError,
    >)
        ensures
            self.stream_post(req.deep_view(), &r),
    {
        let mut delays: Vec<u64> = Vec::new();
        self.stream_with_retry(req, &mut delays)
    }
}

} // verus!
