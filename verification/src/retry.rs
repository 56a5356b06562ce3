//! When a failed attempt runs again.

use vstd::arithmetic::power::{lemma_pow0, lemma_pow_increases, lemma_pow_positive, pow};
use vstd::arithmetic::power2::{lemma2_to64, lemma_pow2, pow2};
use vstd::prelude::*;

use crate::time::{shorter, Duration, MAX_DURATION_NANOS, NANOS_PER_SEC};

verus! {

#[derive(Clone, Copy, Debug, PartialEq, Eq, Structural)]
pub enum RetryPolicy {
    Never,
    Fixed { delay: Duration },
    Exponential { base_delay: Duration, factor: u32, max_delay: Duration },
}

/// `factor` to the power of `exponent`, cut off at the largest `u32`.
pub open spec fn bounded_power(factor: u32, exponent: nat) -> nat {
    shorter(pow(factor as int, exponent) as nat, u32::MAX as nat)
}

/// How often the base delay has been multiplied before `attempt`: not at all for the first one.
pub open spec fn backoff_exponent(attempt: u16) -> nat {
    if attempt == 0 {
        0
    } else {
        (attempt - 1) as nat
    }
}

/// The longest delay that an exponential policy draws before the attempt after `attempt`, in
/// nanoseconds: the base delay grown by the factor once for each attempt before, but no more than
/// `max_delay`, and no more than a `u64` holds.
pub open spec fn backoff_ceiling(base_delay: nat, factor: u32, max_delay: nat, attempt: u16) -> nat {
    shorter(
        shorter(
            shorter(
                base_delay * bounded_power(factor, backoff_exponent(attempt)),
                MAX_DURATION_NANOS as nat,
            ),
            max_delay,
        ),
        u64::MAX as nat,
    )
}

/// Powers of a factor above zero grow, so their cut-off forms do not shrink.
proof fn lemma_bounded_power_grows(factor: u32, low: nat, high: nat)
    requires
        factor > 0,
        low <= high,
    ensures
        bounded_power(factor, low) <= bounded_power(factor, high),
{
    lemma_pow_increases(factor as nat, low, high);
    vstd::arithmetic::power::lemma_pow_positive(factor as int, low);
}

/// A later attempt never has a shorter ceiling, unless the factor is zero.
pub proof fn backoff_never_shrinks(
    base_delay: nat,
    factor: u32,
    max_delay: nat,
    earlier: u16,
    later: u16,
)
    requires
        factor > 0,
        earlier <= later,
    ensures
        backoff_ceiling(base_delay, factor, max_delay, earlier) <= backoff_ceiling(
            base_delay,
            factor,
            max_delay,
            later,
        ),
{
    let low = bounded_power(factor, backoff_exponent(earlier));
    let high = bounded_power(factor, backoff_exponent(later));
    lemma_bounded_power_grows(factor, backoff_exponent(earlier), backoff_exponent(later));
    assert(base_delay * low <= base_delay * high) by (nonlinear_arith)
        requires
            low <= high,
    ;
}

/// The ceiling of the first attempt is the base delay, as far as the maximum and a `u64` allow.
pub proof fn backoff_starts_at_the_base(base_delay: nat, factor: u32, max_delay: nat)
    requires
        base_delay <= MAX_DURATION_NANOS,
    ensures
        backoff_ceiling(base_delay, factor, max_delay, 1) == shorter(
            shorter(base_delay, max_delay),
            u64::MAX as nat,
        ),
{
    lemma_pow0(factor as int);
    assert(base_delay * 1 == base_delay) by (nonlinear_arith);
}

/// No attempt waits longer than the maximum delay.
pub proof fn backoff_stays_below_the_maximum(
    base_delay: nat,
    factor: u32,
    max_delay: nat,
    attempt: u16,
)
    ensures
        backoff_ceiling(base_delay, factor, max_delay, attempt) <= max_delay,
{
}

/// One more multiplication by the factor, cut off again.
proof fn lemma_bounded_power_step(factor: u32, exponent: nat)
    ensures
        bounded_power(factor, exponent + 1) == shorter(
            bounded_power(factor, exponent) * factor as nat,
            u32::MAX as nat,
        ),
{
    let before = pow(factor as int, exponent);
    reveal(pow);
    assert(pow(factor as int, exponent + 1) == factor * before);
    if factor == 0 {
        if exponent == 0 {
            lemma_pow0(0);
        } else {
            vstd::arithmetic::power::lemma0_pow(exponent);
        }
        assert(factor * before == 0) by (nonlinear_arith)
            requires
                factor == 0,
        ;
        assert(bounded_power(factor, exponent) * factor as nat == 0) by (nonlinear_arith)
            requires
                factor == 0,
        ;
    } else {
        vstd::arithmetic::power::lemma_pow_positive(factor as int, exponent);
        assert(factor * before >= before) by (nonlinear_arith)
            requires
                factor >= 1,
                before >= 0,
        ;
        assert(u32::MAX as nat * factor as nat >= u32::MAX) by (nonlinear_arith)
            requires
                factor >= 1,
        ;
        assert(before as nat * factor as nat == factor * before) by (nonlinear_arith)
            requires
                before >= 0,
        ;
    }
}

/// `factor` to the power of `exponent`, or `u32::MAX` when that does not fit.
fn saturating_power(factor: u32, exponent: u16) -> (result: u32)
    ensures
        result == bounded_power(factor, exponent as nat),
{
    let mut result: u32 = 1;
    let mut index: u16 = 0;
    proof {
        lemma_pow0(factor as int);
    }
    while index < exponent
        invariant
            index <= exponent,
            result == bounded_power(factor, index as nat),
        decreases exponent - index,
    {
        proof {
            lemma_bounded_power_step(factor, index as nat);
        }
        assert(result * factor <= u32::MAX * u32::MAX) by (nonlinear_arith)
            requires
                result <= u32::MAX,
                factor <= u32::MAX,
        ;
        let product: u64 = result as u64 * factor as u64;
        result = if product > u32::MAX as u64 {
            u32::MAX
        } else {
            product as u32
        };
        index += 1;
    }
    result
}

/// The longest delay that an exponential policy may draw, in nanoseconds.
pub fn backoff_ceiling_nanos(
    base_delay: Duration,
    factor: u32,
    max_delay: Duration,
    attempt: u16,
) -> (result: u64)
    ensures
        result == backoff_ceiling(base_delay@, factor, max_delay@, attempt),
        result <= max_delay@,
        attempt > 0 && pow(factor as int, (attempt - 1) as nat) <= u32::MAX ==> {
            let grown = base_delay@ * pow(factor as int, (attempt - 1) as nat);
            &&& result <= grown
            &&& result == grown || result == max_delay@ || result == u64::MAX
        },
{
    proof {
        backoff_grows_by_the_factor(
            base_delay@,
            factor,
            max_delay@,
            attempt,
            (if attempt == 0 {
                0
            } else {
                attempt - 1
            }) as nat,
        );
    }
    let exponent: u16 = attempt.saturating_sub(1);
    let multiplier: u32 = saturating_power(factor, exponent);
    let nanos: u128 = base_delay.saturating_mul(multiplier).min_with(max_delay).as_nanos();
    if nanos > u64::MAX as u128 {
        u64::MAX
    } else {
        nanos as u64
    }
}

/// Calls `random_range` of the thread's `rand` generator: a number between 0 and `ceiling`, both
/// included. Which one is up to chance.
#[verifier::external_body]
fn random_up_to(ceiling: u64) -> (result: u64)
    ensures
        result <= ceiling,
{
    rand::Rng::random_range(&mut rand::rng(), 0..=ceiling)
}

/// Whether a policy may answer `delay` after `attempt`: nothing when it never retries, the fixed
/// delay, or any delay up to the backoff ceiling.
pub open spec fn is_retry_delay(policy: RetryPolicy, attempt: u16, delay: Option<Duration>) -> bool {
    match policy {
        RetryPolicy::Never => delay is None,
        RetryPolicy::Fixed { delay: fixed } => delay == Some(fixed),
        RetryPolicy::Exponential { base_delay, factor, max_delay } => {
            &&& delay is Some
            &&& delay->0@ <= backoff_ceiling(base_delay@, factor, max_delay@, attempt)
        },
    }
}

impl RetryPolicy {
    /// How long to wait before the attempt after `attempt`, `None` to give up.
    pub fn delay_for(self, attempt: u16) -> (result: Option<Duration>)
        ensures
            is_retry_delay(self, attempt, result),
    {
        let draw: u64 = match self {
            RetryPolicy::Exponential { base_delay, factor, max_delay } => random_up_to(
                backoff_ceiling_nanos(base_delay, factor, max_delay, attempt),
            ),
            _ => 0,
        };
        self.delay_for_draw(attempt, draw)
    }

    /// `delay_for` with the random draw given: an exponential policy waits `draw` nanoseconds, or
    /// its ceiling where the draw is above it.
    pub fn delay_for_draw(self, attempt: u16, draw: u64) -> (result: Option<Duration>)
        ensures
            is_retry_delay(self, attempt, result),
            self matches RetryPolicy::Exponential { base_delay, factor, max_delay } ==> result->0@
                == shorter(
                draw as nat,
                backoff_ceiling(base_delay@, factor, max_delay@, attempt),
            ),
    {
        match self {
            RetryPolicy::Never => None,
            RetryPolicy::Fixed { delay } => Some(delay),
            RetryPolicy::Exponential { base_delay, factor, max_delay } => {
                let ceiling: u64 = backoff_ceiling_nanos(base_delay, factor, max_delay, attempt);
                Some(Duration::from_nanos(if draw <= ceiling {
                    draw
                } else {
                    ceiling
                }))
            },
        }
    }
}

impl Default for RetryPolicy {
    fn default() -> (result: Self)
        ensures
            result matches RetryPolicy::Exponential { base_delay, factor, max_delay }
                && base_delay@ == NANOS_PER_SEC && factor == 2 && max_delay@ == 60 * NANOS_PER_SEC,
    {
        RetryPolicy::Exponential {
            base_delay: Duration::from_secs(1),
            factor: 2,
            max_delay: Duration::from_mins(1),
        }
    }
}

/// The ceiling is the base delay times the factor to the power of the attempts before this one, as
/// long as the maximum delay, or what a `u64` holds, is not met. The first attempt, and what comes
/// before it, has none before.
pub proof fn backoff_grows_by_the_factor(
    base_delay: nat,
    factor: u32,
    max_delay: nat,
    attempt: u16,
    earlier: nat,
)
    requires
        earlier == if attempt == 0 {
            0
        } else {
            attempt - 1
        },
    ensures
        ({
            let grown = base_delay * pow(factor as int, earlier);
            let most = base_delay * u32::MAX;
            let ceiling = backoff_ceiling(base_delay, factor, max_delay, attempt) as int;
            &&& ceiling <= max_delay && ceiling <= u64::MAX
            &&& pow(factor as int, earlier) <= u32::MAX ==> ceiling <= grown && (ceiling == grown
                || ceiling == max_delay || ceiling == u64::MAX)
            &&& pow(factor as int, earlier) > u32::MAX ==> ceiling <= most && (ceiling == most
                || ceiling == max_delay || ceiling == u64::MAX)
        }),
{
    if factor == 0 {
        if earlier == 0 {
            lemma_pow0(0);
        } else {
            vstd::arithmetic::power::lemma0_pow(earlier);
        }
    } else {
        lemma_pow_positive(factor as int, earlier);
    }
}

/// From one attempt to the next the ceiling is multiplied by the factor, as long as neither the
/// maximum delay nor what a `u64` holds is met.
pub proof fn each_attempt_multiplies_the_ceiling(
    base_delay: nat,
    factor: u32,
    max_delay: nat,
    attempt: u16,
)
    requires
        1 <= attempt < u16::MAX,
        pow(factor as int, attempt as nat) <= u32::MAX,
        backoff_ceiling(base_delay, factor, max_delay, attempt) < max_delay,
        backoff_ceiling(base_delay, factor, max_delay, attempt) < u64::MAX,
    ensures
        ({
            let next = backoff_ceiling(base_delay, factor, max_delay, (attempt + 1) as u16) as int;
            let grown = backoff_ceiling(base_delay, factor, max_delay, attempt) * factor;
            &&& next <= grown
            &&& next == grown || next == max_delay || next == u64::MAX
        }),
{
    let earlier = (attempt - 1) as nat;
    let before = pow(factor as int, earlier);
    reveal(pow);
    assert(pow(factor as int, attempt as nat) == factor * before);
    backoff_grows_by_the_factor(base_delay, factor, max_delay, attempt, earlier);
    backoff_grows_by_the_factor(
        base_delay,
        factor,
        max_delay,
        (attempt + 1) as u16,
        attempt as nat,
    );
    if factor == 0 {
        assert(factor * before == 0) by (nonlinear_arith)
            requires
                factor == 0,
        ;
        assert(base_delay * 0 == 0) by (nonlinear_arith);
        assert(backoff_ceiling(base_delay, factor, max_delay, attempt) * factor == 0)
            by (nonlinear_arith)
            requires
                factor == 0,
        ;
    } else {
        lemma_pow_positive(factor as int, earlier);
        assert(factor * before >= before) by (nonlinear_arith)
            requires
                factor >= 1,
                before >= 0,
        ;
        assert(base_delay * (factor * before) == (base_delay * before) * factor) by (nonlinear_arith);
    }
}

/// A factor of two or more doubles with every attempt at least.
proof fn lemma_at_least_doubles(factor: int, exponent: nat)
    requires
        factor >= 2,
    ensures
        pow(factor, exponent) >= pow2(exponent),
    decreases exponent,
{
    lemma_pow2(exponent);
    if exponent == 0 {
        lemma_pow0(factor);
        lemma_pow0(2);
    } else {
        let less = (exponent - 1) as nat;
        lemma_at_least_doubles(factor, less);
        lemma_pow2(less);
        reveal(pow);
        lemma_pow_positive(2, less);
        assert(pow(factor, exponent) == factor * pow(factor, less));
        assert(pow(2, exponent) == 2 * pow(2, less));
        assert(factor * pow(factor, less) >= 2 * pow(2, less)) by (nonlinear_arith)
            requires
                factor >= 2,
                pow(factor, less) >= pow(2, less),
                pow(2, less) >= 0,
        ;
    }
}

/// With a factor of two or more the ceiling comes to the maximum delay, wherever the base delay can
/// be multiplied up to it.
pub proof fn backoff_reaches_the_maximum(
    base_delay: nat,
    factor: u32,
    max_delay: nat,
    attempt: u16,
)
    requires
        factor >= 2,
        attempt >= 33,
        max_delay <= base_delay * u32::MAX,
        max_delay <= u64::MAX,
    ensures
        backoff_ceiling(base_delay, factor, max_delay, attempt) == max_delay,
{
    let earlier = (attempt - 1) as nat;
    lemma_pow_increases(factor as nat, 32, earlier);
    lemma_at_least_doubles(factor as int, 32);
    lemma2_to64();
    assert(pow(factor as int, earlier) > u32::MAX);
    assert(bounded_power(factor, earlier) == u32::MAX);
}

/// Policies keep to what they say: one that never retries has no delay, a fixed one has its own,
/// and an exponential one has some delay up to its maximum, up to the base after the first attempt.
pub proof fn delays_follow_their_policy(policy: RetryPolicy, attempt: u16, delay: Option<Duration>)
    requires
        is_retry_delay(policy, attempt, delay),
    ensures
        delay is None <==> policy is Never,
        policy matches RetryPolicy::Fixed { delay: fixed } ==> delay == Some(fixed),
        policy matches RetryPolicy::Exponential { base_delay, factor, max_delay } ==> {
            &&& delay->0@ <= max_delay@
            &&& attempt <= 1 ==> delay->0@ <= base_delay@
            &&& attempt > 1 && pow(factor as int, (attempt - 1) as nat) <= u32::MAX ==> delay->0@
                <= base_delay@ * pow(factor as int, (attempt - 1) as nat)
        },
{
    match policy {
        RetryPolicy::Exponential { base_delay, factor, max_delay } => {
            lemma_pow0(factor as int);
            assert(base_delay@ * 1 == base_delay@) by (nonlinear_arith);
            if attempt > 1 {
                let earlier = (attempt - 1) as nat;
                backoff_grows_by_the_factor(
                    base_delay@,
                    factor,
                    max_delay@,
                    attempt,
                    earlier,
                );
            }
        },
        _ => {},
    }
}

} // verus!
