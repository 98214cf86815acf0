//! The resilient-transport decision core: per-call-site policies, the retry
//! decision, exponential backoff growth, and a driver over a recorded
//! sequence of attempt outcomes. The surrounding loop — issuing the request,
//! waiting, taking tokens from the rate limiter — belongs to the unverified
//! shell, which asks these functions what to do next.

use vstd::prelude::*;
use crate::models::ProviderError;

verus! {

/// A call-site transport policy: `Plain` propagates the first failure;
/// `Guarded` rate-limits and retries transient failures up to a budget.
#[derive(Debug, Clone, Copy, PartialEq, Eq, Structural)]
pub enum TransportPolicy {
    Plain,
    Guarded { max_retries: u32, rate_per_second: u32 },
}

/// How many retries a policy allows after the first attempt.
pub open spec fn retry_budget(p: TransportPolicy) -> nat {
    match p {
        TransportPolicy::Plain => 0,
        TransportPolicy::Guarded { max_retries, .. } => max_retries as nat,
    }
}

/// Decides whether a failed attempt is retried: only a Guarded policy
/// retries, only a transient failure, and never beyond its budget. A Plain
/// call is never retried.
pub fn should_retry(p: &TransportPolicy, retries_done: u32, transient: bool) -> (r: bool)
    ensures
        r == (transient && (*p matches TransportPolicy::Guarded { .. }) && (retries_done as nat)
            < retry_budget(*p)),
{
    match p {
        TransportPolicy::Plain => false,
        TransportPolicy::Guarded { max_retries, .. } => transient && retries_done < *max_retries,
    }
}

/// Two to the power `n`.
pub open spec fn pow2(n: nat) -> nat
    decreases n,
{
    if n == 0 {
        1nat
    } else {
        2 * pow2((n - 1) as nat)
    }
}

/// The backoff delay before retry number `retries_done`: the base delay
/// doubled once per retry already made, saturating at the largest
/// representable delay.
pub fn backoff_delay_ms(base_ms: u64, retries_done: u32) -> (r: u64)
    ensures
        r as int == vstd::math::min(
            base_ms as int * pow2(retries_done as nat) as int,
            0xffff_ffff_ffff_ffff,
        ),
{
    let mut d: u64 = base_ms;
    let mut i: u32 = 0;
    proof {
        assert(pow2(0) == 1);
        assert(base_ms as int * 1 == base_ms as int);
    }
    while i < retries_done
        invariant
            i <= retries_done,
            d as int == vstd::math::min(
                base_ms as int * pow2(i as nat) as int,
                0xffff_ffff_ffff_ffff,
            ),
        decreases retries_done - i,
    {
        proof {
            vstd::arithmetic::mul::lemma_mul_is_associative(
                2,
                base_ms as int,
                pow2(i as nat) as int,
            );
            vstd::arithmetic::mul::lemma_mul_is_commutative(base_ms as int, 2);
            vstd::arithmetic::mul::lemma_mul_is_associative(
                base_ms as int,
                2,
                pow2(i as nat) as int,
            );
        }
        if d > 0x7fff_ffff_ffff_ffff {
            d = 0xffff_ffff_ffff_ffff;
        } else {
            d = d * 2;
        }
        i += 1;
    }
    d
}

/// Whether the attempt with index `i` (0-based) succeeds in a recorded
/// exchange; an attempt past the record fails.
pub open spec fn attempt_ok(outcomes: Seq<bool>, i: int) -> bool {
    0 <= i < outcomes.len() && outcomes[i]
}

/// The outcome of one transport exchange: how many attempts were made, and
/// success or a typed transport failure.
#[derive(Debug, PartialEq, Eq)]
pub struct TransportRun {
    pub attempts: u64,
    pub outcome: Result<(), ProviderError>,
}

/// Runs one transport exchange against a recorded sequence of attempt
/// outcomes (`true` is success): attempts stop at the first success, a
/// transient failure is retried while the policy's budget allows, and an
/// exhausted budget surfaces a transport failure. The attempt count never
/// exceeds one more than the retry budget, and a Plain policy makes exactly
/// one attempt.
pub fn run_transport(p: &TransportPolicy, outcomes: &Vec<bool>) -> (r: TransportRun)
    ensures
        1 <= r.attempts,
        r.attempts as nat <= retry_budget(*p) + 1,
        r.outcome is Ok ==> attempt_ok(outcomes@, r.attempts - 1) && forall|i: int|
            0 <= i < r.attempts - 1 ==> !attempt_ok(outcomes@, i),
        r.outcome is Err ==> r.attempts as nat == retry_budget(*p) + 1 && forall|i: int|
            0 <= i < r.attempts ==> !attempt_ok(outcomes@, i),
        match r.outcome {
            Result::Ok(u) => true,
            Result::Err(e) => e matches ProviderError::Transport { context } && context@
                == "retry budget exhausted"@,
        },
{
    let budget: u32 = match p {
        TransportPolicy::Plain => 0,
        TransportPolicy::Guarded { max_retries, .. } => *max_retries,
    };
    let mut made: u64 = 0;
    loop
        invariant
            made <= budget as u64,
            budget as nat == retry_budget(*p),
            forall|i: int| 0 <= i < made ==> !attempt_ok(outcomes@, i),
        decreases budget as int - made as int,
    {
        let ok = if made < outcomes.len() as u64 {
            outcomes[made as usize]
        } else {
            false
        };
        if ok {
            return TransportRun { attempts: made + 1, outcome: Result::Ok(()) };
        }
        if made == budget as u64 {
            return TransportRun {
                attempts: made + 1,
                outcome: Result::Err(
                    ProviderError::Transport { context: "retry budget exhausted".to_owned() },
                ),
            };
        }
        made += 1;
    }
}

} // verus!
