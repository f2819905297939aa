//! Bounded recovery: how a failed plan step is handled.
//!
//! Each failure is classified as transient, permanent or unknown; the
//! recovery policy then decides whether the step is retried, skipped or
//! the plan aborted, and how long to wait before a retry.
use vstd::prelude::*;
use vstd::arithmetic::power2::pow2;
use std::time::Duration;

use crate::retry_policy::{
    BackoffStrategy, spec_delay_ms, law_delay_is_monotone, sat_mul, min_u64, backoff_exponent,
    saturating_mul_u64, pow2_small,
};
use crate::runtime::errors::AgentError;

verus! {

/// What to do after a step failed.
#[derive(Debug, Clone, Copy, PartialEq, Eq, Hash, Structural)]
pub enum RecoveryAction {
    /// Run the step again.
    Retry,
    /// Abort the plan.
    Abort,
    /// Skip the (optional) step and go on.
    Skip,
}

/// The name of each recovery action.
pub open spec fn spec_recovery_action_name(a: RecoveryAction) -> Seq<char> {
    match a {
        RecoveryAction::Retry => "retry"@,
        RecoveryAction::Abort => "abort"@,
        RecoveryAction::Skip => "skip"@,
    }
}

impl RecoveryAction {
    /// The stable name of the action.
    pub fn as_str(self) -> (r: &'static str)
        ensures
            r@ == spec_recovery_action_name(self),
    {
        match self {
            RecoveryAction::Retry => "retry",
            RecoveryAction::Abort => "abort",
            RecoveryAction::Skip => "skip",
        }
    }
}

/// How a failure is classified for recovery.
#[derive(Debug, Clone, Copy, PartialEq, Eq, Hash, Structural)]
pub enum FailureKind {
    /// Worth retrying (IPC hiccups, timeouts).
    Transient,
    /// Retrying cannot help (denials, validation, missing targets).
    Permanent,
    /// Not known; retried at most once.
    Unknown,
}

/// The classification of each runtime error.
pub open spec fn spec_failure_kind(e: AgentError) -> FailureKind {
    match e {
        AgentError::Ipc(_) | AgentError::Timeout(_) => FailureKind::Transient,
        AgentError::CapabilityDenied(_)
        | AgentError::PolicyDenied(_)
        | AgentError::ApprovalRequired(_)
        | AgentError::Validation(_)
        | AgentError::NotFound(_) => FailureKind::Permanent,
        _ => FailureKind::Unknown,
    }
}

impl FailureKind {
    /// Classifies a runtime error.
    pub fn from_error(err: &AgentError) -> (r: FailureKind)
        ensures
            r == spec_failure_kind(*err),
    {
        match err {
            AgentError::Ipc(_) | AgentError::Timeout(_) => FailureKind::Transient,
            AgentError::CapabilityDenied(_)
            | AgentError::PolicyDenied(_)
            | AgentError::ApprovalRequired(_)
            | AgentError::Validation(_)
            | AgentError::NotFound(_) => FailureKind::Permanent,
            _ => FailureKind::Unknown,
        }
    }
}

/// How a plan step recovers from failures.
#[derive(Debug, Clone, Copy, PartialEq, Eq, Structural)]
pub struct RecoveryPolicy {
    /// How many retries after the first attempt.
    pub max_retries: u32,
    /// The delay before the first retry, in milliseconds.
    pub backoff_base_ms: u64,
    /// The largest delay between retries, in milliseconds.
    pub backoff_max_ms: u64,
    /// The time limit of one attempt, in milliseconds, if any.
    pub timeout_ms: Option<u64>,
}

impl Default for RecoveryPolicy {
    /// No retries, 100 ms base delay, 5 s cap, no timeout.
    fn default() -> (r: RecoveryPolicy)
        ensures
            r == (RecoveryPolicy {
                max_retries: 0,
                backoff_base_ms: 100,
                backoff_max_ms: 5_000,
                timeout_ms: None,
            }),
    {
        RecoveryPolicy { max_retries: 0, backoff_base_ms: 100, backoff_max_ms: 5_000, timeout_ms: None }
    }
}

impl RecoveryPolicy {
    /// The policy for steps whose failures are usually transient: three
    /// retries, 100 ms base delay, 5 s cap, 2 s timeout.
    pub fn transient_default() -> (r: RecoveryPolicy)
        ensures
            r == (RecoveryPolicy {
                max_retries: 3,
                backoff_base_ms: 100,
                backoff_max_ms: 5_000,
                timeout_ms: Some(2_000),
            }),
    {
        RecoveryPolicy { max_retries: 3, backoff_base_ms: 100, backoff_max_ms: 5_000, timeout_ms: Some(2_000) }
    }

    /// The default policy: no retries.
    pub fn no_retry() -> (r: RecoveryPolicy)
        ensures
            r == (RecoveryPolicy {
                max_retries: 0,
                backoff_base_ms: 100,
                backoff_max_ms: 5_000,
                timeout_ms: None,
            }),
    {
        RecoveryPolicy::default()
    }
}

/// The delay before the `attempt`-th retry, in milliseconds: 0 for
/// attempt 0, else `base * 2^min(attempt - 1, 20)`, saturating, capped at
/// the policy's maximum.
pub open spec fn spec_backoff_ms(policy: RecoveryPolicy, attempt: u32) -> u64 {
    if attempt == 0 {
        0
    } else {
        min_u64(sat_mul(policy.backoff_base_ms, pow2(backoff_exponent(attempt)) as u64), policy.backoff_max_ms)
    }
}

/// The delay before the `attempt`-th retry, in milliseconds.
pub fn backoff_delay_ms(policy: &RecoveryPolicy, attempt: u32) -> (r: u64)
    ensures
        r == spec_backoff_ms(*policy, attempt),
{
    if attempt == 0 {
        return 0;
    }
    let shift: u32 = if attempt - 1 > 20 { 20 } else { attempt - 1 };
    let scaled = saturating_mul_u64(policy.backoff_base_ms, pow2_small(shift));
    if scaled <= policy.backoff_max_ms {
        scaled
    } else {
        policy.backoff_max_ms
    }
}

/// The duration of `ms` milliseconds, as `Duration::from_millis` makes it.
pub uninterp spec fn duration_from_millis(ms: u64) -> Duration;

/// Calls `std::time::Duration::from_millis`; its result is named by
/// `duration_from_millis`.
#[verifier::external_body]
fn millis_duration(ms: u64) -> (d: Duration)
    ensures
        d == duration_from_millis(ms),
{
    Duration::from_millis(ms)
}

/// The delay before the `attempt`-th retry (zero for attempt 0).
pub fn backoff_delay(policy: &RecoveryPolicy, attempt: u32) -> (r: Duration)
    ensures
        r == duration_from_millis(spec_backoff_ms(*policy, attempt)),
{
    millis_duration(backoff_delay_ms(policy, attempt))
}

/// The action that ends the attempts at a step: skip it when optional,
/// else abort the plan.
pub open spec fn give_up_action(optional: bool) -> RecoveryAction {
    if optional {
        RecoveryAction::Skip
    } else {
        RecoveryAction::Abort
    }
}

/// What to do after the `attempt`-th attempt (1-indexed) of a step failed
/// with a failure of the given kind.
pub open spec fn spec_decide_recovery(
    policy: RecoveryPolicy,
    attempt: u32,
    kind: FailureKind,
    optional: bool,
) -> RecoveryAction {
    if attempt > policy.max_retries {
        give_up_action(optional)
    } else {
        match kind {
            FailureKind::Permanent => give_up_action(optional),
            FailureKind::Unknown => if attempt > 1 {
                give_up_action(optional)
            } else {
                RecoveryAction::Retry
            },
            FailureKind::Transient => RecoveryAction::Retry,
        }
    }
}

/// Decides what to do after the `attempt`-th attempt of a step failed.
pub fn decide_recovery(
    policy: &RecoveryPolicy,
    attempt: u32,
    kind: FailureKind,
    optional: bool,
) -> (r: RecoveryAction)
    requires
        attempt >= 1,
    ensures
        r == spec_decide_recovery(*policy, attempt, kind, optional),
{
    if attempt > policy.max_retries {
        return if optional {
            RecoveryAction::Skip
        } else {
            RecoveryAction::Abort
        };
    }
    match kind {
        FailureKind::Permanent => {
            if optional {
                RecoveryAction::Skip
            } else {
                RecoveryAction::Abort
            }
        },
        FailureKind::Unknown => {
            if attempt > 1 {
                if optional {
                    RecoveryAction::Skip
                } else {
                    RecoveryAction::Abort
                }
            } else {
                RecoveryAction::Retry
            }
        },
        FailureKind::Transient => RecoveryAction::Retry,
    }
}

/// The delay before a retry never exceeds the policy's maximum.
pub proof fn law_backoff_is_capped(policy: RecoveryPolicy, attempt: u32)
    ensures
        spec_backoff_ms(policy, attempt) <= policy.backoff_max_ms,
{
}

/// A later retry never waits less than an earlier one.
pub proof fn law_backoff_is_monotone(policy: RecoveryPolicy, a1: u32, a2: u32)
    requires
        a1 <= a2,
    ensures
        spec_backoff_ms(policy, a1) <= spec_backoff_ms(policy, a2),
{
    if a1 >= 1 {
        let b = BackoffStrategy::Exponential { base_ms: policy.backoff_base_ms, max_ms: policy.backoff_max_ms };
        law_delay_is_monotone(b, a1, a2);
        assert(spec_backoff_ms(policy, a1) == spec_delay_ms(b, a1));
        assert(spec_backoff_ms(policy, a2) == spec_delay_ms(b, a2));
    }
}

/// A step is retried only while the policy allows more retries and the
/// failure is not permanent; an unknown failure is retried only once.
pub proof fn law_retry_is_bounded(policy: RecoveryPolicy, attempt: u32, kind: FailureKind, optional: bool)
    requires
        attempt >= 1,
    ensures
        spec_decide_recovery(policy, attempt, kind, optional) == RecoveryAction::Retry ==> {
            &&& attempt <= policy.max_retries
            &&& kind != FailureKind::Permanent
            &&& kind == FailureKind::Unknown ==> attempt == 1
        },
{
}

/// When a step is not retried, an optional step is skipped and any other
/// step aborts the plan.
pub proof fn law_giving_up_skips_only_optional_steps(
    policy: RecoveryPolicy,
    attempt: u32,
    kind: FailureKind,
    optional: bool,
)
    requires
        attempt >= 1,
    ensures
        spec_decide_recovery(policy, attempt, kind, optional) != RecoveryAction::Retry ==>
            spec_decide_recovery(policy, attempt, kind, optional) == give_up_action(optional),
        spec_decide_recovery(policy, attempt, kind, optional) == RecoveryAction::Skip <==> (optional
            && spec_decide_recovery(policy, attempt, kind, optional) != RecoveryAction::Retry),
{
}

} // verus!
