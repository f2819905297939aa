//! The retry policy engine: how the agent runtime retries failed tasks.
//!
//! Every retry decision is the output of a function of the engine's state,
//! the task and the failed attempt number; the caller supplies the clock.
use vstd::prelude::*;
use vstd::arithmetic::power2::{pow2, lemma_pow2_unfold, lemma_pow2_strictly_increases};

use crate::agent_core::task::{TaskId, task_id_eq};
use crate::text::to_owned_string;

verus! {

/// `a * b`, or `u64::MAX` when the product does not fit.
pub open spec fn sat_mul(a: u64, b: u64) -> u64 {
    if a * b > u64::MAX {
        u64::MAX
    } else {
        (a * b) as u64
    }
}

/// Saturating multiplication of two `u64` values.
pub fn saturating_mul_u64(a: u64, b: u64) -> (r: u64)
    ensures
        r == sat_mul(a, b),
{
    match a.checked_mul(b) {
        Some(p) => p,
        None => u64::MAX,
    }
}

/// The smaller of two values.
pub open spec fn min_u64(a: u64, b: u64) -> u64 {
    if a <= b {
        a
    } else {
        b
    }
}

/// The exponent used by exponential backoff for a 1-indexed attempt:
/// `attempt - 1` (0 for attempt 0), capped at 20.
pub open spec fn backoff_exponent(attempt: u32) -> nat {
    if attempt == 0 {
        0
    } else if attempt - 1 > 20 {
        20
    } else {
        (attempt - 1) as nat
    }
}

/// How to compute the delay between retry attempts.
#[derive(Debug, Clone, Copy, PartialEq, Eq, Hash, Structural)]
pub enum BackoffStrategy {
    /// No delay between attempts.
    NoDelay,
    /// Constant delay in milliseconds.
    Constant(u64),
    /// Linear delay: `base * attempt`.
    Linear {
        /// The base delay in milliseconds.
        base_ms: u64,
    },
    /// Exponential delay `base * 2^(attempt - 1)`, capped at `max_ms`.
    Exponential {
        /// The base delay in milliseconds.
        base_ms: u64,
        /// The maximum delay in milliseconds.
        max_ms: u64,
    },
}

/// The delay in milliseconds before the `attempt`-th retry.
pub open spec fn spec_delay_ms(b: BackoffStrategy, attempt: u32) -> u64 {
    match b {
        BackoffStrategy::NoDelay => 0,
        BackoffStrategy::Constant(ms) => ms,
        BackoffStrategy::Linear { base_ms } => sat_mul(base_ms, attempt as u64),
        BackoffStrategy::Exponential { base_ms, max_ms } => min_u64(
            sat_mul(base_ms, pow2(backoff_exponent(attempt)) as u64),
            max_ms,
        ),
    }
}

/// `2^e` as a `u64`, for `e <= 20`.
pub(crate) fn pow2_small(e: u32) -> (r: u64)
    requires
        e <= 20,
    ensures
        r == pow2(e as nat),
{
    let mut r: u64 = 1;
    let mut i: u32 = 0;
    proof {
        vstd::arithmetic::power2::lemma2_to64();
    }
    while i < e
        invariant
            i <= e,
            e <= 20,
            r == pow2(i as nat),
            r <= 0x100000,
        decreases e - i,
    {
        proof {
            lemma_pow2_unfold((i + 1) as nat);
            if i + 1 < 20 {
                lemma_pow2_strictly_increases((i + 1) as nat, 20);
            }
            vstd::arithmetic::power2::lemma2_to64();
        }
        r = r * 2;
        i += 1;
    }
    r
}

impl BackoffStrategy {
    /// The delay in milliseconds before the `attempt`-th retry
    /// (1 = the first retry, after the first failure).
    pub fn delay_ms(&self, attempt: u32) -> (r: u64)
        ensures
            r == spec_delay_ms(*self, attempt),
    {
        match self {
            BackoffStrategy::NoDelay => 0,
            BackoffStrategy::Constant(ms) => *ms,
            BackoffStrategy::Linear { base_ms } => saturating_mul_u64(*base_ms, attempt as u64),
            BackoffStrategy::Exponential { base_ms, max_ms } => {
                let e: u32 = if attempt == 0 {
                    0
                } else if attempt - 1 > 20 {
                    20
                } else {
                    attempt - 1
                };
                let exp = pow2_small(e);
                let d = saturating_mul_u64(*base_ms, exp);
                if d <= *max_ms {
                    d
                } else {
                    *max_ms
                }
            },
        }
    }
}

/// An exponential backoff never waits longer than its cap.
pub proof fn law_exponential_delay_is_capped(base_ms: u64, max_ms: u64, attempt: u32)
    ensures
        spec_delay_ms(BackoffStrategy::Exponential { base_ms, max_ms }, attempt) <= max_ms,
{
}

/// A linear or exponential backoff never waits less for a later attempt.
pub proof fn law_delay_is_monotone(b: BackoffStrategy, a1: u32, a2: u32)
    requires
        a1 <= a2,
    ensures
        spec_delay_ms(b, a1) <= spec_delay_ms(b, a2),
{
    match b {
        BackoffStrategy::Linear { base_ms } => {
            let x = a1 as u64;
            let y = a2 as u64;
            assert(base_ms * x <= base_ms * y) by (nonlinear_arith)
                requires
                    x <= y,
            ;
            assert(sat_mul(base_ms, x) <= sat_mul(base_ms, y));
            assert(spec_delay_ms(b, a1) == sat_mul(base_ms, x));
        },
        BackoffStrategy::Exponential { base_ms, max_ms } => {
            let e1 = backoff_exponent(a1);
            let e2 = backoff_exponent(a2);
            if e1 < e2 {
                lemma_pow2_strictly_increases(e1, e2);
            }
            vstd::arithmetic::power2::lemma2_to64();
            if e2 < 20 {
                lemma_pow2_strictly_increases(e2, 20);
            }
            let p1 = pow2(e1) as u64;
            let p2 = pow2(e2) as u64;
            assert(p1 <= p2);
            assert(base_ms * p1 <= base_ms * p2) by (nonlinear_arith)
                requires
                    p1 <= p2,
            ;
            assert(sat_mul(base_ms, p1) <= sat_mul(base_ms, p2));
        },
        _ => {},
    }
}

/// The decision the engine returns for a failed task.
#[derive(Debug, Clone, PartialEq, Eq, Hash)]
pub enum Decision {
    /// Retry the same task after the attached delay.
    Retry {
        /// The delay before the next attempt.
        delay_ms: u64,
    },
    /// Give up retrying and run a fallback task instead.
    Fallback {
        /// The fallback task id.
        fallback_id: TaskId,
    },
    /// The circuit breaker tripped: stop retrying the whole group until
    /// the host resets the breaker.
    CircuitBreak,
    /// Give up; the task is reported as failed.
    GiveUp,
}

/// The kebab-case name of each decision.
pub open spec fn spec_decision_name(d: Decision) -> Seq<char> {
    match d {
        Decision::Retry { .. } => "retry"@,
        Decision::Fallback { .. } => "fallback"@,
        Decision::CircuitBreak => "circuit-break"@,
        Decision::GiveUp => "give-up"@,
    }
}

impl Decision {
    /// The kebab-case name (for audit logs).
    pub fn as_str(&self) -> (r: &'static str)
        ensures
            r@ == spec_decision_name(*self),
    {
        match self {
            Decision::Retry { .. } => "retry",
            Decision::Fallback { .. } => "fallback",
            Decision::CircuitBreak => "circuit-break",
            Decision::GiveUp => "give-up",
        }
    }
}

/// A record of one failure of a task.
#[derive(Debug, Clone, PartialEq, Eq, Hash)]
pub struct FailureRecord {
    /// The task that failed.
    pub task_id: TaskId,
    /// The error message.
    pub error: String,
    /// When the failure happened (milliseconds since the epoch).
    pub timestamp_ms: u64,
}

impl FailureRecord {
    /// A new failure record.
    pub fn new(task_id: TaskId, error: &str, timestamp_ms: u64) -> (r: FailureRecord)
        ensures
            r.task_id == task_id,
            r.error@ == error@,
            r.timestamp_ms == timestamp_ms,
    {
        FailureRecord { task_id, error: error.to_string(), timestamp_ms }
    }
}

/// The retry policy attached to a single task.
#[derive(Debug, PartialEq, Eq, Hash)]
pub struct RetryPolicy {
    /// The maximum number of attempts, the first try included.
    pub max_attempts: u32,
    /// The backoff strategy.
    pub backoff: BackoffStrategy,
    /// Fallback task ids; the first is used when retries are exhausted.
    pub fallbacks: Vec<TaskId>,
    /// Consecutive failures in the group that trip the breaker; 0 disables it.
    pub circuit_breaker_threshold: u32,
    /// The group whose failures share one breaker counter.
    pub group: Option<String>,
}

/// Two task-id lists hold the same ids in the same order.
pub open spec fn same_ids(a: Seq<TaskId>, b: Seq<TaskId>) -> bool {
    a.len() == b.len() && forall|i: int| 0 <= i < a.len() ==> a[i]@ == b[i]@
}

/// The view of an optional group name.
pub open spec fn group_view(g: Option<String>) -> Option<Seq<char>> {
    match g {
        Some(s) => Some(s@),
        None => None,
    }
}

/// Two policies agree on every field (strings compared by content).
pub open spec fn same_policy(a: RetryPolicy, b: RetryPolicy) -> bool {
    &&& a.max_attempts == b.max_attempts
    &&& a.backoff == b.backoff
    &&& same_ids(a.fallbacks@, b.fallbacks@)
    &&& a.circuit_breaker_threshold == b.circuit_breaker_threshold
    &&& group_view(a.group) == group_view(b.group)
}

fn clone_ids(v: &Vec<TaskId>) -> (r: Vec<TaskId>)
    ensures
        same_ids(r@, v@),
{
    let mut r: Vec<TaskId> = Vec::new();
    let mut i: usize = 0;
    while i < v.len()
        invariant
            i <= v@.len(),
            r@.len() == i,
            forall|j: int| 0 <= j < i ==> r@[j]@ == v@[j]@,
        decreases v@.len() - i,
    {
        r.push(v[i].clone());
        i += 1;
    }
    r
}

impl Clone for RetryPolicy {
    fn clone(&self) -> (r: Self)
        ensures
            same_policy(r, *self),
    {
        RetryPolicy {
            max_attempts: self.max_attempts,
            backoff: self.backoff,
            fallbacks: clone_ids(&self.fallbacks),
            circuit_breaker_threshold: self.circuit_breaker_threshold,
            group: match &self.group {
                Some(g) => Some(g.clone()),
                None => None,
            },
        }
    }
}

impl RetryPolicy {
    /// One attempt, give up on failure.
    pub fn no_retry() -> (r: RetryPolicy)
        ensures
            r.max_attempts == 1,
            r.backoff == BackoffStrategy::NoDelay,
            r.fallbacks@.len() == 0,
            r.circuit_breaker_threshold == 0,
            r.group is None,
    {
        RetryPolicy {
            max_attempts: 1,
            backoff: BackoffStrategy::NoDelay,
            fallbacks: Vec::new(),
            circuit_breaker_threshold: 0,
            group: None,
        }
    }

    /// `max_attempts` attempts (at least one) with a constant backoff, no
    /// fallbacks and no breaker.
    pub fn bounded(max_attempts: u32, delay_ms: u64) -> (r: RetryPolicy)
        ensures
            r.max_attempts == if max_attempts >= 1 { max_attempts } else { 1 },
            r.backoff == BackoffStrategy::Constant(delay_ms),
            r.fallbacks@.len() == 0,
            r.circuit_breaker_threshold == 0,
            r.group is None,
    {
        RetryPolicy {
            max_attempts: if max_attempts >= 1 { max_attempts } else { 1 },
            backoff: BackoffStrategy::Constant(delay_ms),
            fallbacks: Vec::new(),
            circuit_breaker_threshold: 0,
            group: None,
        }
    }

    /// An exponential backoff with a circuit breaker shared by `group`.
    pub fn exponential(
        max_attempts: u32,
        base_ms: u64,
        max_ms: u64,
        group: &str,
        circuit_breaker_threshold: u32,
    ) -> (r: RetryPolicy)
        ensures
            r.max_attempts == if max_attempts >= 1 { max_attempts } else { 1 },
            r.backoff == (BackoffStrategy::Exponential { base_ms, max_ms }),
            r.fallbacks@.len() == 0,
            r.circuit_breaker_threshold == circuit_breaker_threshold,
            r.group matches Some(g) && g@ == group@,
    {
        RetryPolicy {
            max_attempts: if max_attempts >= 1 { max_attempts } else { 1 },
            backoff: BackoffStrategy::Exponential { base_ms, max_ms },
            fallbacks: Vec::new(),
            circuit_breaker_threshold,
            group: Some(group.to_string()),
        }
    }

    /// Appends a fallback task.
    pub fn with_fallback(self, fallback_id: TaskId) -> (r: RetryPolicy)
        ensures
            r.fallbacks@ == self.fallbacks@.push(fallback_id),
            r.max_attempts == self.max_attempts,
            r.backoff == self.backoff,
            r.circuit_breaker_threshold == self.circuit_breaker_threshold,
            r.group == self.group,
    {
        let mut s = self;
        s.fallbacks.push(fallback_id);
        s
    }
}

impl Default for RetryPolicy {
    fn default() -> (r: RetryPolicy)
        ensures
            r.max_attempts == 3,
            r.backoff == BackoffStrategy::Constant(1000),
            r.fallbacks@.len() == 0,
            r.circuit_breaker_threshold == 0,
            r.group is None,
    {
        RetryPolicy::bounded(3, 1000)
    }
}

/// `i` is the first position in `ps` registered for the task `id`.
pub open spec fn is_first_policy(ps: Seq<(TaskId, RetryPolicy)>, id: Seq<char>, i: int) -> bool {
    0 <= i < ps.len() && ps[i].0@ == id && forall|j: int| 0 <= j < i ==> ps[j].0@ != id
}

/// `i` is the first position in `gs` holding the counter of `g`.
pub open spec fn is_first_group(gs: Seq<(String, u32)>, g: Seq<char>, i: int) -> bool {
    0 <= i < gs.len() && gs[i].0@ == g && forall|j: int| 0 <= j < i ==> gs[j].0@ != g
}

/// The policy in force for a task: the first one registered for it.
pub open spec fn lookup_policy(ps: Seq<(TaskId, RetryPolicy)>, id: Seq<char>) -> Option<RetryPolicy> {
    if exists|i: int| is_first_policy(ps, id, i) {
        Some(ps[choose|i: int| is_first_policy(ps, id, i)].1)
    } else {
        None
    }
}

/// The failure counter of a group: the first entry's count, 0 when absent.
pub open spec fn group_count(gs: Seq<(String, u32)>, g: Seq<char>) -> int {
    if exists|i: int| is_first_group(gs, g, i) {
        gs[choose|i: int| is_first_group(gs, g, i)].1 as int
    } else {
        0
    }
}

/// The group names in the order their counters were created.
pub open spec fn group_names(gs: Seq<(String, u32)>) -> Seq<Seq<char>> {
    gs.map_values(|e: (String, u32)| e.0@)
}

proof fn lemma_first_policy_unique(ps: Seq<(TaskId, RetryPolicy)>, id: Seq<char>, i: int, j: int)
    requires
        is_first_policy(ps, id, i),
        is_first_policy(ps, id, j),
    ensures
        i == j,
{
}

proof fn lemma_first_group_unique(gs: Seq<(String, u32)>, g: Seq<char>, i: int, j: int)
    requires
        is_first_group(gs, g, i),
        is_first_group(gs, g, j),
    ensures
        i == j,
{
}

proof fn lemma_exists_first_group(gs: Seq<(String, u32)>, g: Seq<char>, j: int)
    requires
        0 <= j < gs.len(),
        gs[j].0@ == g,
    ensures
        exists|i: int| is_first_group(gs, g, i),
    decreases j,
{
    if exists|k: int| 0 <= k < j && gs[k].0@ == g {
        let k = choose|k: int| 0 <= k < j && gs[k].0@ == g;
        lemma_exists_first_group(gs, g, k);
    } else {
        assert(is_first_group(gs, g, j));
    }
}

proof fn lemma_lookup_at(ps: Seq<(TaskId, RetryPolicy)>, id: Seq<char>, i: int)
    requires
        is_first_policy(ps, id, i),
    ensures
        lookup_policy(ps, id) == Some(ps[i].1),
{
    let k = choose|k: int| is_first_policy(ps, id, k);
    lemma_first_policy_unique(ps, id, i, k);
}

proof fn lemma_exists_first_policy(ps: Seq<(TaskId, RetryPolicy)>, id: Seq<char>, j: int)
    requires
        0 <= j < ps.len(),
        ps[j].0@ == id,
    ensures
        exists|i: int| is_first_policy(ps, id, i),
    decreases j,
{
    if exists|k: int| 0 <= k < j && ps[k].0@ == id {
        let k = choose|k: int| 0 <= k < j && ps[k].0@ == id;
        lemma_exists_first_policy(ps, id, k);
    } else {
        assert(is_first_policy(ps, id, j));
    }
}

/// Appending a registration leaves the policy in force for a task that
/// already had one, and puts the new policy in force for a task that had
/// none.
proof fn lemma_lookup_after_push(ps: Seq<(TaskId, RetryPolicy)>, t: TaskId, p: RetryPolicy, id: Seq<char>)
    ensures
        lookup_policy(ps.push((t, p)), id) == match lookup_policy(ps, id) {
            Some(q) => Some(q),
            None => if t@ == id {
                Some(p)
            } else {
                None
            },
        },
{
    let qs = ps.push((t, p));
    if exists|j: int| 0 <= j < ps.len() && ps[j].0@ == id {
        let j = choose|j: int| 0 <= j < ps.len() && ps[j].0@ == id;
        lemma_exists_first_policy(ps, id, j);
        let i = choose|i: int| is_first_policy(ps, id, i);
        lemma_lookup_at(ps, id, i);
        assert(is_first_policy(qs, id, i));
        lemma_lookup_at(qs, id, i);
    } else {
        lemma_lookup_none(ps, id);
        if t@ == id {
            assert(is_first_policy(qs, id, ps.len() as int));
            lemma_lookup_at(qs, id, ps.len() as int);
        } else {
            assert forall|j: int| 0 <= j < qs.len() implies qs[j].0@ != id by {
                if j < ps.len() {
                    assert(qs[j] == ps[j]);
                }
            }
            lemma_lookup_none(qs, id);
        }
    }
}

proof fn lemma_lookup_none(ps: Seq<(TaskId, RetryPolicy)>, id: Seq<char>)
    requires
        forall|j: int| 0 <= j < ps.len() ==> ps[j].0@ != id,
    ensures
        lookup_policy(ps, id) is None,
{
}

/// The counter a task's failures are counted under: its policy's group,
/// or the task itself when the policy has no group.
pub open spec fn breaker_key(p: RetryPolicy, id: Seq<char>) -> Seq<char> {
    match p.group {
        Some(g) => g@,
        None => id,
    }
}

proof fn lemma_count_at(gs: Seq<(String, u32)>, g: Seq<char>, i: int)
    requires
        is_first_group(gs, g, i),
    ensures
        group_count(gs, g) == gs[i].1,
{
    let k = choose|k: int| is_first_group(gs, g, k);
    lemma_first_group_unique(gs, g, i, k);
}

proof fn lemma_count_absent(gs: Seq<(String, u32)>, g: Seq<char>)
    requires
        forall|j: int| 0 <= j < gs.len() ==> gs[j].0@ != g,
    ensures
        group_count(gs, g) == 0,
{
}

/// The first-entry characterisation of every group in `gs` is unchanged in
/// `gs2` when `gs2` only changes the count at `i` or appends an entry named
/// `g`, for groups other than `g`.
proof fn lemma_other_counts_unchanged(
    gs: Seq<(String, u32)>,
    gs2: Seq<(String, u32)>,
    g: Seq<char>,
)
    requires
        gs.len() <= gs2.len() <= gs.len() + 1,
        forall|j: int| 0 <= j < gs.len() ==> gs2[j].0@ == gs[j].0@,
        forall|j: int| 0 <= j < gs.len() && gs[j].0@ != g ==> gs2[j].1 == gs[j].1,
        gs2.len() == gs.len() + 1 ==> gs2[gs.len() as int].0@ == g,
    ensures
        forall|h: Seq<char>| h != g ==> group_count(gs2, h) == group_count(gs, h),
{
    assert forall|h: Seq<char>| h != g implies group_count(gs2, h) == group_count(gs, h) by {
        if exists|i: int| is_first_group(gs, h, i) {
            let i = choose|i: int| is_first_group(gs, h, i);
            assert(is_first_group(gs2, h, i));
            lemma_count_at(gs, h, i);
            lemma_count_at(gs2, h, i);
        } else {
            assert forall|j: int| 0 <= j < gs2.len() implies gs2[j].0@ != h by {
                if j < gs.len() {
                    if gs[j].0@ == h {
                        lemma_exists_first_group(gs, h, j);
                    }
                }
            }
            lemma_count_absent(gs2, h);
        }
    }
}

/// The engine: per-task policies and the per-group failure counters.
#[derive(Debug, PartialEq, Eq, Hash)]
pub struct PolicyEngine {
    /// The per-task policies, in registration order.
    pub policies: Vec<(TaskId, RetryPolicy)>,
    /// The running group-failure counts.
    pub group_failures: Vec<(String, u32)>,
}

impl PolicyEngine {
    /// The policy in force for a task.
    pub open spec fn spec_policy(&self, id: Seq<char>) -> Option<RetryPolicy> {
        lookup_policy(self.policies@, id)
    }

    /// The failure counter of a group.
    pub open spec fn spec_count(&self, g: Seq<char>) -> int {
        group_count(self.group_failures@, g)
    }

    /// The task's breaker is open: its policy has a positive threshold
    /// that the counter of its breaker key has reached.
    pub open spec fn spec_breaker_open(&self, id: Seq<char>) -> bool {
        match self.spec_policy(id) {
            Some(p) => p.circuit_breaker_threshold > 0 && self.spec_count(breaker_key(p, id))
                >= p.circuit_breaker_threshold,
            None => false,
        }
    }

    /// No group counter is at `u32::MAX` (so counting one more failure fits).
    pub open spec fn counters_below_max(&self) -> bool {
        forall|j: int| 0 <= j < self.group_failures@.len() ==> self.group_failures@[j].1 < u32::MAX
    }

    /// A new, empty engine.
    pub fn new() -> (r: PolicyEngine)
        ensures
            r.policies@.len() == 0,
            r.group_failures@.len() == 0,
    {
        PolicyEngine { policies: Vec::new(), group_failures: Vec::new() }
    }

    /// Registers a policy for a task (an earlier policy for the same task
    /// stays in force).
    pub fn register(&mut self, task_id: TaskId, policy: RetryPolicy)
        ensures
            final(self).policies@ == old(self).policies@.push((task_id, policy)),
            final(self).group_failures == old(self).group_failures,
            final(self).spec_policy(task_id@) == match old(self).spec_policy(task_id@) {
                Some(q) => Some(q),
                None => Some(policy),
            },
            forall|other: Seq<char>|
                other != task_id@ ==> #[trigger] final(self).spec_policy(other) == old(self).spec_policy(other),
    {
        let ghost ps = self.policies@;
        let ghost id = task_id@;
        let ghost pol = policy;
        self.policies.push((task_id, policy));
        proof {
            lemma_lookup_after_push(ps, task_id, pol, id);
            assert forall|other: Seq<char>| other != id implies #[trigger] lookup_policy(self.policies@, other)
                == lookup_policy(ps, other) by {
                lemma_lookup_after_push(ps, task_id, pol, other);
            }
        }
    }

    fn policy_index(&self, task_id: &TaskId) -> (r: Option<usize>)
        ensures
            match r {
                Some(i) => is_first_policy(self.policies@, task_id@, i as int),
                None => forall|j: int|
                    0 <= j < self.policies@.len() ==> self.policies@[j].0@ != task_id@,
            },
    {
        let mut i: usize = 0;
        while i < self.policies.len()
            invariant
                i <= self.policies@.len(),
                forall|j: int| 0 <= j < i ==> self.policies@[j].0@ != task_id@,
            decreases self.policies@.len() - i,
        {
            if task_id_eq(&self.policies[i].0, task_id) {
                return Some(i);
            }
            i += 1;
        }
        None
    }

    fn group_index(&self, group: &String) -> (r: Option<usize>)
        ensures
            match r {
                Some(i) => is_first_group(self.group_failures@, group@, i as int),
                None => forall|j: int|
                    0 <= j < self.group_failures@.len() ==> self.group_failures@[j].0@ != group@,
            },
    {
        let mut i: usize = 0;
        while i < self.group_failures.len()
            invariant
                i <= self.group_failures@.len(),
                forall|j: int| 0 <= j < i ==> self.group_failures@[j].0@ != group@,
            decreases self.group_failures@.len() - i,
        {
            if self.group_failures[i].0 == *group {
                return Some(i);
            }
            i += 1;
        }
        None
    }

    /// The policy registered for a task, if any.
    pub fn policy_for(&self, task_id: &TaskId) -> (r: Option<&RetryPolicy>)
        ensures
            match r {
                Some(p) => self.spec_policy(task_id@) == Some(*p),
                None => self.spec_policy(task_id@) is None,
            },
    {
        match self.policy_index(task_id) {
            Some(i) => {
                proof {
                    lemma_lookup_at(self.policies@, task_id@, i as int);
                }
                Some(&self.policies[i].1)
            },
            None => {
                proof {
                    lemma_lookup_none(self.policies@, task_id@);
                }
                None
            },
        }
    }

    /// Resets the breaker counter of a group to zero.
    pub fn reset_breaker(&mut self, group: &str)
        ensures
            final(self).policies == old(self).policies,
            group_names(final(self).group_failures@) == group_names(old(self).group_failures@),
            final(self).spec_count(group@) == 0,
            forall|h: Seq<char>| h != group@ ==> final(self).spec_count(h) == old(self).spec_count(h),
            old(self).counters_below_max() ==> final(self).counters_below_max(),
    {
        let g = group.to_string();
        let ghost gs = self.group_failures@;
        match self.group_index(&g) {
            Some(i) => {
                let name = self.group_failures[i].0.clone();
                self.group_failures.set(i, (name, 0));
                proof {
                    let gs2 = self.group_failures@;
                    assert(is_first_group(gs2, g@, i as int));
                    lemma_count_at(gs2, g@, i as int);
                    lemma_other_counts_unchanged(gs, gs2, g@);
                    assert(group_names(gs2) =~= group_names(gs));
                }
            },
            None => {
                proof {
                    lemma_count_absent(gs, g@);
                }
            },
        }
    }

    /// Resets every group's breaker counter to zero.
    pub fn reset_all_breakers(&mut self)
        ensures
            final(self).policies == old(self).policies,
            group_names(final(self).group_failures@) == group_names(old(self).group_failures@),
            final(self).group_failures@.len() == old(self).group_failures@.len(),
            forall|j: int| 0 <= j < final(self).group_failures@.len() ==> #[trigger] final(self).group_failures@[j].1 == 0,
            forall|h: Seq<char>| final(self).spec_count(h) == 0,
            final(self).counters_below_max(),
    {
        let ghost gs = self.group_failures@;
        let ghost ps = self.policies;
        let mut i: usize = 0;
        while i < self.group_failures.len()
            invariant
                self.policies == ps,
                i <= self.group_failures@.len(),
                self.group_failures@.len() == gs.len(),
                forall|j: int| 0 <= j < gs.len() ==> self.group_failures@[j].0@ == gs[j].0@,
                forall|j: int| 0 <= j < i ==> self.group_failures@[j].1 == 0,
            decreases self.group_failures@.len() - i,
        {
            let name = self.group_failures[i].0.clone();
            self.group_failures.set(i, (name, 0));
            i += 1;
        }
        proof {
            let gs2 = self.group_failures@;
            assert(group_names(gs2) =~= group_names(gs));
            assert forall|h: Seq<char>| group_count(gs2, h) == 0 by {
                if exists|k: int| is_first_group(gs2, h, k) {
                    let k = choose|k: int| is_first_group(gs2, h, k);
                    lemma_count_at(gs2, h, k);
                }
            }
        }
    }

    /// Decides what to do for a task whose `attempt`-th attempt (1-indexed)
    /// just failed. A task without a policy gives up. Otherwise the task's
    /// breaker (its group's, or its own when the policy has no group)
    /// breaks the circuit when its counter has reached a positive
    /// threshold; else the failure is counted, and the task falls back or
    /// gives up once `attempt` reaches the policy's attempts, and retries
    /// after the backoff delay of retry number `attempt` otherwise.
    pub fn decide(&mut self, task_id: &TaskId, attempt: u32) -> (r: Decision)
        requires
            match old(self).spec_policy(task_id@) {
                Some(p) => old(self).spec_count(breaker_key(p, task_id@)) < u32::MAX,
                None => true,
            },
        ensures
            final(self).policies == old(self).policies,
            match old(self).spec_policy(task_id@) {
                None => r == Decision::GiveUp && final(self).group_failures == old(
                    self,
                ).group_failures,
                Some(p) => if old(self).spec_breaker_open(task_id@) {
                    r == Decision::CircuitBreak && final(self).group_failures == old(
                        self,
                    ).group_failures
                } else {
                    &&& final(self).spec_count(breaker_key(p, task_id@)) == old(self).spec_count(
                        breaker_key(p, task_id@),
                    ) + 1
                    &&& forall|h: Seq<char>|
                        h != breaker_key(p, task_id@) ==> final(self).spec_count(h) == old(self).spec_count(h)
                    &&& if attempt >= p.max_attempts {
                        if p.fallbacks@.len() > 0 {
                            r matches Decision::Fallback { fallback_id } && fallback_id@
                                == p.fallbacks@[0]@
                        } else {
                            r == Decision::GiveUp
                        }
                    } else {
                        r == Decision::Retry { delay_ms: spec_delay_ms(p.backoff, attempt) }
                    }
                },
            },
    {
        let idx = match self.policy_index(task_id) {
            Some(i) => i,
            None => {
                proof {
                    lemma_lookup_none(self.policies@, task_id@);
                }
                return Decision::GiveUp;
            },
        };
        proof {
            lemma_lookup_at(self.policies@, task_id@, idx as int);
        }
        let max_attempts = self.policies[idx].1.max_attempts;
        let backoff = self.policies[idx].1.backoff;
        let threshold = self.policies[idx].1.circuit_breaker_threshold;
        let fallback: Option<TaskId> = if self.policies[idx].1.fallbacks.len() > 0 {
            Some(self.policies[idx].1.fallbacks[0].clone())
        } else {
            None
        };
        let key: String = match &self.policies[idx].1.group {
            Some(g) => g.clone(),
            None => to_owned_string(task_id.as_str()),
        };
        let ghost gs = self.group_failures@;
        let gi = self.group_index(&key);
        proof {
            match gi {
                Some(i) => lemma_count_at(gs, key@, i as int),
                None => lemma_count_absent(gs, key@),
            }
        }
        if threshold > 0 {
            let current: u32 = match gi {
                Some(i) => self.group_failures[i].1,
                None => 0,
            };
            if current >= threshold {
                return Decision::CircuitBreak;
            }
        }
        match gi {
            Some(i) => {
                let name = self.group_failures[i].0.clone();
                let c = self.group_failures[i].1;
                self.group_failures.set(i, (name, c + 1));
                proof {
                    let gs2 = self.group_failures@;
                    assert(is_first_group(gs2, key@, i as int));
                    lemma_count_at(gs2, key@, i as int);
                    lemma_other_counts_unchanged(gs, gs2, key@);
                }
            },
            None => {
                self.group_failures.push((key.clone(), 1));
                proof {
                    let gs2 = self.group_failures@;
                    assert(is_first_group(gs2, key@, gs.len() as int));
                    lemma_count_at(gs2, key@, gs.len() as int);
                    lemma_other_counts_unchanged(gs, gs2, key@);
                }
            },
        }
        if attempt >= max_attempts {
            if let Some(fb) = fallback {
                return Decision::Fallback { fallback_id: fb };
            }
            return Decision::GiveUp;
        }
        let delay_ms = backoff.delay_ms(attempt);
        Decision::Retry { delay_ms }
    }
}

impl Default for PolicyEngine {
    fn default() -> (r: PolicyEngine)
        ensures
            r.policies@.len() == 0,
            r.group_failures@.len() == 0,
    {
        PolicyEngine::new()
    }
}

/// Resetting a breaker closes it: once the failure count a task is counted
/// under is back to zero, the task is not circuit-broken.
pub proof fn law_reset_closes_breaker(e: PolicyEngine, group: Seq<char>, id: Seq<char>)
    requires
        e.spec_count(group) == 0,
        e.spec_policy(id) matches Some(p) && breaker_key(p, id) == group,
    ensures
        !e.spec_breaker_open(id),
{
}

/// A task's breaker is open as soon as the failure count it is counted
/// under (its group's, or its own) reaches its positive threshold.
pub proof fn law_breaker_opens_at_threshold(e: PolicyEngine, id: Seq<char>)
    requires
        e.spec_policy(id) matches Some(p) && p.circuit_breaker_threshold > 0 && e.spec_count(breaker_key(p, id))
            >= p.circuit_breaker_threshold,
    ensures
        e.spec_breaker_open(id),
{
}

} // verus!
