use aether_agent::agent_core::TaskId;
use aether_agent::retry_policy::{BackoffStrategy, Decision, FailureRecord, PolicyEngine, RetryPolicy};


fn task(id: &str) -> TaskId {
    TaskId::new(id).unwrap()
}

#[test]
fn backoff_none_is_zero() {
    assert_eq!(BackoffStrategy::NoDelay.delay_ms(1), 0);
    assert_eq!(BackoffStrategy::NoDelay.delay_ms(99), 0);
}

#[test]
fn backoff_constant() {
    let b = BackoffStrategy::Constant(500);
    assert_eq!(b.delay_ms(1), 500);
    assert_eq!(b.delay_ms(5), 500);
}

#[test]
fn backoff_linear() {
    let b = BackoffStrategy::Linear { base_ms: 100 };
    assert_eq!(b.delay_ms(1), 100);
    assert_eq!(b.delay_ms(3), 300);
    assert_eq!(b.delay_ms(10), 1000);
}

#[test]
fn backoff_exponential() {
    let b = BackoffStrategy::Exponential { base_ms: 100, max_ms: 5000 };
    assert_eq!(b.delay_ms(1), 100);
    assert_eq!(b.delay_ms(2), 200);
    assert_eq!(b.delay_ms(3), 400);
    assert_eq!(b.delay_ms(4), 800);
    assert_eq!(b.delay_ms(5), 1600);
    assert_eq!(b.delay_ms(6), 3200);
    // Capped.
    assert_eq!(b.delay_ms(20), 5000);
}

#[test]
fn no_retry_policy_has_one_attempt() {
    let p = RetryPolicy::no_retry();
    assert_eq!(p.max_attempts, 1);
}

#[test]
fn bounded_policy_at_least_one_attempt() {
    let p = RetryPolicy::bounded(0, 100);
    assert_eq!(p.max_attempts, 1);
}

#[test]
fn bounded_policy_default_const() {
    let p = RetryPolicy::bounded(3, 100);
    assert_eq!(p.max_attempts, 3);
    assert_eq!(p.backoff.delay_ms(1), 100);
}

#[test]
fn exponential_registers_group() {
    let p = RetryPolicy::exponential(5, 100, 5000, "network", 10);
    assert_eq!(p.group.as_deref(), Some("network"));
    assert_eq!(p.circuit_breaker_threshold, 10);
}

#[test]
fn with_fallback_appends() {
    let p = RetryPolicy::no_retry().with_fallback(task("fb"));
    assert_eq!(p.fallbacks.len(), 1);
    assert_eq!(p.fallbacks[0], task("fb"));
}

#[test]
fn default_policy_is_bounded_three() {
    let p = RetryPolicy::default();
    assert_eq!(p.max_attempts, 3);
    assert_eq!(p.backoff.delay_ms(1), 1000);
}

#[test]
fn engine_starts_empty() {
    let e = PolicyEngine::new();
    assert!(e.policy_for(&task("x")).is_none());
}

#[test]
fn engine_register_and_lookup() {
    let mut e = PolicyEngine::new();
    e.register(task("a"), RetryPolicy::no_retry());
    assert!(e.policy_for(&task("a")).is_some());
}

#[test]
fn engine_unknown_task_gives_up() {
    let mut e = PolicyEngine::new();
    let d = e.decide(&task("nope"), 1);
    assert_eq!(d, Decision::GiveUp);
}

#[test]
fn engine_decide_retry_within_attempts() {
    let mut e = PolicyEngine::new();
    e.register(task("a"), RetryPolicy::bounded(3, 500));
    let d = e.decide(&task("a"), 1);
    assert!(matches!(d, Decision::Retry { delay_ms: 500 }));
}

#[test]
fn engine_decide_give_up_at_max() {
    let mut e = PolicyEngine::new();
    e.register(task("a"), RetryPolicy::bounded(3, 500));
    let d = e.decide(&task("a"), 3);
    assert_eq!(d, Decision::GiveUp);
}

#[test]
fn engine_decide_fallback_when_exhausted() {
    let mut e = PolicyEngine::new();
    e.register(
        task("a"),
        RetryPolicy::no_retry().with_fallback(task("fb")),
    );
    let d = e.decide(&task("a"), 1);
    assert!(matches!(d, Decision::Fallback { fallback_id } if fallback_id == task("fb")));
}

#[test]
fn engine_circuit_breaker_trips_at_threshold() {
    let mut e = PolicyEngine::new();
    e.register(
        task("a"),
        RetryPolicy::exponential(5, 100, 1000, "g", 3),
    );
    e.register(
        task("b"),
        RetryPolicy::exponential(5, 100, 1000, "g", 3),
    );
    // 3 failures in group -> breaker
    // trips.
    let _ = e.decide(&task("a"), 1);
    let _ = e.decide(&task("b"), 1);
    let _ = e.decide(&task("a"), 1);
    let d = e.decide(&task("b"), 1);
    assert_eq!(d, Decision::CircuitBreak);
}

#[test]
fn engine_reset_breaker() {
    let mut e = PolicyEngine::new();
    e.register(
        task("a"),
        RetryPolicy::exponential(5, 100, 1000, "g", 2),
    );
    let _ = e.decide(&task("a"), 1);
    let _ = e.decide(&task("a"), 1);
    // Breaker is at threshold.
    let d = e.decide(&task("a"), 1);
    assert_eq!(d, Decision::CircuitBreak);
    // Reset and try again.
    e.reset_breaker("g");
    let d = e.decide(&task("a"), 1);
    assert!(matches!(d, Decision::Retry { .. }));
}

#[test]
fn engine_per_task_breaker_isolated() {
    let mut e = PolicyEngine::new();
    e.register(task("a"), RetryPolicy::bounded(2, 100));
    e.register(task("b"), RetryPolicy::bounded(2, 100));
    // a fails twice, b is untouched.
    let _ = e.decide(&task("a"), 1);
    let _ = e.decide(&task("a"), 1);
    let d = e.decide(&task("b"), 1);
    assert!(matches!(d, Decision::Retry { .. }));
}

#[test]
fn decision_as_str() {
    assert_eq!(Decision::Retry { delay_ms: 0 }.as_str(), "retry");
    assert_eq!(Decision::CircuitBreak.as_str(), "circuit-break");
    assert_eq!(Decision::GiveUp.as_str(), "give-up");
    assert_eq!(
        Decision::Fallback { fallback_id: task("x") }.as_str(),
        "fallback"
    );
}

#[test]
fn failure_record_new() {
    let f = FailureRecord::new(task("a"), "boom", 1234);
    assert_eq!(f.task_id, task("a"));
    assert_eq!(f.error, "boom");
    assert_eq!(f.timestamp_ms, 1234);
}

#[test]
fn reset_all_breakers() {
    let mut e = PolicyEngine::new();
    e.register(
        task("a"),
        RetryPolicy::exponential(5, 100, 1000, "g1", 1),
    );
    e.register(
        task("b"),
        RetryPolicy::exponential(5, 100, 1000, "g2", 1),
    );
    let _ = e.decide(&task("a"), 1);
    let _ = e.decide(&task("b"), 1);
    e.reset_all_breakers();
    // Both groups can retry again.
    let d1 = e.decide(&task("a"), 1);
    let d2 = e.decide(&task("b"), 1);
    assert!(matches!(d1, Decision::Retry { .. }));
    assert!(matches!(d2, Decision::Retry { .. }));
}

#[test]
fn engine_retry_delay_is_the_backoff_of_the_failed_attempt() {
    let mut e = PolicyEngine::new();
    let policy = RetryPolicy {
        max_attempts: 5,
        backoff: BackoffStrategy::Linear { base_ms: 100 },
        fallbacks: vec![],
        circuit_breaker_threshold: 0,
        group: None,
    };
    e.register(task("a"), policy);
    assert_eq!(e.decide(&task("a"), 1), Decision::Retry { delay_ms: 100 });
    assert_eq!(e.decide(&task("a"), 3), Decision::Retry { delay_ms: 300 });
}

#[test]
fn engine_breaker_without_group_is_per_task() {
    let mut e = PolicyEngine::new();
    let policy = |t: u32| RetryPolicy {
        max_attempts: 5,
        backoff: BackoffStrategy::Constant(10),
        fallbacks: vec![],
        circuit_breaker_threshold: t,
        group: None,
    };
    e.register(task("a"), policy(2));
    e.register(task("b"), policy(2));
    assert_eq!(e.decide(&task("a"), 1), Decision::Retry { delay_ms: 10 });
    assert_eq!(e.decide(&task("a"), 1), Decision::Retry { delay_ms: 10 });
    assert_eq!(e.decide(&task("a"), 1), Decision::CircuitBreak);
    assert_eq!(e.decide(&task("b"), 1), Decision::Retry { delay_ms: 10 });
    e.reset_breaker("a");
    assert_eq!(e.decide(&task("a"), 1), Decision::Retry { delay_ms: 10 });
}

#[test]
fn first_registration_for_a_task_wins() {
    let mut e = PolicyEngine::new();
    e.register(task("a"), RetryPolicy::bounded(3, 500));
    e.register(task("b"), RetryPolicy::no_retry());
    e.register(task("a"), RetryPolicy::no_retry());
    assert_eq!(e.policy_for(&task("a")).unwrap().max_attempts, 3);
    assert_eq!(e.policy_for(&task("b")).unwrap().max_attempts, 1);
    assert!(e.policy_for(&task("c")).is_none());
}

#[test]
fn reset_all_breakers_zeroes_every_counter() {
    let mut e = PolicyEngine::new();
    e.register(task("a"), RetryPolicy::exponential(5, 100, 1000, "g1", 3));
    e.register(task("b"), RetryPolicy::exponential(5, 100, 1000, "g2", 3));
    let _ = e.decide(&task("a"), 1);
    let _ = e.decide(&task("b"), 1);
    let _ = e.decide(&task("b"), 1);
    e.reset_all_breakers();
    let names: Vec<&str> = e.group_failures.iter().map(|(g, _)| g.as_str()).collect();
    assert_eq!(names, vec!["g1", "g2"]);
    assert!(e.group_failures.iter().all(|(_, n)| *n == 0));
}
