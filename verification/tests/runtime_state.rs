use aether_agent::runtime::audit::{sanitize_detail, AuditEntry, AuditEventType, AuditLog};
use aether_agent::runtime::cancellation::CancellationToken;
use aether_agent::runtime::intent::{Confidence, Intent, IntentType, RiskLevel};
use aether_agent::runtime::memory::{ConversationMemory, MemoryRole, SessionMemory};
use aether_agent::runtime::memory_store::{
    fnv1a_64_hex, validate_name, InMemoryStore, MemoryStore, MemoryStoreError, MAX_NAME_LEN, MAX_PAYLOAD_BYTES,
};
use aether_agent::runtime::request::{ActorType, RequestActor, UserRequest};

fn empty_object() -> serde_json::Value {
    serde_json::Value::Object(serde_json::Map::new())
}

fn object_with(key: &str, value: &str) -> serde_json::Value {
    let mut m = serde_json::Map::new();
    m.insert(key.to_string(), serde_json::Value::String(value.to_string()));
    serde_json::Value::Object(m)
}



#[test]
fn audit_log_records_entries() {
    let mut log = AuditLog::new(100);
    log.record("s1", AuditEventType::SessionCreated, "new session", true, "runtime");
    assert_eq!(log.len(), 1);
}

#[test]
fn audit_log_bounded() {
    let mut log = AuditLog::new(3);
    for i in 0..5 {
        log.record(
            "s1",
            AuditEventType::ActionRequested,
            &format!("action {i}"),
            true,
            "runtime",
        );
    }
    assert_eq!(log.len(), 3);
    // Oldest entries evicted
    let entries = log.recent(10);
    assert_eq!(entries[0].detail, "action 4");
}

#[test]
fn audit_log_for_session() {
    let mut log = AuditLog::new(100);
    log.record("s1", AuditEventType::SessionCreated, "s1 created", true, "r");
    log.record("s2", AuditEventType::SessionCreated, "s2 created", true, "r");
    log.record("s1", AuditEventType::ActionRequested, "action", true, "r");
    assert_eq!(log.for_session("s1").len(), 2);
    assert_eq!(log.for_session("s2").len(), 1);
}

#[test]
fn sanitize_removes_passwords() {
    let s = sanitize_detail("user=admin password=secret123");
    assert!(s.contains("password=[REDACTED]"));
    assert!(!s.contains("secret123"));
}

#[test]
fn sanitize_truncates_long() {
    let long = "x".repeat(1000);
    let s = sanitize_detail(&long);
    assert!(s.len() < 600);
}

#[test]
fn snapshot_recent_returns_last_n_in_chronological_order() {
    let mut log = AuditLog::new(10);
    for i in 0..5 {
        log.record("s1", AuditEventType::ActionRequested, &format!("a{i}"), true, "r");
    }
    let snap = log.snapshot_recent(3);
    assert_eq!(snap.len(), 3);
    // The snapshot is oldest-first, so the most recent three
    // recorded events are `a2`, `a3`, `a4` in that order.
    assert_eq!(snap[0].detail, "a2");
    assert_eq!(snap[1].detail, "a3");
    assert_eq!(snap[2].detail, "a4");
}

#[test]
fn snapshot_recent_zero_returns_empty() {
    let log = AuditLog::new(10);
    assert!(log.snapshot_recent(0).is_empty());
    assert!(log.snapshot_recent(100).is_empty());
}

#[test]
fn restore_recent_pushes_back_evicting_oldest() {
    let mut log = AuditLog::new(3);
    log.record("s", AuditEventType::ActionRequested, "first", true, "r");
    log.record("s", AuditEventType::ActionRequested, "second", true, "r");
    let snap = log.snapshot_recent(2);
    // New log, then restore.
    let mut log2 = AuditLog::new(3);
    let kept = log2.restore_recent(snap);
    assert_eq!(kept, 2);
    let recent = log2.recent(10);
    // `recent` returns newest-first.
    assert_eq!(recent[0].detail, "second");
    assert_eq!(recent[1].detail, "first");
}

#[test]
fn restore_recent_drops_excess_to_fit_capacity() {
    let mut log = AuditLog::new(2);
    let entries: Vec<AuditEntry> = (0..5)
        .map(|i| AuditEntry {
            timestamp: i as u64,
            session_id: "s".to_string(),
            event_type: AuditEventType::ActionRequested,
            detail: format!("e{i}"),
            success: true,
            component: "r".to_string(),
        })
        .collect();
    let kept = log.restore_recent(entries);
    assert_eq!(kept, 2);
    let recent = log.recent(10);
    // The two newest survive; the older three are dropped.
    assert_eq!(recent.len(), 2);
    assert_eq!(recent[0].detail, "e4");
    assert_eq!(recent[1].detail, "e3");
}

#[test]
fn snapshot_then_restore_preserves_full_ring() {
    let mut log = AuditLog::new(5);
    for i in 0..5 {
        log.record("s", AuditEventType::ActionRequested, &format!("a{i}"), true, "r");
    }
    let snap = log.snapshot_recent(5);
    let mut log2 = AuditLog::new(5);
    log2.restore_recent(snap);
    // The ring now has the same chronological order.
    for i in 0..5 {
        let recent = log2.recent(5);
        // `recent` returns newest-first, so index 0 is the
        // most recent (a4), index 4 is the oldest (a0).
        let expected = format!("a{}", 4 - i);
        assert_eq!(recent[i].detail, expected);
    }
}



#[test]
fn token_starts_not_cancelled() {
    let t = CancellationToken::new();
    assert!(!t.is_cancelled());
}

#[test]
fn cancel_sets_flag() {
    let t = CancellationToken::new();
    t.cancel();
    assert!(t.is_cancelled());
}

#[test]
fn reset_clears_flag() {
    let t = CancellationToken::new();
    t.cancel();
    t.reset();
    assert!(!t.is_cancelled());
}

#[test]
fn clone_shares_state() {
    let t1 = CancellationToken::new();
    let t2 = t1.clone();
    t1.cancel();
    assert!(t2.is_cancelled());
}




#[test]
fn conversation_memory_bounded() {
    let mut mem = ConversationMemory::new(3);
    mem.add(MemoryRole::User, "a");
    mem.add(MemoryRole::User, "b");
    mem.add(MemoryRole::User, "c");
    mem.add(MemoryRole::User, "d"); // evicts "a"
    assert_eq!(mem.len(), 3);
    assert_eq!(mem.entries()[0].content, "b");
}

#[test]
fn conversation_as_context() {
    let mut mem = ConversationMemory::new(10);
    mem.add(MemoryRole::User, "hello");
    mem.add(MemoryRole::Agent, "hi there");
    let ctx = mem.as_context();
    assert!(ctx.contains("[USER] hello"));
    assert!(ctx.contains("[AGENT] hi there"));
}

#[test]
fn session_memory_store_retrieve() {
    let mut mem = SessionMemory::new();
    mem.store("last_app", "calculator");
    assert_eq!(mem.retrieve("last_app"), Some("calculator"));
    assert_eq!(mem.retrieve("missing"), None);
}

#[test]
fn session_memory_remove() {
    let mut mem = SessionMemory::new();
    mem.store("key", "value");
    assert!(mem.remove("key"));
    assert!(!mem.remove("key"));
}

#[test]
fn conversation_clear() {
    let mut mem = ConversationMemory::new(10);
    mem.add(MemoryRole::User, "x");
    assert!(!mem.is_empty());
    mem.clear();
    assert!(mem.is_empty());
}

#[test]
fn validate_name_accepts_simple() {
    assert!(validate_name("conversation").is_ok());
    assert!(validate_name("audit_recent").is_ok());
    assert!(validate_name("a").is_ok());
}

#[test]
fn validate_name_rejects_empty() {
    match validate_name("") {
        Err(MemoryStoreError::InvalidName(msg)) => assert!(msg.contains("empty")),
        other => panic!("expected InvalidName(empty), got: {other:?}"),
    }
}

#[test]
fn validate_name_rejects_separators() {
    for bad in ["foo/bar", "foo\\bar", "..", "foo..bar", "../etc/passwd"] {
        match validate_name(bad) {
            Err(MemoryStoreError::InvalidName(_)) => {}
            other => panic!("expected InvalidName for {bad:?}, got: {other:?}"),
        }
    }
}

#[test]
fn validate_name_rejects_too_long() {
    let s = "a".repeat(MAX_NAME_LEN + 1);
    match validate_name(&s) {
        Err(MemoryStoreError::InvalidName(msg)) => assert!(msg.contains("too long")),
        other => panic!("expected InvalidName(too long), got: {other:?}"),
    }
}

#[test]
fn validate_name_accepts_max_len() {
    let s = "a".repeat(MAX_NAME_LEN);
    assert!(validate_name(&s).is_ok());
}

#[test]
fn in_memory_store_round_trip_bytes() {
    let mut store = InMemoryStore::new();
    store.save("hello", b"world").unwrap();
    let got = store.load("hello").unwrap();
    assert_eq!(got.as_deref(), Some(b"world".as_slice()));
}

#[test]
fn in_memory_store_load_missing_returns_none() {
    let store = InMemoryStore::new();
    let got = store.load("missing").unwrap();
    assert_eq!(got, None);
}

#[test]
fn in_memory_store_delete_removes_entry() {
    let mut store = InMemoryStore::new();
    store.save("k", b"v").unwrap();
    assert!(store.delete("k").unwrap());
    assert!(!store.delete("k").unwrap());
    assert_eq!(store.load("k").unwrap(), None);
}

#[test]
fn in_memory_store_save_rejects_oversize() {
    let mut store = InMemoryStore::new();
    let big = vec![0u8; MAX_PAYLOAD_BYTES + 1];
    match store.save("big", &big) {
        Err(MemoryStoreError::TooLarge { size, cap }) => {
            assert_eq!(size, MAX_PAYLOAD_BYTES + 1);
            assert_eq!(cap, MAX_PAYLOAD_BYTES);
        }
        other => panic!("expected TooLarge, got: {other:?}"),
    }
}

#[test]
fn in_memory_store_rejects_invalid_name() {
    let mut store = InMemoryStore::new();
    for bad in ["../etc/passwd", "foo/bar", ""] {
        assert!(store.save(bad, b"x").is_err());
        assert!(store.load(bad).is_err());
        assert!(store.delete(bad).is_err());
    }
}

#[test]
fn in_memory_store_names_lists_keys_sorted() {
    let mut store = InMemoryStore::new();
    store.save("zeta", b"1").unwrap();
    store.save("alpha", b"2").unwrap();
    store.save("mu", b"3").unwrap();
    assert_eq!(store.names(), vec!["alpha", "mu", "zeta"]);
}

#[test]
fn fnv1a_64_is_deterministic() {
    // Spot-check known outputs so silent regressions of the
    // checksum algorithm are caught.
    assert_eq!(fnv1a_64_hex(b""), "cbf29ce484222325");
    assert_eq!(fnv1a_64_hex(b"a"), "af63dc4c8601ec8c");
}


#[test]
fn intent_creation() {
    let i = Intent::new(
        "req-1",
        IntentType::ApplicationLaunch,
        Confidence::high(),
        object_with("app", "calculator"),
    );
    assert_eq!(i.intent_type, IntentType::ApplicationLaunch);
    assert_eq!(i.confidence, Confidence::high());
    assert_eq!(i.risk_level, RiskLevel::Low);
}

#[test]
fn confidence_ordering() {
    assert!(Confidence::low() < Confidence::medium());
    assert!(Confidence::medium() < Confidence::high());
    assert!(Confidence::high() < Confidence::certain());
}

#[test]
fn risk_level_ordering() {
    assert!(RiskLevel::Low < RiskLevel::Medium);
    assert!(RiskLevel::Medium < RiskLevel::High);
    assert!(RiskLevel::High < RiskLevel::Critical);
}

#[test]
fn intent_validate_rejects_empty_request_id() {
    let i = Intent::new("", IntentType::Chat, Confidence::low(), empty_object());
    assert!(i.validate().is_err());
}

#[test]
fn intent_with_risk_level() {
    let i = Intent::new("r", IntentType::FileDelete, Confidence::high(), empty_object())
        .with_risk_level(RiskLevel::High);
    assert_eq!(i.risk_level, RiskLevel::High);
}

#[test]
fn intent_type_display() {
    assert_eq!(IntentType::ApplicationLaunch.to_string(), "application.launch");
    assert_eq!(IntentType::FileDelete.to_string(), "file.delete");
    assert_eq!(IntentType::Chat.to_string(), "chat");
}



fn test_actor() -> RequestActor {
    RequestActor { actor_type: ActorType::Human, identity: "test-user".to_string() }
}

#[test]
fn request_creation() {
    let r = UserRequest::new("sess-1", test_actor(), "open calculator", empty_object());
    assert_eq!(r.session_id, "sess-1");
    assert_eq!(r.input, "open calculator");
    assert!(r.timestamp > 0);
}

#[test]
fn validate_rejects_empty_input() {
    let r = UserRequest::new("s", test_actor(), "", empty_object());
    assert!(r.validate().is_err());
}

#[test]
fn validate_rejects_oversized_input() {
    let long = "x".repeat(10_001);
    let r = UserRequest::new("s", test_actor(), &long, empty_object());
    assert!(r.validate().is_err());
}

#[test]
fn validate_rejects_empty_session() {
    let r = UserRequest::new("", test_actor(), "hello", empty_object());
    assert!(r.validate().is_err());
}

#[test]
fn sanitized_input_truncates() {
    let long = "a".repeat(300);
    let r = UserRequest::new("s", test_actor(), &long, empty_object());
    assert!(r.sanitized_input().ends_with("..."));
    assert!(r.sanitized_input().len() < 300);
}

#[test]
fn sanitized_input_short_not_truncated() {
    let r = UserRequest::new("s", test_actor(), "hello", empty_object());
    assert_eq!(r.sanitized_input(), "hello");
}

#[test]
fn validate_name_limit_counts_characters() {
    assert!(validate_name(&"é".repeat(64)).is_ok());
    match validate_name(&"é".repeat(65)) {
        Err(MemoryStoreError::InvalidName(m)) => assert_eq!(m, "name too long: 65 chars (cap 64)"),
        other => panic!("unexpected {other:?}"),
    }
}
