//! The audit log of the agent runtime.
//!
//! Records session, intent, plan, action, approval and model events in a
//! bounded ring. Details are sanitised before they are stored: long
//! details are truncated and the values of sensitive keys (passwords,
//! tokens, keys, secrets, credentials) are redacted.
use vstd::prelude::*;
use vstd::string::*;
use vstd::utf8::{encode_utf8, decode_utf8, is_char_boundary};

use std::collections::VecDeque;

use crate::runtime::clock::unix_time_ms;
use crate::text::{occurs_at, find_from, first_occurrence, lemma_first_occurrence_found, lemma_first_occurrence_none, str_chars, str_eq, string_from_chars, to_owned_string};

verus! {

// --------------------------------------------------------------- entries

/// The kind of an audit event.
#[derive(Debug, Clone, Copy, PartialEq, Eq, Structural)]
pub enum AuditEventType {
    SessionCreated,
    SessionStarted,
    SessionCompleted,
    SessionFailed,
    SessionCancelled,
    IntentCreated,
    PlanCreated,
    ActionRequested,
    ActionApproved,
    ActionDenied,
    ActionStarted,
    ActionCompleted,
    ActionFailed,
    CapabilityCheck,
    PolicyCheck,
    ApprovalRequested,
    ApprovalGranted,
    ApprovalDenied,
    LlmRequest,
    LlmResponse,
}

/// The dotted name of each event kind.
pub open spec fn spec_event_name(e: AuditEventType) -> Seq<char> {
    match e {
        AuditEventType::SessionCreated => "session.created"@,
        AuditEventType::SessionStarted => "session.started"@,
        AuditEventType::SessionCompleted => "session.completed"@,
        AuditEventType::SessionFailed => "session.failed"@,
        AuditEventType::SessionCancelled => "session.cancelled"@,
        AuditEventType::IntentCreated => "intent.created"@,
        AuditEventType::PlanCreated => "plan.created"@,
        AuditEventType::ActionRequested => "action.requested"@,
        AuditEventType::ActionApproved => "action.approved"@,
        AuditEventType::ActionDenied => "action.denied"@,
        AuditEventType::ActionStarted => "action.started"@,
        AuditEventType::ActionCompleted => "action.completed"@,
        AuditEventType::ActionFailed => "action.failed"@,
        AuditEventType::CapabilityCheck => "capability.check"@,
        AuditEventType::PolicyCheck => "policy.check"@,
        AuditEventType::ApprovalRequested => "approval.requested"@,
        AuditEventType::ApprovalGranted => "approval.granted"@,
        AuditEventType::ApprovalDenied => "approval.denied"@,
        AuditEventType::LlmRequest => "llm.request"@,
        AuditEventType::LlmResponse => "llm.response"@,
    }
}

impl AuditEventType {
    /// The dotted name of the event kind, such as `session.created`.
    pub fn as_str(&self) -> (r: &'static str)
        ensures
            r@ == spec_event_name(*self),
    {
        match self {
            AuditEventType::SessionCreated => "session.created",
            AuditEventType::SessionStarted => "session.started",
            AuditEventType::SessionCompleted => "session.completed",
            AuditEventType::SessionFailed => "session.failed",
            AuditEventType::SessionCancelled => "session.cancelled",
            AuditEventType::IntentCreated => "intent.created",
            AuditEventType::PlanCreated => "plan.created",
            AuditEventType::ActionRequested => "action.requested",
            AuditEventType::ActionApproved => "action.approved",
            AuditEventType::ActionDenied => "action.denied",
            AuditEventType::ActionStarted => "action.started",
            AuditEventType::ActionCompleted => "action.completed",
            AuditEventType::ActionFailed => "action.failed",
            AuditEventType::CapabilityCheck => "capability.check",
            AuditEventType::PolicyCheck => "policy.check",
            AuditEventType::ApprovalRequested => "approval.requested",
            AuditEventType::ApprovalGranted => "approval.granted",
            AuditEventType::ApprovalDenied => "approval.denied",
            AuditEventType::LlmRequest => "llm.request",
            AuditEventType::LlmResponse => "llm.response",
        }
    }

    /// The dotted name of the event kind, as an owned string.
    pub fn to_string(&self) -> (r: String)
        ensures
            r@ == spec_event_name(*self),
    {
        to_owned_string(self.as_str())
    }
}

/// One audit entry.
#[derive(Debug)]
pub struct AuditEntry {
    /// Milliseconds since the Unix epoch.
    pub timestamp: u64,
    /// The session the event belongs to.
    pub session_id: String,
    /// The kind of event.
    pub event_type: AuditEventType,
    /// The sanitised detail.
    pub detail: String,
    /// Whether the audited operation succeeded.
    pub success: bool,
    /// The component that recorded the event.
    pub component: String,
}

/// An audit entry with its strings as character sequences.
pub struct AuditEntryView {
    pub timestamp: u64,
    pub session_id: Seq<char>,
    pub event_type: AuditEventType,
    pub detail: Seq<char>,
    pub success: bool,
    pub component: Seq<char>,
}

impl View for AuditEntry {
    type V = AuditEntryView;

    open spec fn view(&self) -> AuditEntryView {
        AuditEntryView {
            timestamp: self.timestamp,
            session_id: self.session_id@,
            event_type: self.event_type,
            detail: self.detail@,
            success: self.success,
            component: self.component@,
        }
    }
}

impl Clone for AuditEntry {
    fn clone(&self) -> (r: Self)
        ensures
            r@ == self@,
    {
        AuditEntry {
            timestamp: self.timestamp,
            session_id: self.session_id.clone(),
            event_type: self.event_type,
            detail: self.detail.clone(),
            success: self.success,
            component: self.component.clone(),
        }
    }
}

/// The views of a sequence of entries.
pub open spec fn entry_views(s: Seq<AuditEntry>) -> Seq<AuditEntryView> {
    s.map_values(|e: AuditEntry| e@)
}

// ------------------------------------------------------------ redaction

/// The characters that end a redacted value.
pub open spec fn is_value_delimiter(c: char) -> bool {
    c == ' ' || c == ',' || c == ')' || c == '"'
}

/// The end of the value that starts at `start`: the first delimiter at or
/// after `start`, or the end of `s`.
pub open spec fn value_end(s: Seq<char>, start: int) -> int
    decreases s.len() - start,
{
    if start < 0 || start >= s.len() {
        s.len() as int
    } else if is_value_delimiter(s[start]) {
        start
    } else {
        value_end(s, start + 1)
    }
}

/// The end of a value lies between its start and the end of the text.
pub proof fn lemma_value_end_bounds(s: Seq<char>, start: int)
    requires
        0 <= start <= s.len(),
    ensures
        start <= value_end(s, start) <= s.len(),
    decreases s.len() - start,
{
    if start < s.len() && !is_value_delimiter(s[start]) {
        lemma_value_end_bounds(s, start + 1);
    }
}

/// The text that replaces `key=value`.
pub open spec fn redaction(key: Seq<char>) -> Seq<char> {
    key + "=[REDACTED]"@
}

/// Redacts, from position `from` on, every value that follows `key=`:
/// `key=value` becomes `key=[REDACTED]`, the value running up to the next
/// delimiter; the search then goes on from the last character of the
/// replacement.
pub open spec fn redact_from(s: Seq<char>, key: Seq<char>, from: int) -> Seq<char>
    decreases s.len() - from,
{
    if key.len() == 0 || from < 0 {
        s
    } else {
        match first_occurrence(s, key + "="@, from) {
            None => s,
            Some(p) => {
                proof {
                    reveal_strlit("=");
                    reveal_strlit("=[REDACTED]");
                    lemma_value_end_bounds(s, p + key.len() + 1);
                }
                let end = value_end(s, p + key.len() + 1);
                redact_from(
                    s.subrange(0, p) + redaction(key) + s.subrange(end, s.len() as int),
                    key,
                    p + key.len() + 10,
                )
            },
        }
    }
}

/// `s` with the values of every sensitive key redacted, the keys taken in
/// the order password, token, api_key, secret, key, credential.
pub open spec fn redact_all(s: Seq<char>) -> Seq<char> {
    redact_from(
        redact_from(
            redact_from(
                redact_from(redact_from(redact_from(s, "password"@, 0), "token"@, 0), "api_key"@, 0),
                "secret"@,
                0,
            ),
            "key"@,
            0,
        ),
        "credential"@,
        0,
    )
}

/// The first position at or after `start` holding a value delimiter, or
/// the length of `s`.
fn find_value_end(s: &Vec<char>, start: usize) -> (r: usize)
    requires
        start <= s@.len(),
    ensures
        r == value_end(s@, start as int),
{
    let mut i: usize = start;
    while i < s.len()
        invariant
            start <= i <= s@.len(),
            value_end(s@, start as int) == value_end(s@, i as int),
        decreases s@.len() - i,
    {
        let c = s[i];
        if c == ' ' || c == ',' || c == ')' || c == '"' {
            return i;
        }
        i += 1;
    }
    i
}

/// `v[..start] ++ ins ++ v[end..]`.
fn splice(v: &Vec<char>, start: usize, end: usize, ins: &Vec<char>) -> (r: Vec<char>)
    requires
        start <= end <= v@.len(),
    ensures
        r@ == v@.subrange(0, start as int) + ins@ + v@.subrange(end as int, v@.len() as int),
{
    let mut r: Vec<char> = Vec::new();
    let mut i: usize = 0;
    while i < start
        invariant
            i <= start <= end <= v@.len(),
            r@ == v@.subrange(0, i as int),
        decreases start - i,
    {
        r.push(v[i]);
        i += 1;
    }
    let mut j: usize = 0;
    while j < ins.len()
        invariant
            j <= ins@.len(),
            r@ == v@.subrange(0, start as int) + ins@.subrange(0, j as int),
        decreases ins@.len() - j,
    {
        r.push(ins[j]);
        j += 1;
    }
    let mut k: usize = end;
    while k < v.len()
        invariant
            end <= k <= v@.len(),
            r@ == v@.subrange(0, start as int) + ins@ + v@.subrange(end as int, k as int),
        decreases v@.len() - k,
    {
        r.push(v[k]);
        k += 1;
    }
    r
}

/// `a ++ b`.
fn concat_chars(a: &Vec<char>, b: &Vec<char>) -> (r: Vec<char>)
    ensures
        r@ == a@ + b@,
{
    splice(a, a.len(), a.len(), b)
}

/// Redacts the value of every occurrence of `key=` in `s`.
fn redact_key(s: Vec<char>, key: &str) -> (r: Vec<char>)
    requires
        key@.len() > 0,
    ensures
        r@ == redact_from(s@, key@, 0),
{
    let key_chars = str_chars(key);
    let pattern = concat_chars(&key_chars, &str_chars("="));
    let replacement = concat_chars(&key_chars, &str_chars("=[REDACTED]"));
    proof {
        reveal_strlit("=");
        reveal_strlit("=[REDACTED]");
    }
    let mut result = s;
    let mut search_from: usize = 0;
    loop
        invariant
            pattern@ == key@ + "="@,
            replacement@ == redaction(key@),
            key_chars@ == key@,
            key@.len() > 0,
            "="@.len() == 1,
            "=[REDACTED]"@.len() == 11,
            search_from <= result@.len(),
            redact_from(result@, key@, search_from as int) == redact_from(s@, key@, 0),
        decreases result@.len() - search_from,
    {
        match find_from(result.as_slice(), pattern.as_slice(), search_from) {
            None => {
                proof {
                    lemma_first_occurrence_none(result@, pattern@, search_from as int);
                }
                return result;
            },
            Some(pos) => {
                proof {
                    lemma_first_occurrence_found(result@, pattern@, search_from as int, pos as int);
                }
                let n = result.len();
                assert(occurs_at(result@, pattern@, pos as int));
                assert(pos + pattern@.len() <= n);
                let value_start = pos + pattern.len();
                let end = find_value_end(&result, value_start);
                proof {
                    lemma_value_end_bounds(result@, value_start as int);
                }
                let replaced = splice(&result, pos, end, &replacement);
                let replaced_len = replaced.len();
                assert(replaced_len == pos + key@.len() + 11 + (n - end));
                let next = pos + key_chars.len() + 10;
                assert(redact_from(result@, key@, search_from as int) == redact_from(replaced@, key@, next as int));
                result = replaced;
                search_from = next;
            },
        }
    }
}

/// Redacts the values of the sensitive keys password, token, api_key,
/// secret, key and credential: `password=hunter2` becomes
/// `password=[REDACTED]`.
pub fn redact_sensitive(input: &str) -> (r: String)
    ensures
        r@ == redact_all(input@),
{
    proof {
        reveal_strlit("password");
        reveal_strlit("token");
        reveal_strlit("api_key");
        reveal_strlit("secret");
        reveal_strlit("key");
        reveal_strlit("credential");
    }
    let mut cs = str_chars(input);
    cs = redact_key(cs, "password");
    cs = redact_key(cs, "token");
    cs = redact_key(cs, "api_key");
    cs = redact_key(cs, "secret");
    cs = redact_key(cs, "key");
    cs = redact_key(cs, "credential");
    string_from_chars(cs.as_slice())
}

// ------------------------------------------------------------ truncation

/// The longest detail, in bytes, that is stored whole.
pub const MAX_DETAIL_BYTES: usize = 500;

/// The number of bytes a longer detail is cut down to before `...` is
/// appended.
pub const TRUNCATED_DETAIL_BYTES: usize = 497;

/// A detail whose UTF-8 encoding is longer than 500 bytes can be cut at
/// byte 497: that byte starts a character.
pub open spec fn detail_truncatable(d: Seq<char>) -> bool {
    encode_utf8(d).len() > 500 ==> is_char_boundary(encode_utf8(d), 497)
}

/// A detail longer than 500 bytes becomes its first 497 bytes followed by
/// `...`; a shorter one is kept.
pub open spec fn spec_truncate_detail(d: Seq<char>) -> Seq<char> {
    if encode_utf8(d).len() > 500 {
        decode_utf8(encode_utf8(d).subrange(0, 497)) + "..."@
    } else {
        d
    }
}

/// The sanitised form of an audit detail: truncated, then redacted.
pub open spec fn spec_sanitize_detail(d: Seq<char>) -> Seq<char> {
    redact_all(spec_truncate_detail(d))
}

/// Truncates a detail longer than 500 bytes to 497 bytes and `...`.
pub fn truncate_detail(detail: &str) -> (r: String)
    requires
        detail_truncatable(detail@),
    ensures
        r@ == spec_truncate_detail(detail@),
{
    broadcast use vstd::utf8::group_utf8_lib;
    if detail.as_bytes().len() > MAX_DETAIL_BYTES {
        let (head, _) = detail.split_at(TRUNCATED_DETAIL_BYTES);
        assert(encode_utf8(head@) == encode_utf8(detail@).subrange(0, 497));
        assert(head@ == decode_utf8(encode_utf8(head@)));
        let mut r = to_owned_string(head);
        r.append("...");
        assert(r@ == head@ + "..."@);
        r
    } else {
        to_owned_string(detail)
    }
}

/// Sanitises an audit detail: truncates it when longer than 500 bytes and
/// redacts the values of sensitive keys.
pub fn sanitize_detail(detail: &str) -> (r: String)
    requires
        detail_truncatable(detail@),
    ensures
        r@ == spec_sanitize_detail(detail@),
{
    let truncated = truncate_detail(detail);
    redact_sensitive(truncated.as_str())
}

// ------------------------------------------------------------- the log

/// The most recent `count` entries of `s`, oldest first.
pub open spec fn spec_snapshot(s: Seq<AuditEntryView>, count: nat) -> Seq<AuditEntryView> {
    if count >= s.len() {
        s
    } else {
        s.subrange(s.len() - count, s.len() as int)
    }
}

/// The ring after `s` is restored into a log of the given capacity: the
/// newest `capacity` entries of `s`, oldest first.
pub open spec fn spec_restore(capacity: nat, s: Seq<AuditEntryView>) -> Seq<AuditEntryView> {
    spec_snapshot(s, capacity)
}

/// The ring after one more entry: the oldest entry is evicted when the
/// ring is at capacity.
pub open spec fn spec_after_record(
    s: Seq<AuditEntryView>,
    capacity: nat,
    e: AuditEntryView,
) -> Seq<AuditEntryView> {
    if s.len() >= capacity && s.len() > 0 {
        s.drop_first().push(e)
    } else {
        s.push(e)
    }
}

/// The positions, below `n`, of the entries of session `sid`.
pub open spec fn session_positions(s: Seq<AuditEntryView>, sid: Seq<char>, n: int) -> Seq<int>
    decreases n,
{
    if n <= 0 {
        Seq::empty()
    } else {
        let rest = session_positions(s, sid, n - 1);
        if s[n - 1].session_id == sid {
            rest.push(n - 1)
        } else {
            rest
        }
    }
}

/// The in-memory audit log: a ring of the most recent entries.
pub struct AuditLog {
    entries: VecDeque<AuditEntry>,
    capacity: usize,
}

impl AuditLog {
    /// The entries, oldest first.
    pub closed spec fn spec_entries(&self) -> Seq<AuditEntryView> {
        entry_views(self.entries@)
    }

    /// The capacity the log was made with.
    pub closed spec fn spec_capacity(&self) -> nat {
        self.capacity as nat
    }

    /// The log holds at most `capacity` entries (one, when the capacity
    /// is zero).
    pub open spec fn wf(&self) -> bool {
        self.spec_entries().len() <= self.spec_capacity() || self.spec_entries().len() <= 1
    }

    /// An empty log holding at most `capacity` entries.
    pub fn new(capacity: usize) -> (r: AuditLog)
        ensures
            r.spec_entries().len() == 0,
            r.spec_capacity() == capacity,
            r.wf(),
    {
        AuditLog { entries: VecDeque::with_capacity(capacity), capacity }
    }

    /// Records an entry stamped with the given time: the detail is
    /// sanitised, and the oldest entry is evicted when the log is full.
    pub fn record_at(
        &mut self,
        timestamp: u64,
        session_id: &str,
        event_type: AuditEventType,
        detail: &str,
        success: bool,
        component: &str,
    )
        requires
            detail_truncatable(detail@),
        ensures
            final(self).spec_capacity() == old(self).spec_capacity(),
            final(self).spec_entries() == spec_after_record(
                old(self).spec_entries(),
                old(self).spec_capacity(),
                AuditEntryView {
                    timestamp,
                    session_id: session_id@,
                    event_type,
                    detail: spec_sanitize_detail(detail@),
                    success,
                    component: component@,
                },
            ),
            recorded_once(*old(self), *final(self)),
            old(self).wf() ==> final(self).wf(),
    {
        let ghost old_entries = self.entries@;
        if self.entries.len() >= self.capacity {
            let _ = self.entries.pop_front();
        }
        let entry = AuditEntry {
            timestamp,
            session_id: to_owned_string(session_id),
            event_type,
            detail: sanitize_detail(detail),
            success,
            component: to_owned_string(component),
        };
        self.entries.push_back(entry);
        proof {
            if old_entries.len() >= self.capacity && old_entries.len() > 0 {
                assert(entry_views(self.entries@) =~= entry_views(old_entries).drop_first().push(entry@));
            } else {
                assert(entry_views(self.entries@) =~= entry_views(old_entries).push(entry@));
            }
            assert(self.spec_entries() == spec_after_record(entry_views(old_entries), self.spec_capacity(), entry@));
        }
    }

    /// Records an entry stamped with the current wall-clock time.
    pub fn record(
        &mut self,
        session_id: &str,
        event_type: AuditEventType,
        detail: &str,
        success: bool,
        component: &str,
    )
        requires
            detail_truncatable(detail@),
        ensures
            final(self).spec_capacity() == old(self).spec_capacity(),
            exists|timestamp: u64|
                final(self).spec_entries() == spec_after_record(
                    old(self).spec_entries(),
                    old(self).spec_capacity(),
                    AuditEntryView {
                        timestamp,
                        session_id: session_id@,
                        event_type,
                        detail: spec_sanitize_detail(detail@),
                        success,
                        component: component@,
                    },
                ),
            recorded_once(*old(self), *final(self)),
            old(self).wf() ==> final(self).wf(),
    {
        let now = unix_time_ms();
        self.record_at(now, session_id, event_type, detail, success, component);
    }

    /// The most recent `count` entries, newest first.
    pub fn recent(&self, count: usize) -> (r: Vec<&AuditEntry>)
        ensures
            r@.len() == if count < self.spec_entries().len() { count as int } else { self.spec_entries().len() as int },
            forall|i: int| 0 <= i < r@.len() ==> r@[i]@ == self.spec_entries()[self.spec_entries().len() - 1 - i],
    {
        let n = self.entries.len();
        let mut out: Vec<&AuditEntry> = Vec::new();
        let mut i: usize = 0;
        while i < count && i < n
            invariant
                n == self.entries@.len(),
                i <= n,
                i <= count,
                out@.len() == i,
                forall|k: int| 0 <= k < i ==> out@[k]@ == self.entries@[n - 1 - k]@,
            decreases n - i,
        {
            out.push(&self.entries[n - 1 - i]);
            i += 1;
        }
        out
    }

    /// The entries of one session, oldest first.
    pub fn for_session(&self, session_id: &str) -> (r: Vec<&AuditEntry>)
        ensures
            r@.len() == session_positions(self.spec_entries(), session_id@, self.spec_entries().len() as int).len(),
            forall|k: int| 0 <= k < r@.len() ==> r@[k]@ == self.spec_entries()[
                session_positions(self.spec_entries(), session_id@, self.spec_entries().len() as int)[k]],
    {
        let mut out: Vec<&AuditEntry> = Vec::new();
        let mut i: usize = 0;
        while i < self.entries.len()
            invariant
                i <= self.entries@.len(),
                out@.len() == session_positions(entry_views(self.entries@), session_id@, i as int).len(),
                forall|k: int| 0 <= k < out@.len() ==> out@[k]@ == entry_views(self.entries@)[
                    session_positions(entry_views(self.entries@), session_id@, i as int)[k]],
            decreases self.entries@.len() - i,
        {
            let e: &AuditEntry = &self.entries[i];
            if str_eq(e.session_id.as_str(), session_id) {
                out.push(e);
            }
            i += 1;
        }
        out
    }

    /// The number of entries.
    pub fn len(&self) -> (r: usize)
        ensures
            r == self.spec_entries().len(),
    {
        self.entries.len()
    }

    /// Whether the log holds no entry.
    pub fn is_empty(&self) -> (r: bool)
        ensures
            r == (self.spec_entries().len() == 0),
    {
        self.entries.len() == 0
    }

    /// Copies of the most recent `count` entries, oldest first.
    pub fn snapshot_recent(&self, count: usize) -> (r: Vec<AuditEntry>)
        ensures
            entry_views(r@) == spec_snapshot(self.spec_entries(), count as nat),
    {
        let len = self.entries.len();
        let n = if count < len { count } else { len };
        let start = len - n;
        let mut out: Vec<AuditEntry> = Vec::new();
        let mut i: usize = start;
        while i < len
            invariant
                len == self.entries@.len(),
                start <= i <= len,
                out@.len() == i - start,
                entry_views(out@) == entry_views(self.entries@).subrange(start as int, i as int),
            decreases len - i,
        {
            let e = self.entries[i].clone();
            assert(e@ == self.entries@[i as int]@);
            let ghost o0 = out@;
            out.push(e);
            proof {
                let target = entry_views(self.entries@).subrange(start as int, i + 1);
                assert forall|k: int| 0 <= k < out@.len() implies entry_views(out@)[k] == target[k] by {
                    if k < o0.len() {
                        assert(entry_views(o0)[k] == entry_views(self.entries@).subrange(start as int, i as int)[k]);
                    }
                }
                assert(entry_views(out@) =~= target);
            }
            i += 1;
        }
        proof {
            if count as nat >= self.entries@.len() {
                assert(entry_views(self.entries@).subrange(0, len as int) =~= entry_views(self.entries@));
            }
        }
        out
    }

    /// Replaces the ring with the given entries, oldest first, keeping
    /// only the newest `capacity` of them; returns how many were kept.
    pub fn restore_recent(&mut self, entries: Vec<AuditEntry>) -> (r: usize)
        ensures
            final(self).spec_capacity() == old(self).spec_capacity(),
            final(self).spec_entries() == spec_restore(old(self).spec_capacity(), entry_views(entries@)),
            r == final(self).spec_entries().len(),
            final(self).wf(),
    {
        let total = entries.len();
        let drop = if total > self.capacity { total - self.capacity } else { 0 };
        self.entries.clear();
        let mut i: usize = 0;
        let mut rest = entries;
        let ghost all = rest@;
        let ghost cap = self.capacity;
        while rest.len() > 0
            invariant
                self.capacity == cap,
                total == all.len(),
                total <= cap ==> drop == 0,
                total > cap ==> drop == total - cap,
                drop <= total,
                i + rest@.len() == total,
                rest@ == all.subrange(i as int, total as int),
                i <= drop ==> self.entries@.len() == 0,
                i > drop ==> entry_views(self.entries@) == entry_views(all).subrange(drop as int, i as int),
            decreases rest@.len(),
        {
            let e = rest.remove(0);
            if i >= drop {
                self.entries.push_back(e);
            }
            proof {
                if i + 1 > drop {
                    assert(entry_views(self.entries@) =~= entry_views(all).subrange(drop as int, i + 1));
                }
                assert(rest@ =~= all.subrange(i + 1, total as int));
            }
            i += 1;
        }
        proof {
            if total > drop {
                assert(entry_views(self.entries@) == entry_views(all).subrange(drop as int, total as int));
            } else {
                assert(entry_views(self.entries@) =~= entry_views(all).subrange(drop as int, total as int));
            }
            if total <= self.capacity {
                assert(entry_views(all).subrange(0, total as int) =~= entry_views(all));
            }
        }
        self.entries.len()
    }
}

/// Restoring a snapshot of the newest `n` entries into a log of capacity
/// `capacity` gives the newest `min(n, capacity)` entries; a snapshot of
/// a whole ring restored into a log of the same capacity gives the ring
/// back.
pub proof fn law_snapshot_then_restore(s: Seq<AuditEntryView>, n: nat, capacity: nat)
    ensures
        spec_restore(capacity, spec_snapshot(s, n)) == spec_snapshot(s, if n < capacity { n } else { capacity }),
        s.len() <= capacity ==> spec_restore(capacity, spec_snapshot(s, s.len())) == s,
{
    if n < s.len() && capacity < n {
        assert(spec_snapshot(s, n).subrange(n - capacity, n as int) =~= s.subrange(s.len() - capacity, s.len() as int));
    }
}

impl Default for AuditLog {
    /// A log of 1024 entries.
    fn default() -> (r: AuditLog)
        ensures
            r.spec_entries().len() == 0,
            r.spec_capacity() == 1024,
    {
        AuditLog::new(1024)
    }
}

/// `after` is `before` with one more entry recorded, as
/// `AuditLog::record` and `AuditLog::record_at` leave it.
pub open spec fn recorded_once(before: AuditLog, after: AuditLog) -> bool {
    &&& after.spec_capacity() == before.spec_capacity()
    &&& exists|e: AuditEntryView|
        after.spec_entries() == #[trigger] spec_after_record(before.spec_entries(), before.spec_capacity(), e)
}

/// A log made with capacity `c >= 1` that starts empty has, after `n`
/// calls of `AuditLog::record`, length `min(n, c)`: `logs[k]` is the log
/// after `k` records. (`is_empty` is exactly a length of zero.)
pub proof fn law_audit_log_is_bounded(logs: Seq<AuditLog>)
    requires
        logs.len() >= 1,
        logs[0].spec_entries().len() == 0,
        logs[0].spec_capacity() >= 1,
        forall|k: int| 0 <= k < logs.len() - 1 ==> #[trigger] recorded_once(logs[k], logs[k + 1]),
    ensures
        logs.last().spec_capacity() == logs[0].spec_capacity(),
        logs.last().spec_entries().len() == if logs.len() - 1 < logs[0].spec_capacity() {
            logs.len() - 1
        } else {
            logs[0].spec_capacity() as int
        },
    decreases logs.len(),
{
    if logs.len() > 1 {
        let prefix = logs.drop_last();
        assert forall|k: int| 0 <= k < prefix.len() - 1 implies #[trigger] recorded_once(prefix[k], prefix[k + 1]) by {
            assert(recorded_once(logs[k], logs[k + 1]));
        }
        law_audit_log_is_bounded(prefix);
        let n: int = logs.len() - 2;
        assert(recorded_once(logs[n], logs[n + 1]));
        assert(prefix.last() == logs[n]);
        let e = choose|e: AuditEntryView|
            logs[n + 1].spec_entries() == #[trigger] spec_after_record(logs[n].spec_entries(), logs[n].spec_capacity(), e);
        assert(logs[n + 1].spec_entries() == spec_after_record(logs[n].spec_entries(), logs[n].spec_capacity(), e));
    }
}

} // verus!
