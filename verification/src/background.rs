//! The background agent's action items and the queue it emits them in:
//! what each action is, why it was proposed, whether it needs the user's
//! consent, and the task it becomes once approved; and the decisions of a
//! tick around the diagnostics, recovery and automation engines: which
//! time-of-day workflows fire, which symptoms get a recovery plan, and
//! the items a workflow's tasks become.
use vstd::prelude::*;

use crate::agent_core::task::{AgentTask, TaskId, TaskKind, TaskRisk};
use crate::json::{
    empty_object, json_encoding, json_field, json_is_object, json_member, json_text, value_field, value_member,
    value_text, value_to_text,
};
use crate::text::{str_eq, strings_view, to_owned_string};

verus! {

/// The kind of a proposed background action.
#[derive(Debug, Clone, Copy, PartialEq, Eq, Hash, PartialOrd, Ord, Structural)]
pub enum ActionKind {
    /// A typed recovery action.
    Recovery,
    /// A workflow's compiled task.
    Workflow,
}

/// The stable name of each kind.
pub open spec fn spec_action_kind_name(k: ActionKind) -> Seq<char> {
    match k {
        ActionKind::Recovery => "recovery"@,
        ActionKind::Workflow => "workflow"@,
    }
}

impl ActionKind {
    /// The stable name of the kind.
    pub fn as_str(&self) -> (r: &'static str)
        ensures
            r@ == spec_action_kind_name(*self),
    {
        match self {
            ActionKind::Recovery => "recovery",
            ActionKind::Workflow => "workflow",
        }
    }
}

/// Why a background action was proposed.
#[derive(Debug, Clone, PartialEq, Eq, Hash)]
pub enum ActionReason {
    /// A diagnostic symptom, by its id.
    Symptom(String),
    /// A workflow, by its id.
    Workflow(String),
}

/// The one-line summary of each reason.
pub open spec fn spec_reason_summary(r: ActionReason) -> Seq<char> {
    match r {
        ActionReason::Symptom(id) => "Symptom `"@ + id@ + "`"@,
        ActionReason::Workflow(id) => "Workflow `"@ + id@ + "`"@,
    }
}

impl ActionReason {
    /// A one-line summary, such as ``Symptom `cpu_overload` ``.
    pub fn summary(&self) -> (r: String)
        ensures
            r@ == spec_reason_summary(*self),
    {
        match self {
            ActionReason::Symptom(id) => {
                let mut r = String::from_str("Symptom `");
                r.append(id.as_str());
                r.append("`");
                r
            },
            ActionReason::Workflow(id) => {
                let mut r = String::from_str("Workflow `");
                r.append(id.as_str());
                r.append("`");
                r
            },
        }
    }
}

/// The subsystem an action targets.
#[derive(Debug, Clone, Copy, PartialEq, Eq, Hash, Structural)]
pub enum Subsystem {
    /// Memory.
    Memory,
    /// A system service.
    Service,
    /// An application.
    App,
    /// The file system.
    FileSystem,
    /// Anything else.
    Other,
}

/// One proposed action, the unit the user reviews.
#[derive(Debug, Clone)]
pub struct ActionItem {
    /// The action's kind.
    pub kind: ActionKind,
    /// Why it was proposed.
    pub reason: ActionReason,
    /// A one-line title.
    pub title: String,
    /// A longer description.
    pub description: String,
    /// Whether the user must consent before it runs.
    pub requires_consent: bool,
    /// The kind of task it becomes.
    pub task_kind: TaskKind,
    /// The risk of that task.
    pub task_risk: TaskRisk,
    /// The subsystem it targets, if any.
    pub subsystem: Option<Subsystem>,
    /// The structured payload for the runner.
    pub payload: serde_json::Value,
}

impl ActionItem {
    /// The workflow the action came from, if it came from one.
    pub fn workflow_id(&self) -> (r: Option<&str>)
        ensures
            match self.reason {
                ActionReason::Workflow(id) => r matches Some(s) && s@ == id@,
                ActionReason::Symptom(_) => r is None,
            },
    {
        match &self.reason {
            ActionReason::Workflow(id) => Some(id.as_str()),
            ActionReason::Symptom(_) => None,
        }
    }

    /// The symptom the action came from, if it came from one.
    pub fn symptom_id(&self) -> (r: Option<&str>)
        ensures
            match self.reason {
                ActionReason::Symptom(id) => r matches Some(s) && s@ == id@,
                ActionReason::Workflow(_) => r is None,
            },
    {
        match &self.reason {
            ActionReason::Symptom(id) => Some(id.as_str()),
            ActionReason::Workflow(_) => None,
        }
    }
}

/// The items of `items` among the first `n` whose consent flag is
/// `consent`, in order.
pub open spec fn select_by_consent(items: Seq<ActionItem>, consent: bool, n: int) -> Seq<ActionItem>
    decreases n,
{
    if n <= 0 {
        Seq::empty()
    } else {
        let rest = select_by_consent(items, consent, n - 1);
        if items[n - 1].requires_consent == consent {
            rest.push(items[n - 1])
        } else {
            rest
        }
    }
}

/// The items of a queue whose consent flag is `consent`, in order.
pub open spec fn items_by_consent(items: Seq<ActionItem>, consent: bool) -> Seq<ActionItem> {
    select_by_consent(items, consent, items.len() as int)
}

proof fn lemma_select_split(items: Seq<ActionItem>, n: int)
    requires
        0 <= n <= items.len(),
    ensures
        select_by_consent(items, true, n).len() + select_by_consent(items, false, n).len() == n,
        (exists|i: int| 0 <= i < n && items[i].requires_consent) <==> select_by_consent(items, true, n).len() > 0,
    decreases n,
{
    if n > 0 {
        lemma_select_split(items, n - 1);
        if items[n - 1].requires_consent {
            assert(exists|i: int| 0 <= i < n && items[i].requires_consent);
        } else if exists|i: int| 0 <= i < n && items[i].requires_consent {
            let i = choose|i: int| 0 <= i < n && items[i].requires_consent;
            assert(i < n - 1);
        }
    }
}

/// Splitting a queue by consent keeps every item exactly once: the part
/// that may run at once and the part that needs consent are together as
/// long as the queue.
pub proof fn law_partition_keeps_every_item(items: Seq<ActionItem>)
    ensures
        items_by_consent(items, false).len() + items_by_consent(items, true).len() == items.len(),
{
    lemma_select_split(items, items.len() as int);
}

/// A queue needs consent exactly when the count of items needing consent
/// is not zero.
pub proof fn law_needs_consent_iff_counted(items: Seq<ActionItem>)
    ensures
        (exists|i: int| 0 <= i < items.len() && items[i].requires_consent) <==> items_by_consent(items, true).len()
            > 0,
{
    lemma_select_split(items, items.len() as int);
}

/// The actions proposed in one tick, in the order they were proposed.
#[derive(Debug, Clone)]
pub struct ActionQueue {
    /// The proposed actions.
    pub items: Vec<ActionItem>,
}

impl ActionQueue {
    /// An empty queue.
    pub fn new() -> (r: ActionQueue)
        ensures
            r.items@.len() == 0,
    {
        ActionQueue { items: Vec::new() }
    }

    /// The queue with one more item at its end.
    pub fn push(self, item: ActionItem) -> (r: ActionQueue)
        ensures
            r.items@ == self.items@.push(item),
    {
        let mut r = self;
        r.items.push(item);
        r
    }

    /// The number of items.
    pub fn len(&self) -> (r: usize)
        ensures
            r == self.items@.len(),
    {
        self.items.len()
    }

    /// Whether the queue holds no item.
    pub fn is_empty(&self) -> (r: bool)
        ensures
            r == (self.items@.len() == 0),
    {
        self.items.len() == 0
    }

    /// Whether any item needs the user's consent.
    pub fn needs_consent(&self) -> (r: bool)
        ensures
            r == exists|i: int| 0 <= i < self.items@.len() && self.items@[i].requires_consent,
    {
        let mut i: usize = 0;
        while i < self.items.len()
            invariant
                i <= self.items@.len(),
                forall|j: int| 0 <= j < i ==> !self.items@[j].requires_consent,
            decreases self.items@.len() - i,
        {
            if self.items[i].requires_consent {
                return true;
            }
            i += 1;
        }
        false
    }

    /// The number of items that need the user's consent.
    pub fn consent_count(&self) -> (r: usize)
        ensures
            r == items_by_consent(self.items@, true).len(),
    {
        let mut n: usize = 0;
        let mut i: usize = 0;
        while i < self.items.len()
            invariant
                i <= self.items@.len(),
                n == select_by_consent(self.items@, true, i as int).len(),
                n <= i,
            decreases self.items@.len() - i,
        {
            if self.items[i].requires_consent {
                n += 1;
            }
            i += 1;
        }
        n
    }

    /// Splits the queue into the items that may run at once and those that
    /// need consent, each in queue order.
    pub fn partition_consent(self) -> (r: (Vec<ActionItem>, Vec<ActionItem>))
        ensures
            r.0@ == items_by_consent(self.items@, false),
            r.1@ == items_by_consent(self.items@, true),
    {
        let ghost all = self.items@;
        let mut rest = self.items;
        let total = rest.len();
        let mut auto: Vec<ActionItem> = Vec::new();
        let mut consent: Vec<ActionItem> = Vec::new();
        let mut i: usize = 0;
        while rest.len() > 0
            invariant
                total == all.len(),
                i + rest@.len() == all.len(),
                rest@ == all.subrange(i as int, all.len() as int),
                auto@ == select_by_consent(all, false, i as int),
                consent@ == select_by_consent(all, true, i as int),
            decreases rest@.len(),
        {
            let item = rest.remove(0);
            assert(item == all[i as int]);
            if item.requires_consent {
                consent.push(item);
            } else {
                auto.push(item);
            }
            proof {
                assert(rest@ =~= all.subrange(i + 1, all.len() as int));
            }
            i += 1;
        }
        (auto, consent)
    }

    /// This queue's items followed by another queue's.
    pub fn merge(self, other: ActionQueue) -> (r: ActionQueue)
        ensures
            r.items@ == self.items@ + other.items@,
    {
        let mut r = self;
        let mut o = other;
        r.items.append(&mut o.items);
        r
    }
}

impl Default for ActionQueue {
    fn default() -> (r: ActionQueue)
        ensures
            r.items@.len() == 0,
    {
        ActionQueue::new()
    }
}

/// The `kind` of a payload's `action` member, when it is a string.
pub open spec fn spec_payload_action_kind(payload: serde_json::Value) -> Option<Seq<char>> {
    match json_field(payload, "action"@) {
        Some(a) => match json_field(a, "kind"@) {
            Some(k) => json_text(k),
            None => None,
        },
        None => None,
    }
}

/// The subsystem a workflow step of this kind targets: launching an app
/// the apps, opening a file the file system, agent tasks, recoveries and
/// notifications anything else; waiting none.
pub open spec fn spec_subsystem_for_kind(kind: Seq<char>) -> Option<Subsystem> {
    if kind == "launch_app"@ {
        Some(Subsystem::App)
    } else if kind == "open_file"@ {
        Some(Subsystem::FileSystem)
    } else if kind == "agent_task"@ || kind == "recovery"@ || kind == "notify"@ {
        Some(Subsystem::Other)
    } else {
        None
    }
}

/// The subsystem a workflow payload targets, by the kind of its action.
pub fn subsystem_for_payload(payload: &serde_json::Value) -> (r: Option<Subsystem>)
    ensures
        r == match spec_payload_action_kind(*payload) {
            Some(k) => spec_subsystem_for_kind(k),
            None => None,
        },
{
    let action = match value_field(payload, "action") {
        Some(a) => a,
        None => {
            return None;
        },
    };
    let kind_value = match value_field(&action, "kind") {
        Some(k) => k,
        None => {
            return None;
        },
    };
    let kind = match value_text(&kind_value) {
        Some(k) => k,
        None => {
            return None;
        },
    };
    let k = kind.as_str();
    if str_eq(k, "launch_app") {
        Some(Subsystem::App)
    } else if str_eq(k, "open_file") {
        Some(Subsystem::FileSystem)
    } else if str_eq(k, "agent_task") || str_eq(k, "recovery") || str_eq(k, "notify") {
        Some(Subsystem::Other)
    } else {
        None
    }
}

/// The task an approved action becomes, under the given id: of the
/// action's task kind and risk, titled and described like the action, with
/// its payload as arguments; `None` when the id, title or description is
/// empty.
pub fn action_to_task(item: &ActionItem, task_id: &TaskId, timestamp_ms: u64) -> (r: Option<AgentTask>)
    ensures
        r is Some <==> task_id@.len() > 0 && item.title@.len() > 0 && item.description@.len() > 0,
        r matches Some(t) ==> {
            &&& t.id@ == task_id@
            &&& t.kind == item.task_kind
            &&& t.risk == item.task_risk
            &&& t.title@ == item.title@
            &&& t.description@ == item.description@
            &&& t.depends_on@.len() == 0
            &&& t.target is None
            &&& t.arguments == Some(item.payload)
        },
{
    let _ = timestamp_ms;
    let task = match AgentTask::new(task_id.as_str(), item.task_kind, item.title.as_str(), item.description.as_str()) {
        Some(t) => t,
        None => {
            return None;
        },
    };
    Some(task.with_risk(item.task_risk).with_arguments(item.payload.clone()))
}

} // verus!

verus! {

/// How long a time-of-day workflow stays quiet after it fired, in
/// milliseconds.
pub const REFIRE_INTERVAL_MS: u64 = 60_000;

/// The value a map holds for `k`, if any.
pub open spec fn map_get(m: Map<Seq<char>, u64>, k: Seq<char>) -> Option<u64> {
    if m.dom().contains(k) {
        Some(m[k])
    } else {
        None
    }
}

/// Whether a workflow last fired at `prev` may fire at `now`: it never
/// fired, or it fired at least a minute before `now` (a `now` before
/// `prev` counts as no time at all).
pub open spec fn spec_may_fire(prev: Option<u64>, now: u64) -> bool {
    match prev {
        None => true,
        Some(p) => now >= p && now - p >= REFIRE_INTERVAL_MS,
    }
}

/// When each named thing (a workflow, a symptom) was last acted on, in
/// milliseconds.
pub struct FiringLog {
    entries: Vec<(String, u64)>,
    map: Ghost<Map<Seq<char>, u64>>,
}

impl View for FiringLog {
    type V = Map<Seq<char>, u64>;

    closed spec fn view(&self) -> Map<Seq<char>, u64> {
        self.map@
    }
}

impl FiringLog {
    /// The entries are exactly the map's, each name once.
    pub closed spec fn wf(&self) -> bool {
        &&& forall|i: int|
            0 <= i < self.entries@.len() ==> self.map@.dom().contains(#[trigger] self.entries@[i].0@)
                && self.map@[self.entries@[i].0@] == self.entries@[i].1
        &&& forall|k: Seq<char>|
            #[trigger] self.map@.dom().contains(k) ==> exists|i: int|
                0 <= i < self.entries@.len() && self.entries@[i].0@ == k
        &&& forall|i: int, j: int|
            0 <= i < j < self.entries@.len() ==> self.entries@[i].0@ != self.entries@[j].0@
    }

    /// An empty log.
    pub fn new() -> (r: FiringLog)
        ensures
            r.wf(),
            r@ == Map::<Seq<char>, u64>::empty(),
    {
        FiringLog { entries: Vec::new(), map: Ghost(Map::empty()) }
    }

    fn position(&self, key: &str) -> (r: Option<usize>)
        requires
            self.wf(),
        ensures
            match r {
                Some(i) => i < self.entries@.len() && self.entries@[i as int].0@ == key@,
                None => !self@.dom().contains(key@),
            },
    {
        let mut i: usize = 0;
        while i < self.entries.len()
            invariant
                i <= self.entries@.len(),
                forall|j: int| 0 <= j < i ==> self.entries@[j].0@ != key@,
            decreases self.entries@.len() - i,
        {
            if str_eq(self.entries[i].0.as_str(), key) {
                return Some(i);
            }
            i += 1;
        }
        None
    }

    /// When `key` was last recorded, if ever.
    pub fn get(&self, key: &str) -> (r: Option<u64>)
        requires
            self.wf(),
        ensures
            r == map_get(self@, key@),
    {
        match self.position(key) {
            Some(i) => Some(self.entries[i].1),
            None => None,
        }
    }

    /// Records `key` at `at`, replacing its earlier time.
    pub fn record(&mut self, key: &str, at: u64)
        requires
            old(self).wf(),
        ensures
            final(self).wf(),
            final(self)@ == old(self)@.insert(key@, at),
    {
        let ghost m0 = self.map@;
        match self.position(key) {
            Some(i) => {
                let ghost before = self.entries@;
                self.entries.set(i, (to_owned_string(key), at));
                self.map = Ghost(m0.insert(key@, at));
                proof {
                    assert forall|k: Seq<char>| #[trigger] self.map@.dom().contains(k) implies exists|j: int|
                        0 <= j < self.entries@.len() && self.entries@[j].0@ == k by {
                        if k != key@ {
                            let j = choose|j: int| 0 <= j < before.len() && before[j].0@ == k;
                            assert(self.entries@[j] == before[j]);
                        } else {
                            assert(self.entries@[i as int].0@ == k);
                        }
                    }
                    assert forall|a: int| 0 <= a < self.entries@.len() implies self.map@.dom().contains(
                        #[trigger] self.entries@[a].0@,
                    ) && self.map@[self.entries@[a].0@] == self.entries@[a].1 by {
                        if a != i {
                            assert(self.entries@[a] == before[a]);
                            assert(before[a].0@ != before[i as int].0@);
                        }
                    }
                    assert forall|a: int, b: int| 0 <= a < b < self.entries@.len() implies self.entries@[a].0@
                        != self.entries@[b].0@ by {
                        if a != i as int {
                            assert(self.entries@[a] == before[a]);
                        }
                        if b != i as int {
                            assert(self.entries@[b] == before[b]);
                        }
                    }
                }
            },
            None => {
                let ghost before = self.entries@;
                self.entries.push((to_owned_string(key), at));
                self.map = Ghost(m0.insert(key@, at));
                proof {
                    assert forall|k: Seq<char>| #[trigger] self.map@.dom().contains(k) implies exists|j: int|
                        0 <= j < self.entries@.len() && self.entries@[j].0@ == k by {
                        if k != key@ {
                            let j = choose|j: int| 0 <= j < before.len() && before[j].0@ == k;
                            assert(self.entries@[j] == before[j]);
                        } else {
                            assert(self.entries@[before.len() as int].0@ == k);
                        }
                    }
                    assert forall|a: int| 0 <= a < self.entries@.len() implies self.map@.dom().contains(
                        #[trigger] self.entries@[a].0@,
                    ) && self.map@[self.entries@[a].0@] == self.entries@[a].1 by {
                        if a < before.len() {
                            assert(self.entries@[a] == before[a]);
                            assert(m0.dom().contains(before[a].0@));
                        }
                    }
                    assert forall|a: int, b: int| 0 <= a < b < self.entries@.len() implies self.entries@[a].0@
                        != self.entries@[b].0@ by {
                        assert(self.entries@[a] == before[a]);
                        if b < before.len() {
                            assert(self.entries@[b] == before[b]);
                        } else {
                            assert(m0.dom().contains(before[a].0@));
                        }
                    }
                }
            },
        }
    }
}

/// The time-of-day workflows that fire at `now`, among those whose
/// trigger matches (in registry order), and the log afterwards: each
/// fires when the log allows it, and is then logged at `now`.
pub open spec fn spec_fire(matching: Seq<Seq<char>>, now: u64, log: Map<Seq<char>, u64>) -> (
    Seq<Seq<char>>,
    Map<Seq<char>, u64>,
)
    decreases matching.len(),
{
    if matching.len() == 0 {
        (Seq::empty(), log)
    } else {
        let (fired, l) = spec_fire(matching.drop_last(), now, log);
        let k = matching.last();
        if spec_may_fire(map_get(l, k), now) {
            (fired.push(k), l.insert(k, now))
        } else {
            (fired, l)
        }
    }
}

/// Fires the time-of-day workflows whose trigger matched the tick, in
/// the order given: a workflow fires unless it fired less than a minute
/// before `now_ms`, and its firing is logged. Returns the ids that fired.
pub fn fire_time_triggers(matching: &[String], now_ms: u64, log: &mut FiringLog) -> (fired: Vec<String>)
    requires
        old(log).wf(),
    ensures
        final(log).wf(),
        strings_view(fired@) == spec_fire(strings_view(matching@), now_ms, old(log)@).0,
        final(log)@ == spec_fire(strings_view(matching@), now_ms, old(log)@).1,
{
    let ghost all = strings_view(matching@);
    let ghost log0 = log@;
    let mut fired: Vec<String> = Vec::new();
    let mut i: usize = 0;
    while i < matching.len()
        invariant
            i <= matching@.len(),
            all == strings_view(matching@),
            log.wf(),
            strings_view(fired@) == spec_fire(all.take(i as int), now_ms, log0).0,
            log@ == spec_fire(all.take(i as int), now_ms, log0).1,
        decreases matching@.len() - i,
    {
        assert(all.take(i + 1).drop_last() =~= all.take(i as int));
        let prev = log.get(matching[i].as_str());
        let may = match prev {
            None => true,
            Some(p) => now_ms >= p && now_ms - p >= REFIRE_INTERVAL_MS,
        };
        if may {
            log.record(matching[i].as_str(), now_ms);
            fired.push(matching[i].clone());
            assert(strings_view(fired@) =~= spec_fire(all.take(i as int), now_ms, log0).0.push(matching@[i as int]@));
        }
        i += 1;
    }
    assert(all.take(matching@.len() as int) =~= all);
    fired
}

/// What firing does to the log and who fires: a workflow that fired is
/// logged at `now` and was allowed to fire by the log it started from;
/// every other workflow keeps its entry.
proof fn lemma_fire_effect(matching: Seq<Seq<char>>, now: u64, log: Map<Seq<char>, u64>)
    ensures
        forall|k: Seq<char>|
            #![trigger map_get(spec_fire(matching, now, log).1, k)]
            map_get(spec_fire(matching, now, log).1, k) == if spec_fire(matching, now, log).0.contains(k) {
                Some(now)
            } else {
                map_get(log, k)
            },
        forall|k: Seq<char>|
            spec_fire(matching, now, log).0.contains(k) ==> spec_may_fire(map_get(log, k), now),
    decreases matching.len(),
{
    if matching.len() > 0 {
        let prev = matching.drop_last();
        lemma_fire_effect(prev, now, log);
        let fired = spec_fire(prev, now, log).0;
        let l = spec_fire(prev, now, log).1;
        let k = matching.last();
        assert(map_get(l, k) == if fired.contains(k) { Some(now) } else { map_get(log, k) });
        if spec_may_fire(map_get(l, k), now) {
            assert(!fired.contains(k));
            let out = fired.push(k);
            assert(spec_fire(matching, now, log).0 == out);
            assert(spec_fire(matching, now, log).1 == l.insert(k, now));
            assert forall|x: Seq<char>| out.contains(x) <==> fired.contains(x) || x == k by {
                if out.contains(x) {
                    let j = choose|j: int| 0 <= j < out.len() && out[j] == x;
                    if j < fired.len() {
                        assert(fired[j] == x);
                    }
                }
                if fired.contains(x) {
                    let j = choose|j: int| 0 <= j < fired.len() && fired[j] == x;
                    assert(out[j] == x);
                }
                if x == k {
                    assert(out[fired.len() as int] == k);
                }
            }
            assert forall|x: Seq<char>| #![trigger map_get(l.insert(k, now), x)]
                map_get(l.insert(k, now), x) == if out.contains(x) { Some(now) } else { map_get(log, x) } by {
                assert(map_get(l, x) == if fired.contains(x) { Some(now) } else { map_get(log, x) });
            }
            assert forall|x: Seq<char>| out.contains(x) implies spec_may_fire(map_get(log, x), now) by {
                assert(map_get(l, x) == if fired.contains(x) { Some(now) } else { map_get(log, x) });
            }
        } else {
            assert(spec_fire(matching, now, log).0 == fired);
            assert(spec_fire(matching, now, log).1 == l);
        }
    }
}

/// A time-of-day workflow that fired does not fire again less than a
/// minute later, whatever workflows match the next tick.
pub proof fn law_no_refire_within_a_minute(
    first: Seq<Seq<char>>,
    second: Seq<Seq<char>>,
    t1: u64,
    t2: u64,
    log: Map<Seq<char>, u64>,
)
    requires
        t1 <= t2,
        t2 - t1 < REFIRE_INTERVAL_MS,
    ensures
        forall|k: Seq<char>|
            spec_fire(first, t1, log).0.contains(k) ==> !spec_fire(second, t2, spec_fire(first, t1, log).1).0.contains(
                k,
            ),
{
    let l1 = spec_fire(first, t1, log).1;
    lemma_fire_effect(first, t1, log);
    lemma_fire_effect(second, t2, l1);
    assert forall|k: Seq<char>| spec_fire(first, t1, log).0.contains(k) implies !spec_fire(second, t2, l1).0.contains(
        k,
    ) by {
        assert(map_get(l1, k) == Some(t1));
    }
}

/// The symptoms that get a recovery plan at `now`, among the diagnosed
/// ones (each with whether the recovery policy has a plan for it), and
/// the log of planned symptoms afterwards: a symptom is planned when it
/// was never planned before and has a plan, and is then logged at `now`.
pub open spec fn spec_plan_new(candidates: Seq<(Seq<char>, bool)>, now: u64, planned: Map<Seq<char>, u64>) -> (
    Seq<Seq<char>>,
    Map<Seq<char>, u64>,
)
    decreases candidates.len(),
{
    if candidates.len() == 0 {
        (Seq::empty(), planned)
    } else {
        let (sel, l) = spec_plan_new(candidates.drop_last(), now, planned);
        let (k, has_plan) = candidates.last();
        if !l.dom().contains(k) && has_plan {
            (sel.push(k), l.insert(k, now))
        } else {
            (sel, l)
        }
    }
}

/// The views of (symptom id, has a plan) pairs.
pub open spec fn candidates_view(c: Seq<(String, bool)>) -> Seq<(Seq<char>, bool)> {
    c.map_values(|p: (String, bool)| (p.0@, p.1))
}

/// Picks the diagnosed symptoms to plan recovery for, in order: those
/// never planned before for which the policy has a plan; each is logged
/// at `now_ms`, so a lasting diagnosis is planned once.
pub fn select_unplanned(candidates: &[(String, bool)], now_ms: u64, planned: &mut FiringLog) -> (selected: Vec<
    String,
>)
    requires
        old(planned).wf(),
    ensures
        final(planned).wf(),
        strings_view(selected@) == spec_plan_new(candidates_view(candidates@), now_ms, old(planned)@).0,
        final(planned)@ == spec_plan_new(candidates_view(candidates@), now_ms, old(planned)@).1,
{
    let ghost all = candidates_view(candidates@);
    let ghost log0 = planned@;
    let mut selected: Vec<String> = Vec::new();
    let mut i: usize = 0;
    while i < candidates.len()
        invariant
            i <= candidates@.len(),
            all == candidates_view(candidates@),
            planned.wf(),
            strings_view(selected@) == spec_plan_new(all.take(i as int), now_ms, log0).0,
            planned@ == spec_plan_new(all.take(i as int), now_ms, log0).1,
        decreases candidates@.len() - i,
    {
        assert(all.take(i + 1).drop_last() =~= all.take(i as int));
        assert(all[i as int] == (candidates@[i as int].0@, candidates@[i as int].1));
        let known = planned.get(candidates[i].0.as_str()).is_some();
        if !known && candidates[i].1 {
            planned.record(candidates[i].0.as_str(), now_ms);
            selected.push(candidates[i].0.clone());
            assert(strings_view(selected@) =~= spec_plan_new(all.take(i as int), now_ms, log0).0.push(
                candidates@[i as int].0@,
            ));
        }
        i += 1;
    }
    assert(all.take(candidates@.len() as int) =~= all);
    selected
}

/// What planning does to the log: it gains exactly the selected
/// symptoms, none of which it held before.
proof fn lemma_plan_effect(candidates: Seq<(Seq<char>, bool)>, now: u64, planned: Map<Seq<char>, u64>)
    ensures
        forall|k: Seq<char>|
            #![trigger spec_plan_new(candidates, now, planned).1.dom().contains(k)]
            spec_plan_new(candidates, now, planned).1.dom().contains(k) <==> planned.dom().contains(k)
                || spec_plan_new(candidates, now, planned).0.contains(k),
        forall|k: Seq<char>| spec_plan_new(candidates, now, planned).0.contains(k) ==> !planned.dom().contains(k),
    decreases candidates.len(),
{
    if candidates.len() > 0 {
        lemma_plan_effect(candidates.drop_last(), now, planned);
        let (sel, l) = spec_plan_new(candidates.drop_last(), now, planned);
        let (k, has_plan) = candidates.last();
        if !l.dom().contains(k) && has_plan {
            assert forall|x: Seq<char>| sel.push(k).contains(x) implies sel.contains(x) || x == k by {
                let j = choose|j: int| 0 <= j < sel.push(k).len() && sel.push(k)[j] == x;
                if j < sel.len() {
                    assert(sel[j] == x);
                }
            }
            assert forall|x: Seq<char>| sel.contains(x) implies sel.push(k).contains(x) by {
                let j = choose|j: int| 0 <= j < sel.len() && sel[j] == x;
                assert(sel.push(k)[j] == x);
            }
            assert(sel.push(k)[sel.len() as int] == k);
        }
    }
}

/// A symptom that got a recovery plan never gets another one, however
/// often it is diagnosed again.
pub proof fn law_symptom_planned_once(
    first: Seq<(Seq<char>, bool)>,
    second: Seq<(Seq<char>, bool)>,
    t1: u64,
    t2: u64,
    planned: Map<Seq<char>, u64>,
)
    ensures
        forall|k: Seq<char>|
            spec_plan_new(first, t1, planned).0.contains(k) ==> !spec_plan_new(
                second,
                t2,
                spec_plan_new(first, t1, planned).1,
            ).0.contains(k),
{
    let l1 = spec_plan_new(first, t1, planned).1;
    lemma_plan_effect(first, t1, planned);
    lemma_plan_effect(second, t2, l1);
    assert forall|k: Seq<char>| spec_plan_new(first, t1, planned).0.contains(k) implies !spec_plan_new(
        second,
        t2,
        l1,
    ).0.contains(k) by {
        assert(l1.dom().contains(k));
    }
}

/// The item a task of a workflow becomes: a workflow action for the
/// task's kind and risk, titled like the task, whose payload is the
/// task's arguments (an empty object when it has none), described by the
/// JSON text of the payload's `action`, targeting the subsystem of that
/// action's kind, and needing consent when the task is high or critical
/// risk.
pub open spec fn is_workflow_item(item: ActionItem, task: AgentTask, workflow_id: Seq<char>) -> bool {
    &&& item.kind == ActionKind::Workflow
    &&& item.reason matches ActionReason::Workflow(id) && id@ == workflow_id
    &&& item.title@ == task.title@
    &&& (task.arguments matches Some(a) ==> item.payload == a)
    &&& (task.arguments is None ==> json_is_object(item.payload) && forall|k: Seq<char>|
        json_field(item.payload, k) is None)
    &&& item.description@ == json_encoding(json_member(item.payload, "action"@))
    &&& item.requires_consent == (task.risk == TaskRisk::High || task.risk == TaskRisk::Critical)
    &&& item.task_kind == task.kind
    &&& item.task_risk == task.risk
    &&& item.subsystem == match spec_payload_action_kind(item.payload) {
        Some(k) => spec_subsystem_for_kind(k),
        None => None,
    }
}

/// The items a workflow's compiled tasks become, in task order.
pub fn workflow_items(tasks: &[AgentTask], workflow_id: &str) -> (q: ActionQueue)
    ensures
        q.items@.len() == tasks@.len(),
        forall|i: int| 0 <= i < tasks@.len() ==> is_workflow_item(#[trigger] q.items@[i], tasks@[i], workflow_id@),
{
    let mut q = ActionQueue::new();
    let mut i: usize = 0;
    while i < tasks.len()
        invariant
            i <= tasks@.len(),
            q.items@.len() == i,
            forall|j: int| 0 <= j < i ==> is_workflow_item(#[trigger] q.items@[j], tasks@[j], workflow_id@),
        decreases tasks@.len() - i,
    {
        let task = &tasks[i];
        let payload = match &task.arguments {
            Some(a) => a.clone(),
            None => empty_object(),
        };
        let action = value_member(&payload, "action");
        let description = value_to_text(&action);
        let subsystem = subsystem_for_payload(&payload);
        let requires_consent = match task.risk {
            TaskRisk::High | TaskRisk::Critical => true,
            _ => false,
        };
        let item = ActionItem {
            kind: ActionKind::Workflow,
            reason: ActionReason::Workflow(to_owned_string(workflow_id)),
            title: task.title.clone(),
            description,
            requires_consent,
            task_kind: task.kind,
            task_risk: task.risk,
            subsystem,
            payload,
        };
        q = q.push(item);
        i += 1;
    }
    q
}

} // verus!
