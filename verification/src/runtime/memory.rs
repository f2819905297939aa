//! Conversation and session memory.
//!
//! The conversation memory is a bounded ring of the latest messages; the
//! session memory adds a small key-value working memory.
use vstd::prelude::*;
use std::collections::VecDeque;

use crate::runtime::clock::unix_time_ms;
use crate::bindings::{keys_unique, binds, bindings_map, lemma_bindings_map_at, lemma_bindings_map_remove, lemma_bindings_map_push};
use crate::text::{str_eq, to_owned_string};

verus! {

/// Who wrote a memory entry.
#[derive(Debug, Clone, Copy, PartialEq, Eq, Structural)]
pub enum MemoryRole {
    User,
    Agent,
    System,
    Tool,
}

/// The tag of each role in the model context.
pub open spec fn spec_role_tag(r: MemoryRole) -> Seq<char> {
    match r {
        MemoryRole::User => "USER"@,
        MemoryRole::Agent => "AGENT"@,
        MemoryRole::System => "SYSTEM"@,
        MemoryRole::Tool => "TOOL"@,
    }
}

/// One remembered message.
#[derive(Debug)]
pub struct MemoryEntry {
    /// Who wrote it.
    pub role: MemoryRole,
    /// The message.
    pub content: String,
    /// Milliseconds since the Unix epoch.
    pub timestamp: u64,
}

/// A memory entry with its content as a character sequence.
pub struct MemoryEntryView {
    pub role: MemoryRole,
    pub content: Seq<char>,
    pub timestamp: u64,
}

impl View for MemoryEntry {
    type V = MemoryEntryView;

    open spec fn view(&self) -> MemoryEntryView {
        MemoryEntryView { role: self.role, content: self.content@, timestamp: self.timestamp }
    }
}

impl Clone for MemoryEntry {
    fn clone(&self) -> (r: Self)
        ensures
            r@ == self@,
    {
        MemoryEntry { role: self.role, content: self.content.clone(), timestamp: self.timestamp }
    }
}

/// The views of a sequence of entries.
pub open spec fn memory_views(s: Seq<MemoryEntry>) -> Seq<MemoryEntryView> {
    s.map_values(|e: MemoryEntry| e@)
}

/// One line of the model context: `[ROLE] content`.
pub open spec fn context_line(e: MemoryEntryView) -> Seq<char> {
    "["@ + spec_role_tag(e.role) + "] "@ + e.content
}

/// The model context: one line per entry, oldest first, joined by
/// newlines.
pub open spec fn spec_context(s: Seq<MemoryEntryView>) -> Seq<char>
    decreases s.len(),
{
    if s.len() == 0 {
        Seq::empty()
    } else if s.len() == 1 {
        context_line(s[0])
    } else {
        spec_context(s.drop_last()) + "\n"@ + context_line(s.last())
    }
}

/// The ring after one more entry: the oldest entry is evicted when the
/// ring is at capacity.
pub open spec fn ring_after_add(s: Seq<MemoryEntryView>, capacity: nat, e: MemoryEntryView) -> Seq<MemoryEntryView> {
    if s.len() >= capacity && s.len() > 0 {
        s.drop_first().push(e)
    } else {
        s.push(e)
    }
}

/// A bounded conversation memory: the latest messages, oldest first.
pub struct ConversationMemory {
    entries: VecDeque<MemoryEntry>,
    capacity: usize,
}

fn context_line_of(e: &MemoryEntry) -> (r: String)
    ensures
        r@ == context_line(e@),
{
    let tag: &str = match e.role {
        MemoryRole::User => "USER",
        MemoryRole::Agent => "AGENT",
        MemoryRole::System => "SYSTEM",
        MemoryRole::Tool => "TOOL",
    };
    let mut r = String::from_str("[");
    r.append(tag);
    r.append("] ");
    r.append(e.content.as_str());
    r
}

impl ConversationMemory {
    /// The entries, oldest first.
    pub closed spec fn spec_entries(&self) -> Seq<MemoryEntryView> {
        memory_views(self.entries@)
    }

    /// The capacity the memory was made with.
    pub closed spec fn spec_capacity(&self) -> nat {
        self.capacity as nat
    }

    /// An empty memory holding at most `capacity` entries.
    pub fn new(capacity: usize) -> (r: ConversationMemory)
        ensures
            r.spec_entries().len() == 0,
            r.spec_capacity() == capacity,
    {
        ConversationMemory { entries: VecDeque::with_capacity(capacity), capacity }
    }

    /// Adds a message stamped with the given time, evicting the oldest
    /// one when the memory is full.
    pub fn add_at(&mut self, timestamp: u64, role: MemoryRole, content: &str)
        ensures
            final(self).spec_capacity() == old(self).spec_capacity(),
            final(self).spec_entries() == ring_after_add(
                old(self).spec_entries(),
                old(self).spec_capacity(),
                MemoryEntryView { role, content: content@, timestamp },
            ),
    {
        let ghost old_entries = self.entries@;
        if self.entries.len() >= self.capacity {
            let _ = self.entries.pop_front();
        }
        let entry = MemoryEntry { role, content: to_owned_string(content), timestamp };
        self.entries.push_back(entry);
        proof {
            if old_entries.len() >= self.capacity && old_entries.len() > 0 {
                assert(memory_views(self.entries@) =~= memory_views(old_entries).drop_first().push(entry@));
            } else {
                assert(memory_views(self.entries@) =~= memory_views(old_entries).push(entry@));
            }
        }
    }

    /// Adds a message stamped with the current wall-clock time.
    pub fn add(&mut self, role: MemoryRole, content: &str)
        ensures
            final(self).spec_capacity() == old(self).spec_capacity(),
            exists|timestamp: u64|
                final(self).spec_entries() == ring_after_add(
                    old(self).spec_entries(),
                    old(self).spec_capacity(),
                    MemoryEntryView { role, content: content@, timestamp },
                ),
    {
        let now = unix_time_ms();
        self.add_at(now, role, content);
    }

    /// The entries, oldest first.
    pub fn entries(&self) -> (r: Vec<&MemoryEntry>)
        ensures
            r@.len() == self.spec_entries().len(),
            forall|i: int| 0 <= i < r@.len() ==> r@[i]@ == self.spec_entries()[i],
    {
        let mut out: Vec<&MemoryEntry> = Vec::new();
        let mut i: usize = 0;
        while i < self.entries.len()
            invariant
                i <= self.entries@.len(),
                out@.len() == i,
                forall|k: int| 0 <= k < i ==> out@[k]@ == self.entries@[k]@,
            decreases self.entries@.len() - i,
        {
            out.push(&self.entries[i]);
            i += 1;
        }
        out
    }

    /// The number of entries.
    pub fn len(&self) -> (r: usize)
        ensures
            r == self.spec_entries().len(),
    {
        self.entries.len()
    }

    /// Whether the memory holds no entry.
    pub fn is_empty(&self) -> (r: bool)
        ensures
            r == (self.spec_entries().len() == 0),
    {
        self.entries.len() == 0
    }

    /// Forgets every entry.
    pub fn clear(&mut self)
        ensures
            final(self).spec_entries().len() == 0,
            final(self).spec_capacity() == old(self).spec_capacity(),
    {
        self.entries.clear();
    }

    /// The entries as model context: `[ROLE] content` lines, oldest
    /// first, joined by newlines.
    pub fn as_context(&self) -> (r: String)
        ensures
            r@ == spec_context(self.spec_entries()),
    {
        let mut out = String::new();
        let mut i: usize = 0;
        while i < self.entries.len()
            invariant
                i <= self.entries@.len(),
                out@ == spec_context(memory_views(self.entries@).subrange(0, i as int)),
            decreases self.entries@.len() - i,
        {
            let line = context_line_of(&self.entries[i]);
            proof {
                let s1 = memory_views(self.entries@).subrange(0, i + 1);
                assert(s1.drop_last() =~= memory_views(self.entries@).subrange(0, i as int));
                assert(s1.last() == self.entries@[i as int]@);
                if i == 0 {
                    assert(s1[0] == self.entries@[0]@);
                }
            }
            if i > 0 {
                out.append("\n");
            }
            out.append(line.as_str());
            i += 1;
        }
        proof {
            assert(memory_views(self.entries@).subrange(0, self.entries@.len() as int) =~= memory_views(self.entries@));
        }
        out
    }
}

impl Default for ConversationMemory {
    /// A memory of 32 entries.
    fn default() -> (r: ConversationMemory)
        ensures
            r.spec_entries().len() == 0,
            r.spec_capacity() == 32,
    {
        ConversationMemory::new(32)
    }
}

// -------------------------------------------------------- working memory

/// The bindings of a list of pairs, with their strings as character
/// sequences.
pub open spec fn pairs_view(s: Seq<(String, String)>) -> Seq<(Seq<char>, Seq<char>)> {
    s.map_values(|p: (String, String)| (p.0@, p.1@))
}

/// Session-scoped memory: the conversation and a key-value working
/// memory.
pub struct SessionMemory {
    /// The conversation of the session.
    pub conversation: ConversationMemory,
    working: Vec<(String, String)>,
}

impl SessionMemory {
    /// The working memory as a map.
    pub closed spec fn spec_working(&self) -> Map<Seq<char>, Seq<char>> {
        bindings_map(pairs_view(self.working@))
    }

    /// The conversation of the session.
    pub closed spec fn spec_conversation(&self) -> ConversationMemory {
        self.conversation
    }

    /// No key of the working memory is bound twice.
    pub closed spec fn wf(&self) -> bool {
        keys_unique(pairs_view(self.working@))
    }

    /// A fresh session memory: a conversation of 32 entries and an empty
    /// working memory.
    pub fn new() -> (r: SessionMemory)
        ensures
            r.wf(),
            r.spec_working() == Map::<Seq<char>, Seq<char>>::empty(),
            r.spec_conversation().spec_entries().len() == 0,
            r.spec_conversation().spec_capacity() == 32,
    {
        let r = SessionMemory { conversation: ConversationMemory::new(32), working: Vec::new() };
        assert(r.spec_working() =~= Map::<Seq<char>, Seq<char>>::empty());
        r
    }

    /// The position of `key` in the working memory.
    fn position(&self, key: &str) -> (r: Option<usize>)
        ensures
            match r {
                Some(i) => i < self.working@.len() && pairs_view(self.working@)[i as int].0 == key@,
                None => !binds(pairs_view(self.working@), key@),
            },
    {
        let mut i: usize = 0;
        while i < self.working.len()
            invariant
                i <= self.working@.len(),
                forall|j: int| 0 <= j < i ==> pairs_view(self.working@)[j].0 != key@,
            decreases self.working@.len() - i,
        {
            if str_eq(self.working[i].0.as_str(), key) {
                return Some(i);
            }
            i += 1;
        }
        None
    }

    /// Binds `key` to `value` in the working memory.
    pub fn store(&mut self, key: &str, value: &str)
        requires
            old(self).wf(),
        ensures
            final(self).wf(),
            final(self).spec_working() == old(self).spec_working().insert(key@, value@),
            final(self).spec_conversation() == old(self).spec_conversation(),
    {
        let ghost s0 = pairs_view(self.working@);
        match self.position(key) {
            Some(i) => {
                proof {
                    lemma_bindings_map_remove(s0, i as int);
                }
                let _ = self.working.remove(i);
                proof {
                    assert(pairs_view(self.working@) =~= s0.remove(i as int));
                    assert(!binds(s0.remove(i as int), key@));
                    lemma_bindings_map_push(s0.remove(i as int), key@, value@);
                }
                self.working.push((to_owned_string(key), to_owned_string(value)));
                proof {
                    assert(pairs_view(self.working@) =~= s0.remove(i as int).push((key@, value@)));
                    assert(bindings_map(s0).remove(key@).insert(key@, value@) =~= bindings_map(s0).insert(key@, value@));
                }
            },
            None => {
                proof {
                    lemma_bindings_map_push(s0, key@, value@);
                }
                self.working.push((to_owned_string(key), to_owned_string(value)));
                proof {
                    assert(pairs_view(self.working@) =~= s0.push((key@, value@)));
                }
            },
        }
    }

    /// The value bound to `key`, if any.
    pub fn retrieve(&self, key: &str) -> (r: Option<&str>)
        requires
            self.wf(),
        ensures
            r is Some <==> self.spec_working().dom().contains(key@),
            r matches Some(v) ==> v@ == self.spec_working()[key@],
    {
        match self.position(key) {
            Some(i) => {
                proof {
                    lemma_bindings_map_at(pairs_view(self.working@), i as int);
                }
                Some(self.working[i].1.as_str())
            },
            None => None,
        }
    }

    /// Unbinds `key`; whether it was bound.
    pub fn remove(&mut self, key: &str) -> (r: bool)
        requires
            old(self).wf(),
        ensures
            final(self).wf(),
            r == old(self).spec_working().dom().contains(key@),
            final(self).spec_working() == old(self).spec_working().remove(key@),
            final(self).spec_conversation() == old(self).spec_conversation(),
    {
        let ghost s0 = pairs_view(self.working@);
        match self.position(key) {
            Some(i) => {
                proof {
                    lemma_bindings_map_remove(s0, i as int);
                    lemma_bindings_map_at(s0, i as int);
                }
                let _ = self.working.remove(i);
                proof {
                    assert(pairs_view(self.working@) =~= s0.remove(i as int));
                }
                true
            },
            None => {
                assert(bindings_map(s0).remove(key@) =~= bindings_map(s0));
                false
            },
        }
    }

    /// Empties the working memory.
    pub fn clear_working(&mut self)
        ensures
            final(self).wf(),
            final(self).spec_working() == Map::<Seq<char>, Seq<char>>::empty(),
            final(self).spec_conversation() == old(self).spec_conversation(),
    {
        self.working.clear();
        assert(bindings_map(pairs_view(self.working@)) =~= Map::<Seq<char>, Seq<char>>::empty());
    }
}

/// After `store(k, v)`, `retrieve(k)` gives `v`, and every other key
/// keeps its binding.
pub proof fn law_store_then_retrieve(working: Map<Seq<char>, Seq<char>>, k: Seq<char>, v: Seq<char>, other: Seq<char>)
    requires
        other != k,
    ensures
        working.insert(k, v).dom().contains(k),
        working.insert(k, v)[k] == v,
        working.insert(k, v).dom().contains(other) == working.dom().contains(other),
        working.dom().contains(other) ==> working.insert(k, v)[other] == working[other],
{
}

/// After `remove(k)`, `retrieve(k)` finds nothing and a second `remove(k)`
/// reports false.
pub proof fn law_remove_forgets(working: Map<Seq<char>, Seq<char>>, k: Seq<char>)
    ensures
        !working.remove(k).dom().contains(k),
        working.remove(k).remove(k) == working.remove(k),
{
    assert(working.remove(k).remove(k) =~= working.remove(k));
}

/// Adding to a conversation memory keeps it within its capacity (one
/// entry when the capacity is zero), and the new message is the newest.
pub proof fn law_conversation_stays_bounded(s: Seq<MemoryEntryView>, capacity: nat, e: MemoryEntryView)
    requires
        s.len() <= capacity || s.len() <= 1,
    ensures
        ring_after_add(s, capacity, e).len() <= capacity || ring_after_add(s, capacity, e).len() <= 1,
        ring_after_add(s, capacity, e).last() == e,
{
}

impl Default for SessionMemory {
    fn default() -> (r: SessionMemory)
        ensures
            r.wf(),
            r.spec_working() == Map::<Seq<char>, Seq<char>>::empty(),
            r.spec_conversation().spec_entries().len() == 0,
    {
        SessionMemory::new()
    }
}

} // verus!
