//! The memory store: bounded bytes saved and loaded by name.
//!
//! Names are validated before they are used: a name is 1 to 64 characters, has
//! no path separator, no `..`, and does not start with NUL. Payloads are
//! capped at 256 KiB. Higher layers wrap their state in a versioned
//! envelope whose content checksum is a 64-bit FNV-1a hash.
use vstd::prelude::*;

use crate::bindings::{
    keys_unique, binds, bindings_map, lemma_bindings_map_at, lemma_bindings_map_remove,
    lemma_bindings_map_push,
};
use crate::runtime::clock::unix_time_ms;
use crate::text::{
    has_char, contains_seq, spec_decimal, spec_hex_digits, str_chars, chars_have, chars_contain,
    str_eq, str_lt, seq_lt, strings_view, lemma_seq_lt_transitive, lemma_seq_lt_total, lemma_seq_lt_irreflexive,
    push_decimal, push_hex_digits, to_owned_string,
};

verus! {

/// The longest memory-store name, in characters.
pub const MAX_NAME_LEN: usize = 64;

/// The largest payload of one `save`, in bytes (256 KiB).
pub const MAX_PAYLOAD_BYTES: usize = 262144;

/// The version of the envelope this library writes.
pub const ENVELOPE_VERSION: u32 = 1;

/// An error of a memory store.
#[derive(Debug, Clone, PartialEq, Eq)]
pub enum MemoryStoreError {
    /// An I/O error of the underlying storage.
    Io(String),
    /// The name is empty, too long, holds a path separator or `..`, or
    /// starts with NUL.
    InvalidName(String),
    /// A payload exceeded the cap.
    TooLarge {
        /// The payload's size in bytes.
        size: usize,
        /// The cap in bytes.
        cap: usize,
    },
    /// Persisted data failed its integrity checks.
    Corrupt(String),
}

/// `MemoryStoreError` with its strings as character sequences.
pub enum MemoryStoreErrorView {
    Io(Seq<char>),
    InvalidName(Seq<char>),
    TooLarge { size: usize, cap: usize },
    Corrupt(Seq<char>),
}

impl View for MemoryStoreError {
    type V = MemoryStoreErrorView;

    open spec fn view(&self) -> MemoryStoreErrorView {
        match self {
            MemoryStoreError::Io(s) => MemoryStoreErrorView::Io(s@),
            MemoryStoreError::InvalidName(s) => MemoryStoreErrorView::InvalidName(s@),
            MemoryStoreError::TooLarge { size, cap } => MemoryStoreErrorView::TooLarge { size: *size, cap: *cap },
            MemoryStoreError::Corrupt(s) => MemoryStoreErrorView::Corrupt(s@),
        }
    }
}

/// The human-readable message of each error.
pub open spec fn spec_store_error_message(e: MemoryStoreErrorView) -> Seq<char> {
    match e {
        MemoryStoreErrorView::Io(s) => "memory store io: "@ + s,
        MemoryStoreErrorView::InvalidName(s) => "memory store invalid name: "@ + s,
        MemoryStoreErrorView::TooLarge { size, cap } => "memory store payload too large: "@ + spec_decimal(
            size as nat,
        ) + " bytes (cap "@ + spec_decimal(cap as nat) + ")"@,
        MemoryStoreErrorView::Corrupt(s) => "memory store corrupt: "@ + s,
    }
}

impl MemoryStoreError {
    /// The human-readable message.
    pub fn to_string(&self) -> (r: String)
        ensures
            r@ == spec_store_error_message(self@),
    {
        match self {
            MemoryStoreError::Io(s) => {
                let mut r = String::from_str("memory store io: ");
                r.append(s.as_str());
                r
            },
            MemoryStoreError::InvalidName(s) => {
                let mut r = String::from_str("memory store invalid name: ");
                r.append(s.as_str());
                r
            },
            MemoryStoreError::TooLarge { size, cap } => {
                let mut r = String::from_str("memory store payload too large: ");
                push_decimal(&mut r, *size as u64);
                r.append(" bytes (cap ");
                push_decimal(&mut r, *cap as u64);
                r.append(")");
                r
            },
            MemoryStoreError::Corrupt(s) => {
                let mut r = String::from_str("memory store corrupt: ");
                r.append(s.as_str());
                r
            },
        }
    }
}

// ------------------------------------------------------------------ names

/// The `Debug` rendering of a string: quoted, with escapes, as
/// `format!("{:?}", s)` makes it.
pub uninterp spec fn str_debug(s: Seq<char>) -> Seq<char>;

/// Renders a string with `format!("{:?}", ..)`; the result is named by
/// `str_debug`.
#[verifier::external_body]
fn debug_quoted(s: &str) -> (r: String)
    ensures
        r@ == str_debug(s@),
{
    format!("{s:?}")
}

/// The reason a name is refused, or `None` for a valid name. The checks
/// come in this order: empty, longer than 64 characters, a path separator
/// (`/` or `\`), `..`, a leading NUL.
pub open spec fn spec_name_error(name: Seq<char>) -> Option<Seq<char>> {
    if name.len() == 0 {
        Some("name is empty"@)
    } else if name.len() > 64 {
        Some("name too long: "@ + spec_decimal(name.len()) + " chars (cap 64)"@)
    } else if has_char(name, '/') || has_char(name, '\\') {
        Some("name contains a path separator: "@ + str_debug(name))
    } else if contains_seq(name, ".."@) {
        Some("name contains a parent reference: "@ + str_debug(name))
    } else if name[0] == '\0' {
        Some("name starts with NUL"@)
    } else {
        None
    }
}

/// The result of validating a name.
pub open spec fn spec_validate_name(name: Seq<char>) -> Result<(), MemoryStoreErrorView> {
    match spec_name_error(name) {
        Some(msg) => Err(MemoryStoreErrorView::InvalidName(msg)),
        None => Ok(()),
    }
}

/// The view of a result whose error is a store error.
pub open spec fn result_view<T>(r: Result<T, MemoryStoreError>) -> Result<T, MemoryStoreErrorView> {
    match r {
        Ok(v) => Ok(v),
        Err(e) => Err(e@),
    }
}

/// Validates a memory-store name: `Ok` for a name that is safe as a
/// single path segment, else `InvalidName` with the reason.
pub fn validate_name(name: &str) -> (r: Result<(), MemoryStoreError>)
    ensures
        result_view(r) == spec_validate_name(name@),
{
    let cs = str_chars(name);
    if cs.len() == 0 {
        return Err(MemoryStoreError::InvalidName(String::from_str("name is empty")));
    }
    let len = cs.len();
    if len > MAX_NAME_LEN {
        let mut msg = String::from_str("name too long: ");
        push_decimal(&mut msg, len as u64);
        msg.append(" chars (cap 64)");
        return Err(MemoryStoreError::InvalidName(msg));
    }
    if chars_have(cs.as_slice(), '/') || chars_have(cs.as_slice(), '\\') {
        let mut msg = String::from_str("name contains a path separator: ");
        msg.append(debug_quoted(name).as_str());
        return Err(MemoryStoreError::InvalidName(msg));
    }
    let dots = str_chars("..");
    if chars_contain(cs.as_slice(), dots.as_slice()) {
        let mut msg = String::from_str("name contains a parent reference: ");
        msg.append(debug_quoted(name).as_str());
        return Err(MemoryStoreError::InvalidName(msg));
    }
    if cs[0] == '\0' {
        return Err(MemoryStoreError::InvalidName(String::from_str("name starts with NUL")));
    }
    Ok(())
}

/// A name that passes validation is a single safe path segment: 1 to 64
/// characters, no `/`, no `\`, no `..`, no leading NUL.
pub proof fn law_valid_names_are_single_segments(name: Seq<char>)
    ensures
        spec_name_error(name) is None <==> {
            &&& name.len() > 0
            &&& name.len() <= MAX_NAME_LEN
            &&& !has_char(name, '/')
            &&& !has_char(name, '\\')
            &&& !contains_seq(name, ".."@)
            &&& name[0] != '\0'
        },
{
}

// ------------------------------------------------------------------ store

/// A memory store: bounded bytes saved, loaded and deleted by name.
pub trait MemoryStore: Send + Sync {
    /// The bytes saved under `name`, `None` when there are none; an
    /// invalid name is refused.
    fn load(&self, name: &str) -> (r: Result<Option<Vec<u8>>, MemoryStoreError>)
        ensures
            spec_name_error(name@) is Some ==> result_view(r) == Err::<Option<Vec<u8>>, _>(
                MemoryStoreErrorView::InvalidName(spec_name_error(name@)->0),
            ),
    ;

    /// Saves `bytes` under `name`, replacing what was there; an invalid
    /// name or a payload over the cap is refused.
    fn save(&mut self, name: &str, bytes: &[u8]) -> (r: Result<(), MemoryStoreError>)
        ensures
            spec_name_error(name@) is Some ==> result_view(r) == Err::<(), _>(
                MemoryStoreErrorView::InvalidName(spec_name_error(name@)->0),
            ),
            spec_name_error(name@) is None && bytes@.len() > MAX_PAYLOAD_BYTES ==> result_view(r)
                == Err::<(), _>(MemoryStoreErrorView::TooLarge { size: bytes@.len() as usize, cap: MAX_PAYLOAD_BYTES }),
    ;

    /// Removes `name`; whether anything was removed. An invalid name is
    /// refused.
    fn delete(&mut self, name: &str) -> (r: Result<bool, MemoryStoreError>)
        ensures
            spec_name_error(name@) is Some ==> result_view(r) == Err::<bool, _>(
                MemoryStoreErrorView::InvalidName(spec_name_error(name@)->0),
            ),
    ;
}

/// The checks every store makes before saving: the name is valid and the
/// payload is within the cap.
pub open spec fn spec_check_save(name: Seq<char>, size: nat) -> Result<(), MemoryStoreErrorView> {
    match spec_name_error(name) {
        Some(msg) => Err(MemoryStoreErrorView::InvalidName(msg)),
        None => if size > MAX_PAYLOAD_BYTES {
            Err(MemoryStoreErrorView::TooLarge { size: size as usize, cap: MAX_PAYLOAD_BYTES })
        } else {
            Ok(())
        },
    }
}

/// Checks a save before it is made: the name must be valid and the
/// payload at most `MAX_PAYLOAD_BYTES` long.
pub fn check_save(name: &str, bytes: &[u8]) -> (r: Result<(), MemoryStoreError>)
    ensures
        result_view(r) == spec_check_save(name@, bytes@.len()),
{
    validate_name(name)?;
    if bytes.len() > MAX_PAYLOAD_BYTES {
        return Err(MemoryStoreError::TooLarge { size: bytes.len(), cap: MAX_PAYLOAD_BYTES });
    }
    Ok(())
}

/// The saved entries with their names as character sequences.
pub open spec fn entries_view(s: Seq<(String, Vec<u8>)>) -> Seq<(Seq<char>, Seq<u8>)> {
    s.map_values(|p: (String, Vec<u8>)| (p.0@, p.1@))
}

/// Names are sorted strictly ascending.
pub open spec fn sorted_names(s: Seq<Seq<char>>) -> bool {
    forall|i: int, j: int| 0 <= i < j < s.len() ==> seq_lt(s[i], s[j])
}

/// A copy of a byte slice.
fn copy_bytes(b: &[u8]) -> (r: Vec<u8>)
    ensures
        r@ == b@,
{
    let mut r: Vec<u8> = Vec::new();
    let mut i: usize = 0;
    while i < b.len()
        invariant
            i <= b@.len(),
            r@ == b@.subrange(0, i as int),
        decreases b@.len() - i,
    {
        r.push(b[i]);
        i += 1;
    }
    r
}

/// The in-memory store: the saved bytes, by name.
pub struct InMemoryStore {
    entries: Vec<(String, Vec<u8>)>,
}

impl InMemoryStore {
    /// What the store holds: bytes by name.
    pub closed spec fn spec_contents(&self) -> Map<Seq<char>, Seq<u8>> {
        bindings_map(entries_view(self.entries@))
    }

    /// No name is held twice.
    pub closed spec fn wf(&self) -> bool {
        keys_unique(entries_view(self.entries@))
    }

    /// An empty store.
    pub fn new() -> (r: InMemoryStore)
        ensures
            r.wf(),
            r.spec_contents() == Map::<Seq<char>, Seq<u8>>::empty(),
    {
        let r = InMemoryStore { entries: Vec::new() };
        assert(r.spec_contents() =~= Map::<Seq<char>, Seq<u8>>::empty());
        r
    }

    /// The position of `name` among the entries.
    fn position(&self, name: &str) -> (r: Option<usize>)
        ensures
            match r {
                Some(i) => i < self.entries@.len() && entries_view(self.entries@)[i as int].0 == name@,
                None => !binds(entries_view(self.entries@), name@),
            },
    {
        let mut i: usize = 0;
        while i < self.entries.len()
            invariant
                i <= self.entries@.len(),
                forall|j: int| 0 <= j < i ==> entries_view(self.entries@)[j].0 != name@,
            decreases self.entries@.len() - i,
        {
            if str_eq(self.entries[i].0.as_str(), name) {
                return Some(i);
            }
            i += 1;
        }
        None
    }

    /// The names held, sorted ascending.
    pub fn names(&self) -> (r: Vec<String>)
        requires
            self.wf(),
        ensures
            sorted_names(strings_view(r@)),
            strings_view(r@).to_set() == self.spec_contents().dom(),
            r@.len() == self.spec_contents().dom().len(),
    {
        let ghost es = entries_view(self.entries@);
        let mut out: Vec<String> = Vec::new();
        let mut i: usize = 0;
        while i < self.entries.len()
            invariant
                es == entries_view(self.entries@),
                keys_unique(es),
                i <= es.len(),
                out@.len() == i,
                sorted_names(strings_view(out@)),
                forall|k: Seq<char>| #[trigger] strings_view(out@).contains(k) <==> exists|j: int|
                    0 <= j < i && #[trigger] es[j].0 == k,
            decreases es.len() - i,
        {
            let name = self.entries[i].0.as_str();
            let ghost ov = strings_view(out@);
            // the first position whose name sorts after `name`
            let mut pos: usize = 0;
            while pos < out.len() && !str_lt(name, out[pos].as_str())
                invariant
                    ov == strings_view(out@),
                    pos <= ov.len(),
                    forall|j: int| 0 <= j < pos ==> !seq_lt(name@, ov[j]),
                decreases ov.len() - pos,
            {
                pos += 1;
            }
            proof {
                assert forall|j: int| 0 <= j < ov.len() implies ov[j] != name@ by {
                    assert(ov.contains(ov[j]));
                    let w = choose|w: int| 0 <= w < i && es[w].0 == ov[j];
                    assert(es[i as int].0 == name@);
                }
                assert forall|j: int| 0 <= j < pos implies seq_lt(ov[j], name@) by {
                    lemma_seq_lt_total(ov[j], name@);
                }
                if pos < ov.len() {
                    assert(seq_lt(name@, ov[pos as int]));
                }
            }
            out.insert(pos, to_owned_string(name));
            proof {
                let nv = strings_view(out@);
                assert(nv =~= ov.insert(pos as int, name@));
                assert forall|a: int, b: int| 0 <= a < b < nv.len() implies seq_lt(nv[a], nv[b]) by {
                    if a < pos && b == pos {
                    } else if a < pos && b > pos {
                        assert(nv[b] == ov[b - 1]);
                        if pos < ov.len() {
                            lemma_seq_lt_transitive(ov[a], name@, ov[pos as int]);
                            if b - 1 > pos {
                                lemma_seq_lt_transitive(ov[a], ov[pos as int], ov[b - 1]);
                            }
                        }
                    } else if a == pos {
                        assert(nv[b] == ov[b - 1]);
                        if b - 1 > pos {
                            lemma_seq_lt_transitive(name@, ov[pos as int], ov[b - 1]);
                        }
                    } else if a > pos {
                        assert(nv[a] == ov[a - 1]);
                        assert(nv[b] == ov[b - 1]);
                    }
                }
                assert forall|k: Seq<char>| #[trigger] nv.contains(k) <==> exists|j: int|
                    0 <= j < i + 1 && #[trigger] es[j].0 == k by {
                    if nv.contains(k) {
                        let w = choose|w: int| 0 <= w < nv.len() && nv[w] == k;
                        if w == pos {
                            assert(es[i as int].0 == k);
                        } else {
                            let w2 = if w < pos { w } else { w - 1 };
                            assert(ov[w2] == k);
                            assert(ov.contains(k));
                            let j = choose|j: int| 0 <= j < i && #[trigger] es[j].0 == k;
                            assert(es[j].0 == k);
                        }
                    }
                    if exists|j: int| 0 <= j < i + 1 && #[trigger] es[j].0 == k {
                        let j = choose|j: int| 0 <= j < i + 1 && #[trigger] es[j].0 == k;
                        if j < i {
                            assert(es[j].0 == k);
                            assert(ov.contains(k));
                            let w = choose|w: int| 0 <= w < ov.len() && ov[w] == k;
                            if w < pos {
                                assert(nv[w] == k);
                            } else {
                                assert(nv[w + 1] == k);
                            }
                        } else {
                            assert(nv[pos as int] == k);
                        }
                    }
                }
            }
            i += 1;
        }
        proof {
            let ov = strings_view(out@);
            assert forall|k: Seq<char>| ov.to_set().contains(k) <==> self.spec_contents().dom().contains(k) by {
                if ov.contains(k) {
                    let j = choose|j: int| 0 <= j < es.len() && es[j].0 == k;
                    assert(binds(es, k));
                }
                if binds(es, k) {
                    let j = choose|j: int| 0 <= j < es.len() && es[j].0 == k;
                }
            }
            assert(ov.to_set() =~= self.spec_contents().dom());
            assert forall|a: int, b: int| 0 <= a < ov.len() && 0 <= b < ov.len() && a != b implies ov[a] != ov[b] by {
                if a < b {
                    lemma_seq_lt_irreflexive(ov[a]);
                } else {
                    lemma_seq_lt_irreflexive(ov[b]);
                }
            }
            ov.unique_seq_to_set();
        }
        out
    }
}

impl MemoryStore for InMemoryStore {
    fn load(&self, name: &str) -> (r: Result<Option<Vec<u8>>, MemoryStoreError>)
        ensures
            spec_name_error(name@) is None && self.wf() ==> match r {
                Ok(Some(b)) => self.spec_contents().dom().contains(name@) && b@ == self.spec_contents()[name@],
                Ok(None) => !self.spec_contents().dom().contains(name@),
                Err(_) => false,
            },
    {
        validate_name(name)?;
        match self.position(name) {
            Some(i) => {
                proof {
                    if self.wf() {
                        lemma_bindings_map_at(entries_view(self.entries@), i as int);
                    }
                }
                Ok(Some(copy_bytes(self.entries[i].1.as_slice())))
            },
            None => Ok(None),
        }
    }

    fn save(&mut self, name: &str, bytes: &[u8]) -> (r: Result<(), MemoryStoreError>)
        ensures
            old(self).wf() ==> final(self).wf(),
            r is Ok <==> spec_name_error(name@) is None && bytes@.len() <= MAX_PAYLOAD_BYTES,
            r is Ok && old(self).wf() ==> final(self).spec_contents() == old(self).spec_contents().insert(name@, bytes@),
            r is Err ==> final(self).spec_contents() == old(self).spec_contents(),
    {
        check_save(name, bytes)?;
        let ghost s0 = entries_view(self.entries@);
        let ghost w0 = self.wf();
        match self.position(name) {
            Some(i) => {
                proof {
                    if w0 {
                        lemma_bindings_map_remove(s0, i as int);
                    }
                }
                let _ = self.entries.remove(i);
                proof {
                    assert(entries_view(self.entries@) =~= s0.remove(i as int));
                    if w0 {
                        assert(!binds(s0.remove(i as int), name@)) by {
                            if binds(s0.remove(i as int), name@) {
                                let j = choose|j: int| 0 <= j < s0.remove(i as int).len() && s0.remove(i as int)[j].0 == name@;
                                let j2 = if j < i { j } else { j + 1 };
                                assert(s0.remove(i as int)[j] == s0[j2]);
                            }
                        }
                        lemma_bindings_map_push(s0.remove(i as int), name@, bytes@);
                    }
                }
                self.entries.push((to_owned_string(name), copy_bytes(bytes)));
                proof {
                    assert(entries_view(self.entries@) =~= s0.remove(i as int).push((name@, bytes@)));
                    assert(bindings_map(s0).remove(name@).insert(name@, bytes@) =~= bindings_map(s0).insert(name@, bytes@));
                }
            },
            None => {
                proof {
                    if w0 {
                        lemma_bindings_map_push(s0, name@, bytes@);
                    }
                }
                self.entries.push((to_owned_string(name), copy_bytes(bytes)));
                proof {
                    assert(entries_view(self.entries@) =~= s0.push((name@, bytes@)));
                }
            },
        }
        Ok(())
    }

    fn delete(&mut self, name: &str) -> (r: Result<bool, MemoryStoreError>)
        ensures
            old(self).wf() ==> final(self).wf(),
            r is Ok <==> spec_name_error(name@) is None,
            r is Ok && old(self).wf() ==> r->Ok_0 == old(self).spec_contents().dom().contains(name@)
                && final(self).spec_contents() == old(self).spec_contents().remove(name@),
            r is Err ==> final(self).spec_contents() == old(self).spec_contents(),
    {
        validate_name(name)?;
        let ghost s0 = entries_view(self.entries@);
        match self.position(name) {
            Some(i) => {
                proof {
                    if self.wf() {
                        lemma_bindings_map_remove(s0, i as int);
                        lemma_bindings_map_at(s0, i as int);
                    }
                }
                let _ = self.entries.remove(i);
                proof {
                    assert(entries_view(self.entries@) =~= s0.remove(i as int));
                }
                Ok(true)
            },
            None => {
                assert(bindings_map(s0).remove(name@) =~= bindings_map(s0));
                Ok(false)
            },
        }
    }
}

/// A load after a save of `bytes` under `name` gives `bytes`; a save
/// leaves every other name as it was; after a delete, a load gives
/// nothing and a second delete finds nothing.
pub proof fn law_load_after_save_and_delete(
    contents: Map<Seq<char>, Seq<u8>>,
    name: Seq<char>,
    bytes: Seq<u8>,
    other: Seq<char>,
)
    requires
        other != name,
    ensures
        contents.insert(name, bytes).dom().contains(name),
        contents.insert(name, bytes)[name] == bytes,
        contents.insert(name, bytes).dom().contains(other) == contents.dom().contains(other),
        contents.dom().contains(other) ==> contents.insert(name, bytes)[other] == contents[other],
        !contents.remove(name).dom().contains(name),
        contents.remove(name).remove(name) == contents.remove(name),
{
    assert(contents.remove(name).remove(name) =~= contents.remove(name));
}

impl Default for InMemoryStore {
    fn default() -> (r: InMemoryStore)
        ensures
            r.wf(),
            r.spec_contents() == Map::<Seq<char>, Seq<u8>>::empty(),
    {
        InMemoryStore::new()
    }
}

// --------------------------------------------------------------- envelope

/// The FNV-1a offset basis.
pub const FNV_OFFSET: u64 = 0xcbf29ce484222325;

/// The FNV-1a 64-bit prime.
pub const FNV_PRIME: u64 = 0x100000001b3;

/// The 64-bit FNV-1a hash of a byte sequence.
pub open spec fn spec_fnv1a_64(bytes: Seq<u8>) -> u64
    decreases bytes.len(),
{
    if bytes.len() == 0 {
        FNV_OFFSET
    } else {
        (spec_fnv1a_64(bytes.drop_last()) ^ (bytes.last() as u64)).wrapping_mul(FNV_PRIME)
    }
}

/// The 64-bit FNV-1a hash of `bytes` as 16 lowercase hex digits. Not a
/// cryptographic hash: it detects corruption, not tampering.
pub fn fnv1a_64_hex(bytes: &[u8]) -> (r: String)
    ensures
        r@ == spec_hex_digits(spec_fnv1a_64(bytes@) as nat, 16),
{
    let mut h: u64 = FNV_OFFSET;
    let mut i: usize = 0;
    while i < bytes.len()
        invariant
            i <= bytes@.len(),
            h == spec_fnv1a_64(bytes@.subrange(0, i as int)),
        decreases bytes@.len() - i,
    {
        proof {
            assert(bytes@.subrange(0, i + 1).drop_last() =~= bytes@.subrange(0, i as int));
        }
        h = (h ^ (bytes[i] as u64)).wrapping_mul(FNV_PRIME);
        i += 1;
    }
    proof {
        assert(bytes@.subrange(0, bytes@.len() as int) =~= bytes@);
    }
    let mut r = String::new();
    push_hex_digits(&mut r, h, 16);
    r
}

/// The envelope of persisted state: format version, save time, content
/// checksum and the data.
#[derive(Debug, Clone)]
pub struct Persisted<T> {
    /// The envelope version.
    pub version: u32,
    /// Milliseconds since the Unix epoch at the save.
    pub saved_at_ms: u64,
    /// The FNV-1a checksum of the data's encoding, in hex.
    pub content_checksum: String,
    /// The state.
    pub data: T,
}

/// The message of a refused envelope version.
pub open spec fn version_mismatch_message(version: u32) -> Seq<char> {
    "envelope version mismatch: got "@ + spec_decimal(version as nat) + ", expected 1"@
}

impl<T> Persisted<T> {
    /// Wraps `data` in the current envelope at `now_ms`; `encoded` is the
    /// data's canonical JSON encoding, whose FNV-1a hash becomes the
    /// content checksum.
    pub fn new_at(data: T, encoded: &[u8], now_ms: u64) -> (r: Persisted<T>)
        ensures
            r.version == ENVELOPE_VERSION,
            r.saved_at_ms == now_ms,
            r.content_checksum@ == spec_hex_digits(spec_fnv1a_64(encoded@) as nat, 16),
            r.data == data,
    {
        Persisted { version: ENVELOPE_VERSION, saved_at_ms: now_ms, content_checksum: fnv1a_64_hex(encoded), data }
    }

    /// Wraps `data` in the current envelope, stamped by the system clock.
    pub fn wrap(data: T, encoded: &[u8]) -> (r: Persisted<T>)
        ensures
            r.version == ENVELOPE_VERSION,
            r.content_checksum@ == spec_hex_digits(spec_fnv1a_64(encoded@) as nat, 16),
            r.data == data,
    {
        Persisted::new_at(data, encoded, unix_time_ms())
    }

    /// The data, when the envelope has the version this library writes;
    /// else `Corrupt`.
    pub fn validate(self) -> (r: Result<T, MemoryStoreError>)
        ensures
            self.version == ENVELOPE_VERSION ==> r == Ok::<T, MemoryStoreError>(self.data),
            self.version != ENVELOPE_VERSION ==> (r matches Err(e) && e@ == MemoryStoreErrorView::Corrupt(
                version_mismatch_message(self.version),
            )),
    {
        if self.version != ENVELOPE_VERSION {
            let mut msg = String::from_str("envelope version mismatch: got ");
            push_decimal(&mut msg, self.version as u64);
            msg.append(", expected 1");
            return Err(MemoryStoreError::Corrupt(msg));
        }
        Ok(self.data)
    }
}

} // verus!
