//! Association lists keyed by strings: a sequence of `(key, value)`
//! pairs in which no key occurs twice, read as a map.
use vstd::prelude::*;

verus! {

/// No key is bound twice.
pub open spec fn keys_unique<V>(s: Seq<(Seq<char>, V)>) -> bool {
    forall|i: int, j: int| 0 <= i < j < s.len() ==> s[i].0 != s[j].0
}

/// `k` is bound in `s`.
pub open spec fn binds<V>(s: Seq<(Seq<char>, V)>, k: Seq<char>) -> bool {
    exists|i: int| 0 <= i < s.len() && s[i].0 == k
}

/// The map of the bindings of `s`.
pub open spec fn bindings_map<V>(s: Seq<(Seq<char>, V)>) -> Map<Seq<char>, V> {
    Map::new(
        |k: Seq<char>| binds(s, k),
        |k: Seq<char>| s[choose|i: int| 0 <= i < s.len() && s[i].0 == k].1,
    )
}

/// With unique keys, the map gives each key its own value.
pub proof fn lemma_bindings_map_at<V>(s: Seq<(Seq<char>, V)>, i: int)
    requires
        keys_unique(s),
        0 <= i < s.len(),
    ensures
        bindings_map(s).dom().contains(s[i].0),
        bindings_map(s)[s[i].0] == s[i].1,
{
    assert(binds(s, s[i].0));
    let j = choose|j: int| 0 <= j < s.len() && s[j].0 == s[i].0;
    if j < i {
    } else if i < j {
    }
}

/// Removing a binding removes its key from the map.
pub proof fn lemma_bindings_map_remove<V>(s: Seq<(Seq<char>, V)>, i: int)
    requires
        keys_unique(s),
        0 <= i < s.len(),
    ensures
        keys_unique(s.remove(i)),
        bindings_map(s.remove(i)) == bindings_map(s).remove(s[i].0),
{
    let t = s.remove(i);
    assert forall|a: int, b: int| 0 <= a < b < t.len() implies t[a].0 != t[b].0 by {
        let a2 = if a < i { a } else { a + 1 };
        let b2 = if b < i { b } else { b + 1 };
        assert(t[a] == s[a2]);
        assert(t[b] == s[b2]);
    }
    assert forall|k: Seq<char>| binds(t, k) <==> (binds(s, k) && k != s[i].0) by {
        if binds(t, k) {
            let a = choose|a: int| 0 <= a < t.len() && t[a].0 == k;
            let a2 = if a < i { a } else { a + 1 };
            assert(t[a] == s[a2]);
        }
        if binds(s, k) && k != s[i].0 {
            let a = choose|a: int| 0 <= a < s.len() && s[a].0 == k;
            let a2 = if a < i { a } else { a - 1 };
            assert(t[a2] == s[a]);
        }
    }
    assert forall|k: Seq<char>| #[trigger] bindings_map(t).dom().contains(k) implies bindings_map(t)[k]
        == bindings_map(s)[k] by {
        let a = choose|a: int| 0 <= a < t.len() && t[a].0 == k;
        let a2 = if a < i { a } else { a + 1 };
        assert(t[a] == s[a2]);
        lemma_bindings_map_at(t, a);
        lemma_bindings_map_at(s, a2);
    }
    assert(bindings_map(t) =~= bindings_map(s).remove(s[i].0));
}

/// Binding a new key inserts it into the map.
pub proof fn lemma_bindings_map_push<V>(s: Seq<(Seq<char>, V)>, k: Seq<char>, v: V)
    requires
        keys_unique(s),
        !binds(s, k),
    ensures
        keys_unique(s.push((k, v))),
        bindings_map(s.push((k, v))) == bindings_map(s).insert(k, v),
{
    let t = s.push((k, v));
    assert forall|a: int, b: int| 0 <= a < b < t.len() implies t[a].0 != t[b].0 by {
        if b == s.len() {
            assert(t[a] == s[a]);
        }
    }
    assert forall|x: Seq<char>| binds(t, x) <==> (binds(s, x) || x == k) by {
        if binds(t, x) {
            let a = choose|a: int| 0 <= a < t.len() && t[a].0 == x;
            if a < s.len() {
                assert(t[a] == s[a]);
            }
        }
        if binds(s, x) {
            let a = choose|a: int| 0 <= a < s.len() && s[a].0 == x;
            assert(t[a] == s[a]);
        }
        if x == k {
            assert(t[s.len() as int].0 == k);
        }
    }
    assert forall|x: Seq<char>| #[trigger] bindings_map(t).dom().contains(x) implies bindings_map(t)[x]
        == bindings_map(s).insert(k, v)[x] by {
        let a = choose|a: int| 0 <= a < t.len() && t[a].0 == x;
        lemma_bindings_map_at(t, a);
        if a < s.len() {
            assert(t[a] == s[a]);
            lemma_bindings_map_at(s, a);
        }
    }
    assert(bindings_map(t) =~= bindings_map(s).insert(k, v));
}

} // verus!
