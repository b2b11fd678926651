//! Handlers registered by topic.
//!
//! A registry maps each topic to at most one handler. Registering a topic
//! again replaces its handler; removing a topic hands its handler back.

use vstd::prelude::*;
use crate::text::same_text;

verus! {

/// The value stored under `k` in `m`, if any.
pub open spec fn lookup<K, V>(m: Map<K, V>, k: K) -> Option<V> {
    if m.contains_key(k) {
        Some(m[k])
    } else {
        None
    }
}

/// What a registry gives back of what was written to it: the handler added
/// last under a topic is the one found and the one removed; adding under one
/// topic leaves every other topic as it was; after a removal nothing is
/// found under that topic.
pub proof fn lemma_registry_read_after_write<H>(
    m: Map<Seq<char>, H>,
    topic: Seq<char>,
    other: Seq<char>,
    handler: H,
    earlier: H,
)
    ensures
        lookup(m.insert(topic, handler), topic) == Some(handler),
        lookup(m.insert(topic, earlier).insert(topic, handler), topic) == Some(handler),
        other != topic ==> lookup(m.insert(topic, handler), other) == lookup(m, other),
        other != topic ==> lookup(m.remove(topic), other) == lookup(m, other),
        lookup(m.remove(topic), topic) is None,
        m.insert(topic, handler).remove(topic) == m.remove(topic),
{
    assert(m.insert(topic, handler).remove(topic) =~= m.remove(topic));
}

/// No topic occurs twice among the entries.
pub open spec fn keys_distinct<H>(s: Seq<(String, H)>) -> bool {
    forall|i: int, j: int|
        0 <= i < s.len() && 0 <= j < s.len() && i != j ==> #[trigger] s[i].0@ != #[trigger] s[j].0@
}

/// Some entry is stored under topic `k`.
pub open spec fn has_key<H>(s: Seq<(String, H)>, k: Seq<char>) -> bool {
    exists|i: int| 0 <= i < s.len() && #[trigger] s[i].0@ == k
}

/// The map from topic to handler that a list of entries stands for.
pub open spec fn entries_map<H>(s: Seq<(String, H)>) -> Map<Seq<char>, H> {
    Map::new(
        |k: Seq<char>| has_key(s, k),
        |k: Seq<char>| s[choose|i: int| 0 <= i < s.len() && #[trigger] s[i].0@ == k].1,
    )
}

proof fn lemma_entry_in_map<H>(s: Seq<(String, H)>, i: int)
    requires
        keys_distinct(s),
        0 <= i < s.len(),
    ensures
        entries_map(s).contains_key(s[i].0@),
        entries_map(s)[s[i].0@] == s[i].1,
{
    let k = s[i].0@;
    assert(has_key(s, k));
    let j: int = choose|j: int| 0 <= j < s.len() && #[trigger] s[j].0@ == k;
    assert(s[j].0@ == k);
    if j != i {
        assert(s[i].0@ != s[j].0@);
    }
}

proof fn lemma_map_push<H>(s: Seq<(String, H)>, k: String, h: H)
    requires
        keys_distinct(s),
        !has_key(s, k@),
    ensures
        keys_distinct(s.push((k, h))),
        entries_map(s.push((k, h))) =~= entries_map(s).insert(k@, h),
{
    let t = s.push((k, h));
    assert forall|i: int, j: int|
        0 <= i < t.len() && 0 <= j < t.len() && i != j implies #[trigger] t[i].0@ != #[trigger] t[j].0@ by {
        if i < s.len() && j < s.len() {
            assert(t[i] == s[i] && t[j] == s[j]);
        } else if i < s.len() {
            assert(t[i] == s[i]);
        } else {
            assert(t[j] == s[j]);
        }
    }
    assert forall|key: Seq<char>| #[trigger] has_key(t, key) <==> (has_key(s, key) || key == k@) by {
        if has_key(s, key) {
            let i: int = choose|i: int| 0 <= i < s.len() && #[trigger] s[i].0@ == key;
            assert(t[i] == s[i]);
        }
        if key == k@ {
            assert(t[s.len() as int].0@ == key);
        }
        if has_key(t, key) {
            let i: int = choose|i: int| 0 <= i < t.len() && #[trigger] t[i].0@ == key;
            if i < s.len() {
                assert(t[i] == s[i]);
            }
        }
    }
    assert forall|key: Seq<char>| #[trigger] entries_map(t).contains_key(key) implies entries_map(t)[key]
        == entries_map(s).insert(k@, h)[key] by {
        let i: int = choose|i: int| 0 <= i < t.len() && #[trigger] t[i].0@ == key;
        lemma_entry_in_map(t, i);
        if i < s.len() {
            assert(t[i] == s[i]);
            lemma_entry_in_map(s, i);
        }
    }
}

proof fn lemma_map_set<H>(s: Seq<(String, H)>, i: int, k: String, h: H)
    requires
        keys_distinct(s),
        0 <= i < s.len(),
        s[i].0@ == k@,
    ensures
        keys_distinct(s.update(i, (k, h))),
        entries_map(s.update(i, (k, h))) =~= entries_map(s).insert(k@, h),
{
    let t = s.update(i, (k, h));
    assert forall|a: int, b: int|
        0 <= a < t.len() && 0 <= b < t.len() && a != b implies #[trigger] t[a].0@ != #[trigger] t[b].0@ by {
        assert(t[a].0@ == s[a].0@);
        assert(t[b].0@ == s[b].0@);
    }
    assert forall|key: Seq<char>| #[trigger] has_key(t, key) <==> has_key(s, key) by {
        if has_key(s, key) {
            let j: int = choose|j: int| 0 <= j < s.len() && #[trigger] s[j].0@ == key;
            assert(t[j].0@ == s[j].0@);
        }
        if has_key(t, key) {
            let j: int = choose|j: int| 0 <= j < t.len() && #[trigger] t[j].0@ == key;
            assert(t[j].0@ == s[j].0@);
        }
    }
    lemma_entry_in_map(s, i);
    assert forall|key: Seq<char>| #[trigger] entries_map(t).contains_key(key) implies entries_map(t)[key]
        == entries_map(s).insert(k@, h)[key] by {
        let j: int = choose|j: int| 0 <= j < t.len() && #[trigger] t[j].0@ == key;
        lemma_entry_in_map(t, j);
        if j != i {
            assert(t[j] == s[j]);
            lemma_entry_in_map(s, j);
        }
    }
}

proof fn lemma_map_remove<H>(s: Seq<(String, H)>, i: int)
    requires
        keys_distinct(s),
        0 <= i < s.len(),
    ensures
        keys_distinct(s.remove(i)),
        entries_map(s.remove(i)) =~= entries_map(s).remove(s[i].0@),
{
    let t = s.remove(i);
    let k = s[i].0@;
    assert forall|a: int| 0 <= a < t.len() implies #[trigger] t[a] == s[if a < i { a } else { a + 1 }] by {}
    assert forall|a: int, b: int|
        0 <= a < t.len() && 0 <= b < t.len() && a != b implies #[trigger] t[a].0@ != #[trigger] t[b].0@ by {
        let a1: int = if a < i { a } else { a + 1 };
        let b1: int = if b < i { b } else { b + 1 };
        assert(t[a] == s[a1]);
        assert(t[b] == s[b1]);
    }
    assert forall|key: Seq<char>| #[trigger] has_key(t, key) <==> (has_key(s, key) && key != k) by {
        if has_key(s, key) && key != k {
            let j: int = choose|j: int| 0 <= j < s.len() && #[trigger] s[j].0@ == key;
            let j1: int = if j < i { j } else { j - 1 };
            assert(j != i);
            assert(t[j1] == s[j]);
        }
        if has_key(t, key) {
            let j: int = choose|j: int| 0 <= j < t.len() && #[trigger] t[j].0@ == key;
            let j1: int = if j < i { j } else { j + 1 };
            assert(t[j] == s[j1]);
            assert(s[j1].0@ != s[i].0@);
        }
    }
    assert forall|key: Seq<char>| #[trigger] entries_map(t).contains_key(key) implies entries_map(t)[key]
        == entries_map(s).remove(k)[key] by {
        let j: int = choose|j: int| 0 <= j < t.len() && #[trigger] t[j].0@ == key;
        let j1: int = if j < i { j } else { j + 1 };
        assert(t[j] == s[j1]);
        lemma_entry_in_map(t, j);
        lemma_entry_in_map(s, j1);
    }
}

/// Handlers of type `H`, each registered under one topic.
pub struct TopicRegistry<H> {
    entries: Vec<(String, H)>,
}

impl<H> View for TopicRegistry<H> {
    type V = Map<Seq<char>, H>;

    closed spec fn view(&self) -> Map<Seq<char>, H> {
        entries_map(self.entries@)
    }
}

impl<H> TopicRegistry<H> {
    #[verifier::type_invariant]
    spec fn inv(self) -> bool {
        keys_distinct(self.entries@)
    }

    /// An empty registry.
    pub fn new() -> (res: Self)
        ensures
            res@ == Map::<Seq<char>, H>::empty(),
    {
        let res = TopicRegistry { entries: Vec::new() };
        assert(res@ =~= Map::<Seq<char>, H>::empty());
        res
    }

    fn position(&self, topic: &str) -> (res: Option<usize>)
        ensures
            res matches Some(i) ==> i < self.entries@.len() && self.entries@[i as int].0@ == topic@,
            res is None ==> !has_key(self.entries@, topic@),
    {
        let mut i: usize = 0;
        while i < self.entries.len()
            invariant
                i <= self.entries@.len(),
                forall|j: int| 0 <= j < i ==> #[trigger] self.entries@[j].0@ != topic@,
            decreases self.entries@.len() - i,
        {
            if same_text(self.entries[i].0.as_str(), topic) {
                return Some(i);
            }
            i = i + 1;
        }
        None
    }

    /// Registers `handler` under `topic`, replacing the handler that was
    /// registered there before.
    pub fn add(&mut self, topic: String, handler: H)
        ensures
            final(self)@ == old(self)@.insert(topic@, handler),
    {
        proof {
            use_type_invariant(&*self);
        }
        match self.position(topic.as_str()) {
            Some(i) => {
                proof {
                    lemma_map_set(self.entries@, i as int, topic, handler);
                }
                let mut entries = Vec::new();
                std::mem::swap(&mut entries, &mut self.entries);
                entries.set(i, (topic, handler));
                self.entries = entries;
            },
            None => {
                proof {
                    lemma_map_push(self.entries@, topic, handler);
                }
                let mut entries = Vec::new();
                std::mem::swap(&mut entries, &mut self.entries);
                entries.push((topic, handler));
                self.entries = entries;
            },
        }
    }

    /// Removes the handler registered under `topic` and hands it back.
    pub fn remove(&mut self, topic: &str) -> (res: Option<H>)
        ensures
            res == lookup(old(self)@, topic@),
            final(self)@ == old(self)@.remove(topic@),
    {
        proof {
            use_type_invariant(&*self);
        }
        match self.position(topic) {
            Some(i) => {
                proof {
                    lemma_entry_in_map(self.entries@, i as int);
                    lemma_map_remove(self.entries@, i as int);
                }
                let mut entries = Vec::new();
                std::mem::swap(&mut entries, &mut self.entries);
                let (_, handler) = entries.remove(i);
                self.entries = entries;
                Some(handler)
            },
            None => {
                proof {
                    assert(self@.remove(topic@) =~= self@);
                }
                None
            },
        }
    }

    /// The handler registered under `topic`, if any.
    pub fn get(&self, topic: &str) -> (res: Option<&H>)
        ensures
            res is Some <==> self@.contains_key(topic@),
            res matches Some(h) ==> *h == self@[topic@],
    {
        proof {
            use_type_invariant(self);
        }
        match self.position(topic) {
            Some(i) => {
                proof {
                    lemma_entry_in_map(self.entries@, i as int);
                }
                Some(&self.entries[i].1)
            },
            None => None,
        }
    }
}

} // verus!
