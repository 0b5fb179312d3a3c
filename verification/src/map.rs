//! A map keyed by text, whose keys are kept distinct.
use vstd::prelude::*;
use crate::text::str_eq;

verus! {

/// The map that a sequence of entries stands for: later entries win.
pub open spec fn entries_map<V: DeepView>(es: Seq<(String, V)>) -> Map<Seq<char>, V::V>
    decreases es.len(),
{
    if es.len() == 0 {
        Map::empty()
    } else {
        entries_map(es.drop_last()).insert(es.last().0@, es.last().1.deep_view())
    }
}

/// No key occurs twice among `es`.
pub open spec fn distinct_keys<V>(es: Seq<(String, V)>) -> bool {
    forall|i: int, j: int| 0 <= i < j < es.len() ==> es[i].0@ != es[j].0@
}

/// With distinct keys, the map holds exactly the entries' keys, each with its
/// entry's value.
pub proof fn lemma_entries_map<V: DeepView>(es: Seq<(String, V)>)
    requires
        distinct_keys(es),
    ensures
        forall|i: int|
            0 <= i < es.len() ==> #[trigger] entries_map(es).contains_key(es[i].0@)
                && entries_map(es)[es[i].0@] == es[i].1.deep_view(),
        forall|k: Seq<char>|
            #[trigger] entries_map(es).contains_key(k) ==> exists|i: int|
                0 <= i < es.len() && es[i].0@ == k,
    decreases es.len(),
{
    if es.len() > 0 {
        let init = es.drop_last();
        assert(distinct_keys(init)) by {
            assert forall|i: int, j: int| 0 <= i < j < init.len() implies init[i].0@
                != init[j].0@ by {
                assert(init[i] == es[i] && init[j] == es[j]);
            }
        }
        lemma_entries_map(init);
        assert forall|i: int| 0 <= i < es.len() implies #[trigger] entries_map(
            es,
        ).contains_key(es[i].0@) && entries_map(es)[es[i].0@] == es[i].1.deep_view() by {
            if i < es.len() - 1 {
                assert(init[i] == es[i]);
                assert(es[i].0@ != es.last().0@);
                assert(entries_map(init).contains_key(init[i].0@));
            }
        }
        assert forall|k: Seq<char>| #[trigger] entries_map(es).contains_key(k) implies exists|
            i: int,
        | 0 <= i < es.len() && es[i].0@ == k by {
            if k != es.last().0@ {
                assert(entries_map(init).contains_key(k));
                let i = choose|i: int| 0 <= i < init.len() && init[i].0@ == k;
                assert(es[i] == init[i]);
            } else {
                assert(es[es.len() - 1].0@ == k);
            }
        }
    }
}

/// A map from text keys to values, holding each key once.
pub struct TextMap<V> {
    entries: Vec<(String, V)>,
}

impl<V> TextMap<V> {
    #[verifier::type_invariant]
    closed spec fn keys_are_distinct(self) -> bool {
        distinct_keys(self.entries@)
    }
}

impl<V: DeepView> View for TextMap<V> {
    type V = Map<Seq<char>, V::V>;

    closed spec fn view(&self) -> Map<Seq<char>, V::V> {
        entries_map(self.entries@)
    }
}

impl<V: DeepView> TextMap<V> {
    /// An empty map.
    pub fn new() -> (res: Self)
        ensures
            res@ == Map::<Seq<char>, V::V>::empty(),
    {
        TextMap { entries: Vec::new() }
    }

    /// Index of the entry with key `key`, if there is one.
    fn position(&self, key: &str) -> (res: Option<usize>)
        ensures
            match res {
                Some(i) => i < self.entries@.len() && self.entries@[i as int].0@ == key@,
                None => forall|i: int|
                    0 <= i < self.entries@.len() ==> self.entries@[i].0@ != key@,
            },
    {
        let n = self.entries.len();
        let mut i: usize = 0;
        while i < n
            invariant
                n == self.entries@.len(),
                i <= n,
                forall|k: int| 0 <= k < i ==> self.entries@[k].0@ != key@,
            decreases n - i,
        {
            if str_eq(self.entries[i].0.as_str(), key) {
                return Some(i);
            }
            i = i + 1;
        }
        None
    }

    /// The value stored under `key`, as `BTreeMap::get` gives it.
    pub fn get(&self, key: &str) -> (res: Option<&V>)
        ensures
            match res {
                Some(v) => self@.contains_key(key@) && v.deep_view() == self@[key@],
                None => !self@.contains_key(key@),
            },
    {
        proof {
            use_type_invariant(self);
            lemma_entries_map(self.entries@);
        }
        match self.position(key) {
            Some(i) => {
                assert(entries_map(self.entries@).contains_key(self.entries@[i as int].0@));
                Some(&self.entries[i].1)
            },
            None => None,
        }
    }

    /// Whether `key` is stored.
    pub fn contains_key(&self, key: &str) -> (res: bool)
        ensures
            res == self@.contains_key(key@),
    {
        proof {
            use_type_invariant(self);
            lemma_entries_map(self.entries@);
        }
        self.position(key).is_some()
    }

    /// Stores `value` under `key`, replacing what was stored there, as
    /// `BTreeMap::insert` does.
    pub fn insert(&mut self, key: String, value: V)
        ensures
            final(self)@ == old(self)@.insert(key@, value.deep_view()),
    {
        proof {
            use_type_invariant(&*self);
        }
        let ghost old_es = self.entries@;
        let found = self.position(key.as_str());
        let mut es: Vec<(String, V)> = Vec::new();
        std::mem::swap(&mut es, &mut self.entries);
        assert(es@ == old_es);
        let ghost kv = key@;
        let ghost vv = value.deep_view();
        match found {
            Some(i) => {
                es.set(i, (key, value));
                proof {
                    let new_es = es@;
                    assert(new_es == old_es.update(i as int, new_es[i as int]));
                    assert(distinct_keys(new_es)) by {
                        assert forall|a: int, b: int| 0 <= a < b < new_es.len() implies new_es[a].0@
                            != new_es[b].0@ by {
                            if a != i && b != i {
                                assert(new_es[a] == old_es[a] && new_es[b] == old_es[b]);
                            } else if a == i {
                                assert(new_es[b] == old_es[b]);
                            } else {
                                assert(new_es[a] == old_es[a]);
                            }
                        }
                    }
                    lemma_entries_map(old_es);
                    lemma_entries_map(new_es);
                    let m_old = entries_map(old_es).insert(kv, vv);
                    let m_new = entries_map(new_es);
                    assert forall|k: Seq<char>| m_new.contains_key(k) <==> m_old.contains_key(k) by {
                        if m_new.contains_key(k) {
                            let j = choose|j: int| 0 <= j < new_es.len() && new_es[j].0@ == k;
                            if j != i {
                                assert(new_es[j] == old_es[j]);
                                assert(entries_map(old_es).contains_key(old_es[j].0@));
                            }
                        }
                        if m_old.contains_key(k) && k != kv {
                            let j = choose|j: int| 0 <= j < old_es.len() && old_es[j].0@ == k;
                            assert(j != i);
                            assert(new_es[j] == old_es[j]);
                            assert(m_new.contains_key(new_es[j].0@));
                        }
                        if k == kv {
                            assert(new_es[i as int].0@ == kv);
                            assert(m_new.contains_key(new_es[i as int].0@));
                        }
                    }
                    assert forall|k: Seq<char>| m_new.contains_key(k) implies m_new[k] == m_old[k] by {
                        let j = choose|j: int| 0 <= j < new_es.len() && new_es[j].0@ == k;
                        if j != i {
                            assert(new_es[j] == old_es[j]);
                            assert(entries_map(old_es)[old_es[j].0@] == old_es[j].1.deep_view());
                        }
                    }
                    assert(m_new =~= m_old);
                }
            },
            None => {
                es.push((key, value));
                proof {
                    let new_es = es@;
                    assert(new_es.drop_last() =~= old_es);
                    assert(distinct_keys(new_es)) by {
                        assert forall|a: int, b: int| 0 <= a < b < new_es.len() implies new_es[a].0@
                            != new_es[b].0@ by {
                            assert(new_es[a] == old_es[a]);
                            if b < old_es.len() {
                                assert(new_es[b] == old_es[b]);
                            }
                        }
                    }
                }
            },
        }
        self.entries = es;
    }
}

/// After storing `value` under `key`, reading `key` gives `value`, and every
/// other key reads as before.
pub proof fn law_get_after_insert<V: DeepView>(
    before: TextMap<V>,
    after: TextMap<V>,
    key: Seq<char>,
    value: V,
)
    requires
        after@ == before@.insert(key, value.deep_view()),
    ensures
        after@.contains_key(key),
        after@[key] == value.deep_view(),
        forall|k: Seq<char>|
            k != key ==> (#[trigger] after@.contains_key(k) == before@.contains_key(k)) && (
            before@.contains_key(k) ==> after@[k] == before@[k]),
{
}

} // verus!
