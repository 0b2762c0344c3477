//! A finite map keyed by strings, kept as a list of entries whose keys are
//! pairwise distinct.

use vstd::prelude::*;

verus! {

/// Sum of the values of a list of entries.
pub open spec fn entries_total(s: Seq<(Seq<char>, i64)>) -> int
    decreases s.len(),
{
    if s.len() == 0 {
        0
    } else {
        entries_total(s.drop_last()) + s.last().1
    }
}

pub open spec fn distinct_keys<V>(s: Seq<(String, V)>) -> bool {
    forall|i: int, j: int| 0 <= i < s.len() && 0 <= j < s.len() && i != j ==> s[i].0@ != s[j].0@
}

/// A map from strings to values. Its keys are compared by their characters.
#[derive(Debug)]
pub struct StrMap<V> {
    entries: Vec<(String, V)>,
}

impl<V> StrMap<V> {
    /// The entries, keys taken by their characters.
    pub closed spec fn entry_seq(self) -> Seq<(Seq<char>, V)> {
        self.entries@.map_values(|e: (String, V)| (e.0@, e.1))
    }

    pub closed spec fn key_at(self, i: int) -> Seq<char> {
        self.entries@[i].0@
    }

    pub closed spec fn has(self, k: Seq<char>) -> bool {
        exists|i: int| 0 <= i < self.entries@.len() && self.key_at(i) == k
    }

    pub closed spec fn pos(self, k: Seq<char>) -> int {
        choose|i: int| 0 <= i < self.entries@.len() && self.key_at(i) == k
    }

    /// `self` is `old` with `k` set to `v`, in place or appended.
    pub closed spec fn inserted_from(self, old: Self, k: Seq<char>, v: V) -> bool {
        if old.has(k) {
            self.entry_seq() == old.entry_seq().update(old.pos(k), (k, v))
        } else {
            self.entry_seq() == old.entry_seq().push((k, v))
        }
    }

    /// `self` is `old` with the entry of `k` (if any) taken out.
    pub closed spec fn removed_from(self, old: Self, k: Seq<char>) -> bool {
        if old.has(k) {
            self.entry_seq() == old.entry_seq().remove(old.pos(k))
        } else {
            self.entry_seq() == old.entry_seq()
        }
    }

    #[verifier::type_invariant]
    pub closed spec fn keys_distinct(self) -> bool {
        distinct_keys(self.entries@)
    }

    /// The position of `k`, when present.
    fn find(&self, k: &String) -> (r: Option<usize>)
        ensures
            match r {
                Some(i) => i < self.entries@.len() && self.key_at(i as int) == k@,
                None => !self.has(k@),
            },
    {
        let mut i: usize = 0;
        while i < self.entries.len()
            invariant
                i <= self.entries@.len(),
                forall|j: int| 0 <= j < i ==> self.key_at(j) != k@,
            decreases self.entries@.len() - i,
        {
            if self.entries[i].0 == *k {
                return Some(i);
            }
            i = i + 1;
        }
        None
    }

    proof fn lemma_pos(self, i: int)
        requires
            self.keys_distinct(),
            0 <= i < self.entries@.len(),
        ensures
            self.has(self.key_at(i)),
            self.pos(self.key_at(i)) == i,
    {
        let k = self.key_at(i);
        assert(self.has(k));
        let p = self.pos(k);
        assert(self.key_at(p) == k);
    }

    /// An empty map.
    pub fn new() -> (m: Self)
        ensures
            m@ == Map::<Seq<char>, V>::empty(),
    {
        let m = StrMap { entries: Vec::new() };
        assert(m@ =~= Map::<Seq<char>, V>::empty());
        m
    }

    /// Number of keys.
    pub fn len(&self) -> (n: usize)
        ensures
            n == self@.dom().len(),
    {
        proof {
            use_type_invariant(self);
            self.lemma_dom_len();
        }
        self.entries.len()
    }

    proof fn lemma_dom_len(self)
        requires
            self.keys_distinct(),
        ensures
            self@.dom().finite(),
            self@.dom().len() == self.entries@.len(),
    {
        let ks = self.entries@.map_values(|e: (String, V)| e.0@);
        assert forall|i: int, j: int| 0 <= i < ks.len() && 0 <= j < ks.len() && i != j implies ks[i]
            != ks[j] by {
            assert(ks[i] == self.key_at(i));
            assert(ks[j] == self.key_at(j));
        }
        assert(ks.no_duplicates());
        ks.unique_seq_to_set();
        assert forall|k: Seq<char>| self@.dom().contains(k) <==> ks.to_set().contains(k) by {
            if self@.dom().contains(k) {
                let p = self.pos(k);
                assert(ks[p] == k);
            }
            if ks.to_set().contains(k) {
                let p = choose|p: int| 0 <= p < ks.len() && ks[p] == k;
                assert(self.key_at(p) == k);
            }
        }
        assert(self@.dom() =~= ks.to_set());
    }

    /// Whether `k` is a key.
    pub fn contains_key(&self, k: &String) -> (b: bool)
        ensures
            b == self@.contains_key(k@),
    {
        self.find(k).is_some()
    }

    /// The value at `k`, when present.
    pub fn get(&self, k: &String) -> (r: Option<&V>)
        ensures
            match r {
                Some(v) => self@.contains_key(k@) && *v == self@[k@],
                None => !self@.contains_key(k@),
            },
    {
        match self.find(k) {
            Some(i) => {
                proof {
                    use_type_invariant(self);
                    self.lemma_pos(i as int);
                }
                Some(&self.entries[i].1)
            },
            None => None,
        }
    }

    /// Sets `k` to `v`, replacing any earlier value.
    pub fn insert(&mut self, k: String, v: V)
        ensures
            final(self)@ == old(self)@.insert(k@, v),
            final(self).inserted_from(*old(self), k@, v),
    {
        proof {
            use_type_invariant(&*self);
        }
        let ghost old_self = *self;
        assert(old_self.keys_distinct());
        match self.find(&k) {
            Some(i) => {
                let ghost kv = k@;
                let mut es: Vec<(String, V)> = Vec::new();
                std::mem::swap(&mut es, &mut self.entries);
                es.set(i, (k, v));
                proof {
                    assert forall|a: int, b: int|
                        0 <= a < es@.len() && 0 <= b < es@.len() && a != b implies es@[a].0@ != es@[b].0@ by {
                        assert(old_self.key_at(a) != old_self.key_at(b));
                    }
                }
                self.entries = es;
                proof {
                    self.lemma_pos(i as int);
                    assert forall|kk: Seq<char>| #[trigger] self@.contains_key(kk) <==> old_self@.insert(kv, v).contains_key(kk) by {
                        if self.has(kk) {
                            let p = self.pos(kk);
                            if p != i {
                                assert(old_self.key_at(p) == kk);
                            }
                        }
                        if old_self.has(kk) {
                            let p = old_self.pos(kk);
                            assert(self.key_at(p) == kk);
                        }
                        if kk == kv {
                            assert(self.key_at(i as int) == kk);
                        }
                    }
                    assert forall|kk: Seq<char>| #[trigger] self@.contains_key(kk) implies self@[kk] == old_self@.insert(kv, v)[kk] by {
                        let p = self.pos(kk);
                        self.lemma_pos(p);
                        if kk != kv {
                            old_self.lemma_pos(p);
                        }
                    }
                    assert(self@ =~= old_self@.insert(kv, v));
                    old_self.lemma_pos(i as int);
                    assert(self.entry_seq() =~= old_self.entry_seq().update(old_self.pos(kv), (kv, v)));
                }
            },
            None => {
                let ghost kv = k@;
                let mut es: Vec<(String, V)> = Vec::new();
                std::mem::swap(&mut es, &mut self.entries);
                es.push((k, v));
                proof {
                    let n = old_self.entries@.len() as int;
                    assert forall|a: int, b: int|
                        0 <= a < es@.len() && 0 <= b < es@.len() && a != b implies es@[a].0@ != es@[b].0@ by {
                        if a < n && b < n {
                            assert(old_self.key_at(a) != old_self.key_at(b));
                        } else if a == n {
                            assert(es@[b].0@ == old_self.key_at(b));
                        } else {
                            assert(es@[a].0@ == old_self.key_at(a));
                        }
                    }
                }
                self.entries = es;
                proof {
                    let n = old_self.entries@.len() as int;
                    assert forall|kk: Seq<char>| #[trigger] self@.contains_key(kk) <==> old_self@.insert(kv, v).contains_key(kk) by {
                        if self.has(kk) {
                            let p = self.pos(kk);
                            if p < n {
                                assert(old_self.key_at(p) == kk);
                            }
                        }
                        if old_self.has(kk) {
                            let p = old_self.pos(kk);
                            assert(self.key_at(p) == kk);
                        }
                        if kk == kv {
                            assert(self.key_at(n) == kk);
                        }
                    }
                    assert forall|kk: Seq<char>| #[trigger] self@.contains_key(kk) implies self@[kk] == old_self@.insert(kv, v)[kk] by {
                        let p = self.pos(kk);
                        self.lemma_pos(p);
                        if p < n {
                            old_self.lemma_pos(p);
                        }
                    }
                    assert(self@ =~= old_self@.insert(kv, v));
                    assert(self.entry_seq() =~= old_self.entry_seq().push((kv, v)));
                }
            },
        }
    }

    /// Removes `k` when present.
    pub fn remove(&mut self, k: &String)
        ensures
            final(self)@ == old(self)@.remove(k@),
            final(self).removed_from(*old(self), k@),
    {
        proof {
            use_type_invariant(&*self);
        }
        let ghost old_self = *self;
        assert(old_self.keys_distinct());
        match self.find(k) {
            Some(i) => {
                let mut es: Vec<(String, V)> = Vec::new();
                std::mem::swap(&mut es, &mut self.entries);
                es.remove(i);
                self.entries = es;
                proof {
                    let n = old_self.entries@.len() as int;
                    assert forall|a: int| 0 <= a < self.entries@.len() implies self.key_at(a) == old_self.key_at(if a < i { a } else { a + 1 }) by {}
                    assert forall|a: int, b: int|
                        0 <= a < self.entries@.len() && 0 <= b < self.entries@.len() && a != b implies self.key_at(a) != self.key_at(b) by {
                        let a2 = if a < i { a } else { a + 1 };
                        let b2 = if b < i { b } else { b + 1 };
                        assert(old_self.key_at(a2) != old_self.key_at(b2));
                    }
                    assert forall|kk: Seq<char>| #[trigger] self@.contains_key(kk) <==> old_self@.remove(k@).contains_key(kk) by {
                        if self.has(kk) {
                            let p = self.pos(kk);
                            let p2 = if p < i { p } else { p + 1 };
                            assert(old_self.key_at(p2) == kk);
                            assert(old_self.key_at(i as int) != kk);
                        }
                        if old_self.has(kk) && kk != k@ {
                            let p = old_self.pos(kk);
                            if p < i {
                                assert(self.key_at(p) == kk);
                            } else {
                                assert(p != i);
                                assert(self.key_at(p - 1) == kk);
                            }
                        }
                    }
                    assert forall|kk: Seq<char>| #[trigger] self@.contains_key(kk) implies self@[kk] == old_self@.remove(k@)[kk] by {
                        let p = self.pos(kk);
                        self.lemma_pos(p);
                        let p2 = if p < i { p } else { p + 1 };
                        old_self.lemma_pos(p2);
                    }
                    assert(self@ =~= old_self@.remove(k@));
                    old_self.lemma_pos(i as int);
                    assert(self.entry_seq() =~= old_self.entry_seq().remove(old_self.pos(k@)));
                }
            },
            None => {
                assert(self@ =~= old_self@.remove(k@));
            },
        }
    }
}

impl StrMap<i64> {
    /// Sum of all values.
    pub closed spec fn total(self) -> int {
        entries_total(self.entry_seq())
    }

    /// Maps with the same entries have the same total.
    pub proof fn lemma_total_same(self, other: Self)
        requires
            self.entry_seq() == other.entry_seq(),
        ensures
            self.total() == other.total(),
    {
    }

    pub proof fn lemma_total_after_insert(self, old: Self, k: Seq<char>, v: i64)
        requires
            self.inserted_from(old, k, v),
        ensures
            self.total() == old.total() - (if old@.contains_key(k) { old@[k] as int } else { 0 }) + v,
    {
        if old.has(k) {
            lemma_total_update(old.entry_seq(), old.pos(k), (k, v));
        } else {
            assert(old.entry_seq().push((k, v)).drop_last() =~= old.entry_seq());
        }
    }

    pub proof fn lemma_total_after_remove(self, old: Self, k: Seq<char>)
        requires
            self.removed_from(old, k),
        ensures
            self.total() == old.total() - (if old@.contains_key(k) { old@[k] as int } else { 0 }),
    {
        if old.has(k) {
            lemma_total_remove(old.entry_seq(), old.pos(k));
        }
    }

    /// With no negative values, every value is at most the total.
    pub proof fn lemma_value_le_total(self, k: Seq<char>)
        requires
            self.keys_distinct(),
            forall|kk: Seq<char>| #[trigger] self@.contains_key(kk) ==> self@[kk] >= 0,
        ensures
            self.total() >= 0,
            self@.contains_key(k) ==> self@[k] <= self.total(),
    {
        let es = self.entry_seq();
        assert forall|i: int| 0 <= i < es.len() implies es[i].1 >= 0 by {
            let kk = self.key_at(i);
            assert(self.has(kk));
            assert(self@.contains_key(kk));
            let p = self.pos(kk);
            assert(self.key_at(p) == kk);
            assert(self@[kk] == es[p].1);
            assert(es[i].1 >= 0) by {
                lemma_same_key_same_value_or_nonneg(self, i, p);
            }
        }
        lemma_total_nonneg(es);
        if self@.contains_key(k) {
            lemma_elem_le_total(es, self.pos(k));
        }
    }
}

proof fn lemma_same_key_same_value_or_nonneg(m: StrMap<i64>, i: int, p: int)
    requires
        0 <= i < m.entry_seq().len(),
        0 <= p < m.entry_seq().len(),
        m.key_at(i) == m.key_at(p),
        m.entry_seq()[p].1 >= 0,
        m.keys_distinct(),
    ensures
        m.entry_seq()[i].1 >= 0,
{
    if i != p {
        assert(m.key_at(i) != m.key_at(p));
    }
}

proof fn lemma_total_update(s: Seq<(Seq<char>, i64)>, i: int, x: (Seq<char>, i64))
    requires
        0 <= i < s.len(),
    ensures
        entries_total(s.update(i, x)) == entries_total(s) - s[i].1 + x.1,
    decreases s.len(),
{
    if i == s.len() - 1 {
        assert(s.update(i, x).drop_last() =~= s.drop_last());
    } else {
        lemma_total_update(s.drop_last(), i, x);
        assert(s.update(i, x).drop_last() =~= s.drop_last().update(i, x));
    }
}

proof fn lemma_total_remove(s: Seq<(Seq<char>, i64)>, i: int)
    requires
        0 <= i < s.len(),
    ensures
        entries_total(s.remove(i)) == entries_total(s) - s[i].1,
    decreases s.len(),
{
    if i == s.len() - 1 {
        assert(s.remove(i) =~= s.drop_last());
    } else {
        lemma_total_remove(s.drop_last(), i);
        assert(s.remove(i).drop_last() =~= s.drop_last().remove(i));
    }
}

proof fn lemma_total_nonneg(s: Seq<(Seq<char>, i64)>)
    requires
        forall|i: int| 0 <= i < s.len() ==> s[i].1 >= 0,
    ensures
        entries_total(s) >= 0,
    decreases s.len(),
{
    if s.len() > 0 {
        lemma_total_nonneg(s.drop_last());
    }
}

proof fn lemma_elem_le_total(s: Seq<(Seq<char>, i64)>, i: int)
    requires
        0 <= i < s.len(),
        forall|j: int| 0 <= j < s.len() ==> s[j].1 >= 0,
    ensures
        s[i].1 <= entries_total(s),
    decreases s.len(),
{
    if i < s.len() - 1 {
        lemma_elem_le_total(s.drop_last(), i);
    } else {
        lemma_total_nonneg(s.drop_last());
    }
}

impl<V> View for StrMap<V> {
    type V = Map<Seq<char>, V>;

    closed spec fn view(&self) -> Map<Seq<char>, V> {
        Map::new(|k: Seq<char>| self.has(k), |k: Seq<char>| self.entries@[self.pos(k)].1)
    }
}

} // verus!
