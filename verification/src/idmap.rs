//! An identity-keyed mapping with insertion-order precedence.
//!
//! Every resource category (themes, placeholders, layouts) is filed under a
//! resource identity — its file name.  Loading inserts bundled entries
//! first and user entries after them, so a later insertion for the same
//! identity overrides an earlier one.  `spec_merge` is the mathematical
//! account of such a run of insertions, shared by the map below and by the
//! category loaders.

use vstd::prelude::*;

verus! {

broadcast use vstd::set::group_set_axioms, vstd::map::group_map_axioms;

/// A value that can be copied while provably keeping its mathematical value.
pub trait DeepClone: View + Sized {
    fn deep_clone(&self) -> (r: Self)
        ensures
            r@ == self@,
    ;
}

impl DeepClone for String {
    fn deep_clone(&self) -> (r: Self)
        ensures
            r@ == self@,
    {
        self.clone()
    }
}

/// Merging a run of (identity, parse result) entries into an identity-keyed
/// map, in order: a parsed entry is inserted under its identity, overriding
/// any earlier binding; an entry whose parse failed is skipped.
pub open spec fn spec_merge<VV>(
    m: Map<Seq<char>, VV>,
    es: Seq<(Seq<char>, Option<VV>)>,
) -> Map<Seq<char>, VV>
    decreases es.len(),
{
    if es.len() == 0 {
        m
    } else {
        let prev = spec_merge(m, es.drop_last());
        match es.last().1 {
            Some(v) => prev.insert(es.last().0, v),
            None => prev,
        }
    }
}

/// An identity never mentioned by the entries keeps its old binding.
pub proof fn lemma_merge_untouched<VV>(
    m: Map<Seq<char>, VV>,
    es: Seq<(Seq<char>, Option<VV>)>,
    k: Seq<char>,
)
    requires
        forall|j: int| 0 <= j < es.len() ==> es[j].0 != k,
    ensures
        spec_merge(m, es).contains_key(k) == m.contains_key(k),
        m.contains_key(k) ==> spec_merge(m, es)[k] == m[k],
    decreases es.len(),
{
    if es.len() > 0 {
        lemma_merge_untouched(m, es.drop_last(), k);
    }
}

/// The binding for an identity is the value of its last parsed entry: a
/// user entry inserted after a bundled entry of the same identity wins.
pub proof fn lemma_merge_last_wins<VV>(
    m: Map<Seq<char>, VV>,
    es: Seq<(Seq<char>, Option<VV>)>,
    j: int,
    k: Seq<char>,
)
    requires
        0 <= j < es.len(),
        es[j].0 == k,
        es[j].1 is Some,
        forall|l: int| j < l < es.len() ==> es[l].0 != k,
    ensures
        spec_merge(m, es).contains_key(k),
        spec_merge(m, es)[k] == es[j].1.unwrap(),
    decreases es.len(),
{
    if j == es.len() - 1 {
    } else {
        lemma_merge_last_wins(m, es.drop_last(), j, k);
    }
}

/// Any parsed entry leaves its identity present in the result.
pub proof fn lemma_merge_contains<VV>(
    m: Map<Seq<char>, VV>,
    es: Seq<(Seq<char>, Option<VV>)>,
    j: int,
)
    requires
        0 <= j < es.len(),
        es[j].1 is Some,
    ensures
        spec_merge(m, es).contains_key(es[j].0),
    decreases es.len(),
{
    if j < es.len() - 1 {
        lemma_merge_contains(m, es.drop_last(), j);
    }
}

/// The mathematical value of an entry list: every entry present, keyed by
/// identity.
pub open spec fn kv_view<V: View>(s: Seq<(String, V)>) -> Seq<(Seq<char>, Option<V::V>)> {
    s.map_values(|p: (String, V)| (p.0@, Some(p.1@)))
}

pub open spec fn alist_view<V: View>(s: Seq<(String, V)>) -> Map<Seq<char>, V::V> {
    spec_merge(Map::empty(), kv_view(s))
}

/// No two entries share an identity.
pub open spec fn alist_unique<V: View>(s: Seq<(String, V)>) -> bool {
    forall|i: int, j: int| 0 <= i < j < s.len() ==> s[i].0@ != s[j].0@
}

/// With unique identities the entry list and its map agree: the keys are
/// exactly the identities, each bound to its entry's value, and the map has
/// as many bindings as the list has entries.
pub proof fn lemma_alist_props<V: View>(s: Seq<(String, V)>)
    requires
        alist_unique(s),
    ensures
        forall|k: Seq<char>|
            #[trigger] alist_view(s).contains_key(k) <==> (exists|i: int|
                0 <= i < s.len() && s[i].0@ == k),
        forall|i: int|
            0 <= i < s.len() ==> alist_view(s).contains_key(#[trigger] s[i].0@) && alist_view(s)[
                s[i].0@
            ] == s[i].1@,
        alist_view(s).dom().finite(),
        alist_view(s).dom().len() == s.len(),
    decreases s.len(),
{
    if s.len() == 0 {
        assert(kv_view(s).len() == 0);
        assert(alist_view(s) == Map::<Seq<char>, V::V>::empty());
        assert(Map::<Seq<char>, V::V>::empty().dom() =~= Set::<Seq<char>>::empty());
    } else {
        let pre = s.drop_last();
        lemma_alist_props(pre);
        assert(kv_view(s).drop_last() =~= kv_view(pre));
        let lk = s.last().0@;
        let lv = s.last().1@;
        assert(alist_view(s) == alist_view(pre).insert(lk, lv));
        assert(forall|i: int| 0 <= i < pre.len() ==> pre[i] == s[i]);
        // the last identity is fresh, so the binding count grows by one
        assert(!alist_view(pre).contains_key(lk)) by {
            if alist_view(pre).contains_key(lk) {
                let i = choose|i: int| 0 <= i < pre.len() && pre[i].0@ == lk;
                assert(s[i].0@ == s[s.len() - 1].0@);
            }
        }
        assert(alist_view(s).dom() == alist_view(pre).dom().insert(lk));
        assert(forall|k: Seq<char>|
            #[trigger] alist_view(s).contains_key(k) <==> (exists|i: int|
                0 <= i < s.len() && s[i].0@ == k)) by {
            assert forall|k: Seq<char>| #[trigger] alist_view(s).contains_key(k) implies (
            exists|i: int| 0 <= i < s.len() && s[i].0@ == k) by {
                if k == lk {
                    assert(s[s.len() - 1].0@ == k);
                } else {
                    let i = choose|i: int| 0 <= i < pre.len() && pre[i].0@ == k;
                    assert(s[i].0@ == k);
                }
            }
            assert forall|k: Seq<char>| (exists|i: int|
                0 <= i < s.len() && s[i].0@ == k) implies #[trigger] alist_view(s).contains_key(
                k,
            ) by {
                let i = choose|i: int| 0 <= i < s.len() && s[i].0@ == k;
                if i < s.len() - 1 {
                    assert(pre[i].0@ == k);
                }
            }
        }
    }
}

/// Removing the entry that holds an identity removes exactly that identity
/// from the map.
pub proof fn lemma_alist_remove<V: View>(s: Seq<(String, V)>, i: int)
    requires
        alist_unique(s),
        0 <= i < s.len(),
    ensures
        alist_unique(s.remove(i)),
        alist_view(s.remove(i)) == alist_view(s).remove(s[i].0@),
    decreases s.len(),
{
    let k = s[i].0@;
    lemma_alist_props(s);
    assert(forall|a: int, b: int|
        0 <= a < b < s.remove(i).len() ==> s.remove(i)[a].0@ != s.remove(i)[b].0@) by {
        s.remove_ensures(i);
    }
    if i == s.len() - 1 {
        let pre = s.drop_last();
        lemma_alist_props(pre);
        assert(s.remove(i) =~= pre);
        assert(kv_view(s).drop_last() =~= kv_view(pre));
        assert(alist_view(s) == alist_view(pre).insert(k, s[i].1@));
        assert(!alist_view(pre).contains_key(k)) by {
            if alist_view(pre).contains_key(k) {
                let a = choose|a: int| 0 <= a < pre.len() && pre[a].0@ == k;
                assert(s[a].0@ == s[s.len() - 1].0@);
            }
        }
        assert(alist_view(pre) =~= alist_view(pre).insert(k, s[i].1@).remove(k));
    } else {
        let pre = s.drop_last();
        let lk = s.last().0@;
        let lv = s.last().1@;
        assert(forall|a: int, b: int| 0 <= a < b < pre.len() ==> pre[a].0@ != pre[b].0@);
        lemma_alist_remove(pre, i);
        assert(s.remove(i).drop_last() =~= pre.remove(i));
        assert(s.remove(i).last() == s.last()) by {
            s.remove_ensures(i);
        }
        assert(kv_view(s.remove(i)).drop_last() =~= kv_view(pre.remove(i)));
        assert(kv_view(s).drop_last() =~= kv_view(pre));
        assert(alist_view(s.remove(i)) == alist_view(pre.remove(i)).insert(lk, lv));
        assert(alist_view(s.remove(i)) == alist_view(pre).remove(k).insert(lk, lv));
        assert(alist_view(s) == alist_view(pre).insert(lk, lv));
        assert(k != lk);
        assert(alist_view(pre).remove(k).insert(lk, lv) =~= alist_view(pre).insert(
            lk,
            lv,
        ).remove(k));
    }
}

/// Entry lists equal value for value have the same map.
pub proof fn lemma_alist_congruent<V: View>(s1: Seq<(String, V)>, s2: Seq<(String, V)>)
    requires
        s1.len() == s2.len(),
        forall|i: int|
            0 <= i < s1.len() ==> (#[trigger] s1[i]).0@ == s2[i].0@ && s1[i].1@ == s2[i].1@,
    ensures
        alist_view(s1) == alist_view(s2),
    decreases s1.len(),
{
    if s1.len() > 0 {
        lemma_alist_congruent(s1.drop_last(), s2.drop_last());
        assert(kv_view(s1).drop_last() =~= kv_view(s1.drop_last()));
        assert(kv_view(s2).drop_last() =~= kv_view(s2.drop_last()));
        assert(s1[s1.len() - 1].0@ == s2[s2.len() - 1].0@);
        assert(s1[s1.len() - 1].1@ == s2[s2.len() - 1].1@);
    }
}

/// Identity-keyed mapping holding each resource under its identity, with
/// later insertions overriding earlier ones.
pub struct IdMap<V> {
    pub entries: Vec<(String, V)>,
}

impl<V: View> View for IdMap<V> {
    type V = Map<Seq<char>, V::V>;

    open spec fn view(&self) -> Map<Seq<char>, V::V> {
        alist_view(self.entries@)
    }
}

impl<V: View> IdMap<V> {
    /// Entries are filed under pairwise distinct identities.
    pub open spec fn wf(self) -> bool {
        alist_unique(self.entries@)
    }

    pub fn new() -> (r: Self)
        ensures
            r.wf(),
            r@ == Map::<Seq<char>, V::V>::empty(),
            r.entries@.len() == 0,
    {
        let r = IdMap { entries: Vec::new() };
        proof {
            assert(kv_view(r.entries@).len() == 0);
        }
        r
    }

    fn find(&self, key: &String) -> (r: Option<usize>)
        ensures
            match r {
                Some(i) => i < self.entries@.len() && self.entries@[i as int].0@ == key@,
                None => forall|i: int|
                    0 <= i < self.entries@.len() ==> (#[trigger] self.entries@[i]).0@ != key@,
            },
    {
        let mut i: usize = 0;
        while i < self.entries.len()
            invariant
                i <= self.entries@.len(),
                forall|k: int| 0 <= k < i ==> (#[trigger] self.entries@[k]).0@ != key@,
            decreases self.entries@.len() - i,
        {
            if self.entries[i].0 == *key {
                return Some(i);
            }
            i += 1;
        }
        None
    }

    /// Whether some resource is filed under this identity.
    pub fn contains_key(&self, key: &String) -> (r: bool)
        requires
            self.wf(),
        ensures
            r == self@.contains_key(key@),
    {
        proof {
            lemma_alist_props(self.entries@);
        }
        self.find(key).is_some()
    }

    /// The resource filed under this identity, if any.
    pub fn get(&self, key: &String) -> (r: Option<&V>)
        requires
            self.wf(),
        ensures
            match r {
                Some(v) => self@.contains_key(key@) && v@ == self@[key@],
                None => !self@.contains_key(key@),
            },
    {
        proof {
            lemma_alist_props(self.entries@);
        }
        match self.find(key) {
            Some(i) => Some(&self.entries[i].1),
            None => None,
        }
    }

    /// How many identities are filed.
    pub fn len(&self) -> (r: usize)
        requires
            self.wf(),
        ensures
            r == self@.dom().len(),
    {
        proof {
            lemma_alist_props(self.entries@);
        }
        self.entries.len()
    }

    /// Files a resource under an identity, overriding any earlier resource
    /// with the same identity.
    pub fn insert(&mut self, key: String, value: V)
        requires
            old(self).wf(),
        ensures
            final(self).wf(),
            final(self)@ == old(self)@.insert(key@, value@),
    {
        let ghost s0 = self.entries@;
        match self.find(&key) {
            Some(i) => {
                proof {
                    lemma_alist_remove(s0, i as int);
                }
                self.entries.remove(i);
                proof {
                    assert(alist_view(self.entries@) == alist_view(s0).remove(key@));
                }
            },
            None => {
                proof {
                    lemma_merge_untouched(
                        Map::<Seq<char>, V::V>::empty(),
                        kv_view(s0),
                        key@,
                    );
                    assert(forall|j: int|
                        0 <= j < kv_view(s0).len() ==> (#[trigger] kv_view(s0)[j]).0 != key@);
                    assert(alist_view(s0) =~= alist_view(s0).remove(key@));
                }
            },
        }
        let ghost s1 = self.entries@;
        self.entries.push((key, value));
        proof {
            assert(kv_view(self.entries@).drop_last() =~= kv_view(s1));
            assert(self.entries@.last() == (key, value));
            assert(alist_view(self.entries@) == alist_view(s1).insert(key@, value@));
            assert(alist_view(s1) == alist_view(s0).remove(key@));
            assert(alist_view(s0).remove(key@).insert(key@, value@) =~= alist_view(s0).insert(
                key@,
                value@,
            ));
            // uniqueness: no remaining entry carries the new identity
            assert forall|a: int, b: int|
                0 <= a < b < self.entries@.len() implies (#[trigger] self.entries@[a]).0@ != (
            #[trigger] self.entries@[b]).0@ by {
                if b == self.entries@.len() - 1 {
                    lemma_alist_props(s1);
                    assert(!alist_view(s1).contains_key(key@));
                    assert(self.entries@[a] == s1[a]);
                }
            }
        }
    }
}

impl<V: View + DeepClone> IdMap<V> {
    /// A copy of the whole mapping, entry for entry.
    pub fn duplicate(&self) -> (r: Self)
        ensures
            r@ == self@,
            r.entries@.len() == self.entries@.len(),
            self.wf() ==> r.wf(),
    {
        let mut entries: Vec<(String, V)> = Vec::new();
        let mut i: usize = 0;
        while i < self.entries.len()
            invariant
                i <= self.entries@.len(),
                entries@.len() == i,
                forall|k: int|
                    0 <= k < i ==> (#[trigger] entries@[k]).0@ == self.entries@[k].0@
                        && entries@[k].1@ == self.entries@[k].1@,
            decreases self.entries@.len() - i,
        {
            let pair = &self.entries[i];
            entries.push((pair.0.clone(), pair.1.deep_clone()));
            i += 1;
        }
        let r = IdMap { entries };
        proof {
            lemma_alist_congruent(r.entries@, self.entries@);
        }
        r
    }
}

} // verus!
