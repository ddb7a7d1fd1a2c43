//! A small verified string-keyed map with copyable values, viewed as a
//! `Map<Seq<char>, V>`. Entries are held in insertion order with unique
//! keys. This is the store behind the rate limiter's buckets and the
//! replay-protection nonce cache; it is owned by its component and handed
//! in at construction, so independent instances never share state.

use vstd::prelude::*;

use crate::outside::str_eq;

verus! {

/// The map described by an entry list: later entries win (the well-formed
/// lists below never repeat a key).
pub open spec fn map_of<V>(entries: Seq<(String, V)>) -> Map<Seq<char>, V>
    decreases entries.len(),
{
    if entries.len() == 0 {
        Map::empty()
    } else {
        map_of(entries.drop_last()).insert(entries.last().0@, entries.last().1)
    }
}

/// A string-keyed map with copyable values.
pub struct StrMap<V> {
    pub entries: Vec<(String, V)>,
}

impl<V: Copy> StrMap<V> {
    /// Keys are unique.
    pub open spec fn wf(&self) -> bool {
        forall|i: int, j: int|
            0 <= i < j < self.entries@.len() ==> self.entries@[i].0@ != self.entries@[j].0@
    }

    /// The map this store holds.
    pub open spec fn view(&self) -> Map<Seq<char>, V> {
        map_of(self.entries@)
    }

    /// An empty store.
    pub fn new() -> (m: Self)
        ensures
            m.wf(),
            m@ == Map::<Seq<char>, V>::empty(),
            m.entries@.len() == 0,
    {
        StrMap { entries: Vec::new() }
    }

    /// How many keys the store holds.
    pub fn len(&self) -> (n: usize)
        requires
            self.wf(),
        ensures
            n == self.entries@.len(),
            n == self@.dom().len(),
            (n == 0) == (self@ == Map::<Seq<char>, V>::empty()),
    {
        proof {
            lemma_map_of_len(self.entries@);
            if self.entries@.len() == 0 {
                assert(self@ =~= Map::<Seq<char>, V>::empty());
            } else {
                assert(self@.dom().contains(self.entries@.last().0@));
            }
        }
        self.entries.len()
    }

    /// The index holding key `k`, if any.
    fn find(&self, k: &str) -> (r: Option<usize>)
        requires
            self.wf(),
        ensures
            match r {
                Some(i) => i < self.entries@.len() && self.entries@[i as int].0@ == k@,
                None => !self@.dom().contains(k@),
            },
    {
        let mut i: usize = 0;
        while i < self.entries.len()
            invariant
                i <= self.entries@.len(),
                forall|j: int| 0 <= j < i ==> self.entries@[j].0@ != k@,
            decreases self.entries@.len() - i,
        {
            if str_eq(self.entries[i].0.as_str(), k) {
                return Some(i);
            }
            i = i + 1;
        }
        proof {
            lemma_map_of_dom(self.entries@, k@);
        }
        None
    }

    /// Look the key up.
    pub fn get(&self, k: &str) -> (r: Option<V>)
        requires
            self.wf(),
        ensures
            match r {
                Some(v) => self@.dom().contains(k@) && self@[k@] == v,
                None => !self@.dom().contains(k@),
            },
    {
        match self.find(k) {
            Some(i) => {
                proof {
                    lemma_map_of_index(self.entries@, i as int);
                }
                Some(self.entries[i].1)
            },
            None => None,
        }
    }

    /// Insert or replace the key's value.
    pub fn insert(&mut self, k: String, v: V)
        requires
            old(self).wf(),
        ensures
            final(self).wf(),
            final(self)@ == old(self)@.insert(k@, v),
            final(self).entries@.len() <= old(self).entries@.len() + 1,
    {
        let found = self.find(k.as_str());
        match found {
            Some(i) => {
                let ghost pre = self.entries@;
                self.entries[i].1 = v;
                proof {
                    assert(self.entries@ =~= pre.update(i as int, (pre[i as int].0, v)));
                    lemma_map_of_update(pre, i as int, k@, v);
                    assert(final(self)@ =~= old(self)@.insert(k@, v));
                }
            },
            None => {
                let ghost pre = self.entries@;
                self.entries.push((k, v));
                proof {
                    assert(self.entries@.drop_last() =~= pre);
                    lemma_map_of_dom(pre, self.entries@.last().0@);
                }
            },
        }
    }

    /// Keep exactly the entries marked `true`; used by the periodic
    /// sweeps. The caller decides per entry through the marks vector,
    /// whose length must match.
    #[verifier::rlimit(50)]
    pub fn retain_marked(&mut self, marks: &Vec<bool>)
        requires
            old(self).wf(),
            marks@.len() == old(self).entries@.len(),
        ensures
            final(self).wf(),
            forall|k: Seq<char>|
                final(self)@.dom().contains(k) <==> exists|i: int|
                    0 <= i < old(self).entries@.len() && old(self).entries@[i].0@ == k
                        && marks@[i],
            forall|k: Seq<char>| #[trigger]
                final(self)@.dom().contains(k) ==> old(self)@.dom().contains(k)
                    && final(self)@[k] == old(self)@[k],
            final(self).entries@.len() <= old(self).entries@.len(),
    {
        let ghost pre = self.entries@;
        let mut kept: Vec<(String, V)> = Vec::new();
        proof {
            assert(pre.subrange(0, pre.len() as int) =~= pre);
        }
        while self.entries.len() > 0
            invariant
                marks@.len() == pre.len(),
                self.entries@.len() <= pre.len(),
                self.entries@ == pre.subrange(0, self.entries@.len() as int),
                kept@ == rev_marked(pre, marks@, self.entries@.len() as int),
            decreases self.entries@.len(),
        {
            let e = match self.entries.pop() {
                Some(e) => e,
                None => {
                    proof {
                        assert(false);
                    }
                    return ;
                },
            };
            let i = self.entries.len();
            proof {
                assert(pre.subrange(0, i + 1).drop_last() =~= pre.subrange(0, i as int));
                assert(pre.subrange(0, i + 1).last() == pre[i as int]);
            }
            if marks[i] {
                kept.push(e);
                proof {
                    assert(kept@ =~= rev_marked(pre, marks@, i as int));
                }
            } else {
                proof {
                    assert(kept@ =~= rev_marked(pre, marks@, i as int));
                }
            }
        }
        self.entries = kept;
        proof {
            lemma_rev_marked(pre, marks@, 0);
            let post = self.entries@;
            assert(post == rev_marked(pre, marks@, 0));
            lemma_map_of_entries(post);
            lemma_map_of_entries(pre);
            assert forall|k: Seq<char>| #[trigger] final(self)@.dom().contains(k) implies (
            old(self)@.dom().contains(k) && final(self)@[k] == old(self)@[k]) by {
                lemma_map_of_dom(post, k);
                let a = choose|a: int| 0 <= a < post.len() && post[a].0@ == k;
                lemma_map_of_index(post, a);
                assert(rm_elem_from(pre, marks@, 0, a));
                let j = rm_from_witness(pre, marks@, 0, a);
                lemma_map_of_index(pre, j);
            }
            assert forall|k: Seq<char>|
                final(self)@.dom().contains(k) <==> exists|i: int|
                    0 <= i < pre.len() && pre[i].0@ == k && marks@[i] by {
                lemma_map_of_dom(post, k);
                if exists|i: int| 0 <= i < pre.len() && pre[i].0@ == k && marks@[i] {
                    let j = choose|j: int| 0 <= j < pre.len() && pre[j].0@ == k && marks@[j];
                    assert(rm_elem_kept(pre, marks@, 0, j));
                    let a = rm_kept_witness(pre, marks@, 0, j);
                    assert(post[a].0@ == k);
                }
                if final(self)@.dom().contains(k) {
                    let a = choose|a: int| 0 <= a < post.len() && post[a].0@ == k;
                    assert(rm_elem_from(pre, marks@, 0, a));
                    let j = rm_from_witness(pre, marks@, 0, a);
                    assert(pre[j].0@ == k && marks@[j]);
                }
            }
        }
    }
}

/// The marked entries of `pre` from index `c` on, latest first: the order
/// a pop-driven sweep produces them in.
pub open spec fn rev_marked<V>(pre: Seq<(String, V)>, marks: Seq<bool>, c: int) -> Seq<
    (String, V),
>
    decreases pre.len() - c,
{
    if c < 0 || c >= pre.len() {
        Seq::empty()
    } else {
        rev_marked(pre, marks, c + 1) + if marks[c] {
            seq![pre[c]]
        } else {
            Seq::empty()
        }
    }
}

/// Element `a` of the sweep result comes from a marked entry at or after
/// `c`.
pub open spec fn rm_elem_from<V>(pre: Seq<(String, V)>, marks: Seq<bool>, c: int, a: int) -> bool {
    exists|j: int| c <= j < pre.len() && pre[j] == rev_marked(pre, marks, c)[a] && marks[j]
}

/// A marked entry at or after `c` appears in the sweep result.
pub open spec fn rm_elem_kept<V>(pre: Seq<(String, V)>, marks: Seq<bool>, c: int, j: int) -> bool {
    exists|a: int|
        0 <= a < rev_marked(pre, marks, c).len() && rev_marked(pre, marks, c)[a] == pre[j]
}

/// The witness behind `rm_elem_from`.
proof fn rm_from_witness<V>(pre: Seq<(String, V)>, marks: Seq<bool>, c: int, a: int) -> (j: int)
    requires
        rm_elem_from(pre, marks, c, a),
    ensures
        c <= j < pre.len() && pre[j] == rev_marked(pre, marks, c)[a] && marks[j],
{
    choose|j: int| c <= j < pre.len() && pre[j] == rev_marked(pre, marks, c)[a] && marks[j]
}

/// The witness behind `rm_elem_kept`.
proof fn rm_kept_witness<V>(pre: Seq<(String, V)>, marks: Seq<bool>, c: int, j: int) -> (a: int)
    requires
        rm_elem_kept(pre, marks, c, j),
    ensures
        0 <= a < rev_marked(pre, marks, c).len() && rev_marked(pre, marks, c)[a] == pre[j],
{
    choose|a: int|
        0 <= a < rev_marked(pre, marks, c).len() && rev_marked(pre, marks, c)[a] == pre[j]
}

/// What a sweep keeps: exactly the marked entries, each once, keys still
/// unique.
proof fn lemma_rev_marked<V>(pre: Seq<(String, V)>, marks: Seq<bool>, c: int)
    requires
        forall|a: int, b: int| 0 <= a < b < pre.len() ==> pre[a].0@ != pre[b].0@,
        marks.len() == pre.len(),
        0 <= c,
    ensures
        forall|a: int|
            0 <= a < rev_marked(pre, marks, c).len() ==> #[trigger] rm_elem_from(
                pre,
                marks,
                c,
                a,
            ),
        forall|j: int|
            c <= j < pre.len() && marks[j] ==> #[trigger] rm_elem_kept(pre, marks, c, j),
        forall|a: int, b: int|
            0 <= a < b < rev_marked(pre, marks, c).len() ==> rev_marked(pre, marks, c)[a].0@
                != rev_marked(pre, marks, c)[b].0@,
        rev_marked(pre, marks, c).len() <= pre.len() - c || rev_marked(pre, marks, c).len()
            == 0,
    decreases pre.len() - c,
{
    if c < pre.len() {
        lemma_rev_marked(pre, marks, c + 1);
        let tail = rev_marked(pre, marks, c + 1);
        let whole = rev_marked(pre, marks, c);
        assert forall|a: int|
            0 <= a < rev_marked(pre, marks, c).len() implies #[trigger] rm_elem_from(
            pre,
            marks,
            c,
            a,
        ) by {
            if a < tail.len() {
                assert(whole[a] == tail[a]);
                assert(rm_elem_from(pre, marks, c + 1, a));
                let j = rm_from_witness(pre, marks, c + 1, a);
                assert(c <= j < pre.len() && pre[j] == rev_marked(pre, marks, c)[a]
                    && marks[j]);
            } else {
                assert(marks[c] && whole[a] == pre[c]);
                assert(c <= c < pre.len() && pre[c] == rev_marked(pre, marks, c)[a]
                    && marks[c]);
            }
        }
        assert forall|a: int, b: int|
            0 <= a < b < rev_marked(pre, marks, c).len() implies rev_marked(pre, marks, c)[a].0@
            != rev_marked(pre, marks, c)[b].0@ by {
            if b < tail.len() {
                assert(whole[a] == tail[a] && whole[b] == tail[b]);
            } else {
                assert(marks[c] && whole[b] == pre[c]);
                assert(whole[a] == tail[a]);
                assert(rm_elem_from(pre, marks, c + 1, a));
                let j = rm_from_witness(pre, marks, c + 1, a);
                assert(pre[c].0@ != pre[j].0@);
            }
        }
        assert forall|j: int|
            c <= j < pre.len() && marks[j] implies #[trigger] rm_elem_kept(pre, marks, c, j) by {
            if j == c {
                assert(whole[whole.len() - 1] == pre[c]);
            } else {
                assert(rm_elem_kept(pre, marks, c + 1, j));
                let a = rm_kept_witness(pre, marks, c + 1, j);
                assert(whole[a] == pre[j]);
                assert(0 <= a < rev_marked(pre, marks, c).len() && rev_marked(pre, marks, c)[a]
                    == pre[j]);
            }
        }
    }
}

/// With unique keys, the map's domain has exactly one element per entry.
proof fn lemma_map_of_len<V>(entries: Seq<(String, V)>)
    requires
        forall|i: int, j: int| 0 <= i < j < entries.len() ==> entries[i].0@ != entries[j].0@,
    ensures
        map_of(entries).dom().finite(),
        map_of(entries).dom().len() == entries.len(),
    decreases entries.len(),
{
    if entries.len() == 0 {
        assert(map_of(entries).dom() =~= Set::<Seq<char>>::empty());
    } else {
        let prefix = entries.drop_last();
        lemma_map_of_len(prefix);
        lemma_map_of_dom(prefix, entries.last().0@);
        assert(!map_of(prefix).dom().contains(entries.last().0@));
        assert(map_of(entries).dom() =~= map_of(prefix).dom().insert(entries.last().0@));
        vstd::set::axiom_set_insert_len(map_of(prefix).dom(), entries.last().0@);
    }
}

/// A key is in the map exactly when some entry holds it.
pub proof fn lemma_map_of_dom<V>(entries: Seq<(String, V)>, k: Seq<char>)
    ensures
        map_of(entries).dom().contains(k) <==> exists|i: int|
            0 <= i < entries.len() && entries[i].0@ == k,
    decreases entries.len(),
{
    if entries.len() > 0 {
        lemma_map_of_dom(entries.drop_last(), k);
        if entries.last().0@ == k {
            assert(entries[entries.len() - 1].0@ == k);
        } else if map_of(entries).dom().contains(k) {
            let i = choose|i: int| 0 <= i < entries.len() - 1 && entries.drop_last()[i].0@ == k;
            assert(entries[i].0@ == k);
        } else if exists|i: int| 0 <= i < entries.len() && entries[i].0@ == k {
            let i = choose|i: int| 0 <= i < entries.len() && entries[i].0@ == k;
            assert(entries.drop_last()[i].0@ == k);
        }
    }
}

/// With unique keys, each entry is what the map holds for its key.
pub proof fn lemma_map_of_index<V>(entries: Seq<(String, V)>, i: int)
    requires
        forall|a: int, b: int| 0 <= a < b < entries.len() ==> entries[a].0@ != entries[b].0@,
        0 <= i < entries.len(),
    ensures
        map_of(entries).dom().contains(entries[i].0@),
        map_of(entries)[entries[i].0@] == entries[i].1,
    decreases entries.len(),
{
    if i == entries.len() - 1 {
    } else {
        lemma_map_of_index(entries.drop_last(), i);
        assert(entries.drop_last()[i] == entries[i]);
        assert(entries[i].0@ != entries.last().0@);
    }
}

/// Every entry of a unique-keyed list is reflected in its map.
pub proof fn lemma_map_of_entries<V>(entries: Seq<(String, V)>)
    requires
        forall|a: int, b: int| 0 <= a < b < entries.len() ==> entries[a].0@ != entries[b].0@,
    ensures
        forall|i: int|
            0 <= i < entries.len() ==> map_of(entries).dom().contains(#[trigger] entries[i].0@)
                && map_of(entries)[entries[i].0@] == entries[i].1,
{
    assert forall|i: int| 0 <= i < entries.len() implies map_of(entries).dom().contains(
        #[trigger] entries[i].0@,
    ) && map_of(entries)[entries[i].0@] == entries[i].1 by {
        lemma_map_of_index(entries, i);
    }
}

/// Updating the value at index `i` (key unchanged) is a map insert.
proof fn lemma_map_of_update<V>(entries: Seq<(String, V)>, i: int, k: Seq<char>, v: V)
    requires
        forall|a: int, b: int| 0 <= a < b < entries.len() ==> entries[a].0@ != entries[b].0@,
        0 <= i < entries.len(),
        entries[i].0@ == k,
    ensures
        map_of(entries.update(i, (entries[i].0, v))) == map_of(entries).insert(k, v),
    decreases entries.len(),
{
    let updated = entries.update(i, (entries[i].0, v));
    if i == entries.len() - 1 {
        assert(updated.drop_last() =~= entries.drop_last());
        assert(map_of(updated) =~= map_of(entries).insert(k, v));
    } else {
        assert(updated.drop_last() =~= entries.drop_last().update(i, (entries[i].0, v)));
        assert(entries.drop_last()[i] == entries[i]);
        lemma_map_of_update(entries.drop_last(), i, k, v);
        assert(updated.last() == entries.last());
        assert(entries[i].0@ != entries.last().0@);
        assert(map_of(updated) =~= map_of(entries).insert(k, v));
    }
}

} // verus!
