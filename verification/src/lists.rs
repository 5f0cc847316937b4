//! Lists and keyed tables: the model that the contracts speak of, and the
//! executable operations on it.
use vstd::prelude::*;

use crate::text::same;

verus! {

/// The views of the elements of a list.
pub open spec fn views<T: View>(v: Seq<T>) -> Seq<T::V> {
    v.map_values(|t: T| t@)
}

/// The view of an optional value.
pub open spec fn opt_view<T: View>(v: Option<T>) -> Option<T::V> {
    match v {
        Some(t) => Some(t@),
        None => None,
    }
}

/// The place of the first element of `s` that satisfies `p`.
pub open spec fn first_index<A>(s: Seq<A>, p: spec_fn(A) -> bool) -> Option<int>
    decreases s.len(),
{
    if s.len() == 0 {
        None
    } else {
        match first_index(s.drop_last(), p) {
            Some(i) => Some(i),
            None => if p(s.last()) {
                Some(s.len() - 1)
            } else {
                None
            },
        }
    }
}

/// `first_index` finds the least place at which `p` holds, and nothing only
/// where `p` holds nowhere.
pub proof fn first_index_is_least<A>(s: Seq<A>, p: spec_fn(A) -> bool)
    ensures
        match first_index(s, p) {
            Some(i) => 0 <= i < s.len() && p(s[i]) && forall|j: int| 0 <= j < i ==> !p(s[j]),
            None => forall|j: int| 0 <= j < s.len() ==> !p(s[j]),
        },
    decreases s.len(),
{
    if s.len() > 0 {
        first_index_is_least(s.drop_last(), p);
        assert(forall|j: int| 0 <= j < s.len() - 1 ==> s.drop_last()[j] == s[j]);
    }
}

/// A place where `p` holds, with none before it, is what `first_index` gives.
pub proof fn first_index_at<A>(s: Seq<A>, p: spec_fn(A) -> bool, i: int)
    requires
        0 <= i < s.len(),
        p(s[i]),
        forall|j: int| 0 <= j < i ==> !p(s[j]),
    ensures
        first_index(s, p) == Some(i),
{
    first_index_is_least(s, p);
}

/// Where `p` holds nowhere there is no first place.
pub proof fn first_index_none<A>(s: Seq<A>, p: spec_fn(A) -> bool)
    requires
        forall|j: int| 0 <= j < s.len() ==> !p(s[j]),
    ensures
        first_index(s, p) is None,
{
    first_index_is_least(s, p);
}

/// How many elements of `s` satisfy `p`.
pub open spec fn count<A>(s: Seq<A>, p: spec_fn(A) -> bool) -> nat
    decreases s.len(),
{
    if s.len() == 0 {
        0
    } else {
        count(s.drop_last(), p) + if p(s.last()) {
            1nat
        } else {
            0nat
        }
    }
}

/// A count is at most the length, and reaches it or 0 only where all or none
/// of the elements satisfy `p`.
pub proof fn count_bounds<A>(s: Seq<A>, p: spec_fn(A) -> bool)
    ensures
        count(s, p) <= s.len(),
        count(s, p) == s.len() <==> forall|i: int| 0 <= i < s.len() ==> p(s[i]),
        count(s, p) == 0 <==> forall|i: int| 0 <= i < s.len() ==> !p(s[i]),
    decreases s.len(),
{
    if s.len() > 0 {
        let t = s.drop_last();
        count_bounds(t, p);
        assert(forall|i: int| 0 <= i < t.len() ==> t[i] == s[i]);
        if forall|i: int| 0 <= i < s.len() ==> p(s[i]) {
            assert forall|i: int| 0 <= i < t.len() implies p(t[i]) by {
                assert(t[i] == s[i]);
            }
        }
        if forall|i: int| 0 <= i < t.len() ==> p(t[i]) {
            if p(s.last()) {
                assert forall|i: int| 0 <= i < s.len() implies p(s[i]) by {
                    if i < t.len() {
                        assert(t[i] == s[i]);
                    }
                }
            }
        }
        if forall|i: int| 0 <= i < s.len() ==> !p(s[i]) {
            assert forall|i: int| 0 <= i < t.len() implies !p(t[i]) by {
                assert(t[i] == s[i]);
            }
        }
        if forall|i: int| 0 <= i < t.len() ==> !p(t[i]) {
            if !p(s.last()) {
                assert forall|i: int| 0 <= i < s.len() implies !p(s[i]) by {
                    if i < t.len() {
                        assert(t[i] == s[i]);
                    }
                }
            }
        }
    }
}

/// The map that a list of key-value pairs stands for: a later pair overrides
/// an earlier one with the same key.
pub open spec fn pairs_map<V>(s: Seq<(Seq<char>, V)>) -> Map<Seq<char>, V>
    decreases s.len(),
{
    if s.len() == 0 {
        Map::empty()
    } else {
        pairs_map(s.drop_last()).insert(s.last().0, s.last().1)
    }
}

/// Taking out a pair changes the map at no key but that of the pair.
proof fn pairs_map_remove<V>(s: Seq<(Seq<char>, V)>, i: int)
    requires
        0 <= i < s.len(),
    ensures
        pairs_map(s.remove(i)).remove(s[i].0) == pairs_map(s).remove(s[i].0),
    decreases s.len(),
{
    let k = s[i].0;
    if i == s.len() - 1 {
        assert(s.remove(i) =~= s.drop_last());
        assert(pairs_map(s).remove(k) =~= pairs_map(s.drop_last()).remove(k));
    } else {
        let t = s.drop_last();
        pairs_map_remove(t, i);
        assert(s.remove(i).drop_last() =~= t.remove(i));
        assert(s.remove(i).last() == s.last());
        assert(t[i] == s[i]);
        assert(pairs_map(s.remove(i)) == pairs_map(t.remove(i)).insert(s.last().0, s.last().1));
        let a = pairs_map(t.remove(i)).remove(k);
        let b = pairs_map(t).remove(k);
        assert(a == b);
        assert(pairs_map(s.remove(i)).remove(k) =~= pairs_map(s).remove(k)) by {
            assert forall|x: Seq<char>|
                pairs_map(s.remove(i)).remove(k).dom().contains(x) <==> pairs_map(s).remove(
                    k,
                ).dom().contains(x) by {
                assert(a.dom().contains(x) == b.dom().contains(x));
            }
            assert forall|x: Seq<char>|
                pairs_map(s).remove(k).dom().contains(x) implies pairs_map(s.remove(i)).remove(k)[x]
                == pairs_map(s).remove(k)[x] by {
                if x != s.last().0 {
                    assert(a.dom().contains(x) == b.dom().contains(x));
                    assert(a[x] == b[x]);
                }
            }
        }
    }
}

/// A key is in the map where one of the pairs has it; its value is that of the
/// last such pair.
proof fn pairs_map_at<V>(s: Seq<(Seq<char>, V)>, k: Seq<char>)
    ensures
        pairs_map(s).dom().contains(k) <==> exists|i: int| 0 <= i < s.len() && (#[trigger] s[i]).0 == k,
        forall|i: int|
            0 <= i < s.len() && (#[trigger] s[i]).0 == k && (forall|j: int|
                i < j < s.len() ==> (#[trigger] s[j]).0 != k) ==> pairs_map(s)[k] == s[i].1,
    decreases s.len(),
{
    if s.len() > 0 {
        let t = s.drop_last();
        pairs_map_at(t, k);
        assert(s[s.len() - 1] == s.last());
        assert(forall|i: int| 0 <= i < t.len() ==> t[i] == s[i]);
        assert forall|i: int|
            0 <= i < s.len() && (#[trigger] s[i]).0 == k && (forall|j: int|
                i < j < s.len() ==> (#[trigger] s[j]).0 != k) implies pairs_map(s)[k] == s[i].1 by {
            if i < t.len() {
                assert(t[i] == s[i]);
                assert(s[s.len() - 1].0 != k);
                assert forall|j: int| i < j < t.len() implies (#[trigger] t[j]).0 != k by {
                    assert(s[j].0 != k);
                }
            }
        }
        if exists|i: int| 0 <= i < s.len() && (#[trigger] s[i]).0 == k {
            let i = choose|i: int| 0 <= i < s.len() && (#[trigger] s[i]).0 == k;
            if i < t.len() {
                assert(t[i].0 == k);
            }
        }
        if exists|i: int| 0 <= i < t.len() && (#[trigger] t[i]).0 == k {
            let i = choose|i: int| 0 <= i < t.len() && (#[trigger] t[i]).0 == k;
            assert(s[i].0 == k);
        }
    }
}

/// A table from names to values.
pub struct Table<T> {
    entries: Vec<(String, T)>,
}

impl<T: View> View for Table<T> {
    type V = Map<Seq<char>, T::V>;

    closed spec fn view(&self) -> Map<Seq<char>, T::V> {
        pairs_map(views(self.entries@))
    }
}

/// The entry of `m` under `k`.
pub open spec fn looked_up<V>(m: Map<Seq<char>, V>, k: Seq<char>) -> Option<V> {
    if m.dom().contains(k) {
        Some(m[k])
    } else {
        None
    }
}

impl<T: View> Table<T> {
    pub fn new() -> (r: Self)
        ensures
            r@ == Map::<Seq<char>, T::V>::empty(),
    {
        let r = Table { entries: Vec::new() };
        assert(views(r.entries@) =~= Seq::empty());
        r
    }

    /// Where the last pair with key `k` stands.
    fn position(&self, k: &str) -> (r: Option<usize>)
        ensures
            match r {
                Some(i) => i < self.entries@.len() && self.entries@[i as int].0@ == k@
                    && self@.dom().contains(k@) && self@[k@] == self.entries@[i as int].1@,
                None => !self@.dom().contains(k@),
            },
    {
        let ghost s = views(self.entries@);
        proof {
            pairs_map_at(s, k@);
        }
        let mut n: usize = self.entries.len();
        while n > 0
            invariant
                n <= self.entries@.len(),
                s == views(self.entries@),
                forall|j: int| n <= j < s.len() ==> (#[trigger] s[j]).0 != k@,
                pairs_map(s).dom().contains(k@) <==> exists|i: int|
                    0 <= i < s.len() && (#[trigger] s[i]).0 == k@,
                forall|i: int|
                    0 <= i < s.len() && (#[trigger] s[i]).0 == k@ && (forall|j: int|
                        i < j < s.len() ==> (#[trigger] s[j]).0 != k@) ==> pairs_map(s)[k@]
                        == s[i].1,
            decreases n,
        {
            n = n - 1;
            assert(s[n as int] == (self.entries@[n as int].0@, self.entries@[n as int].1@));
            if same(self.entries[n].0.as_str(), k) {
                return Some(n);
            }
        }
        None
    }

    pub fn get(&self, k: &str) -> (r: Option<&T>)
        ensures
            match r {
                Some(v) => self@.dom().contains(k@) && v@ == self@[k@],
                None => !self@.dom().contains(k@),
            },
    {
        match self.position(k) {
            Some(i) => Some(&self.entries[i].1),
            None => None,
        }
    }

    /// Takes the entry under `k` out of the table.
    pub fn remove(&mut self, k: &str) -> (r: Option<T>)
        ensures
            final(self)@ == old(self)@.remove(k@),
            match r {
                Some(v) => old(self)@.dom().contains(k@) && v@ == old(self)@[k@],
                None => !old(self)@.dom().contains(k@),
            },
    {
        let ghost before = self@;
        let found = self.position(k);
        let taken: Option<T> = match found {
            Some(i) => {
                let ghost s = views(self.entries@);
                let (_key, v) = self.entries.remove(i);
                proof {
                    assert(views(self.entries@) =~= s.remove(i as int));
                    pairs_map_remove(s, i as int);
                }
                Some(v)
            },
            None => None,
        };
        let mut more: bool = found.is_some();
        while more
            invariant
                self@.remove(k@) == before.remove(k@),
                !more ==> !self@.dom().contains(k@),
            decreases self.entries@.len() + if more { 1int } else { 0int },
        {
            match self.position(k) {
                Some(i) => {
                    let ghost s = views(self.entries@);
                    let _dropped = self.entries.remove(i);
                    proof {
                        assert(views(self.entries@) =~= s.remove(i as int));
                        pairs_map_remove(s, i as int);
                    }
                },
                None => {
                    more = false;
                },
            }
        }
        assert(self@ =~= self@.remove(k@));
        assert(!before.dom().contains(k@) ==> before =~= before.remove(k@));
        taken
    }

    /// Puts `v` under `k`, in place of what was there.
    pub fn insert(&mut self, k: &str, v: T)
        ensures
            final(self)@ == old(self)@.insert(k@, v@),
    {
        let ghost before = self@;
        let _old = self.remove(k);
        let ghost s = views(self.entries@);
        self.entries.push((k.to_owned(), v));
        proof {
            assert(views(self.entries@) =~= s.push((k@, v@)));
            assert(s.push((k@, v@)).drop_last() =~= s);
            assert(before.remove(k@).insert(k@, v@) =~= before.insert(k@, v@));
        }
    }
}

/// Law: of pairs with the same key the last one counts; a key that no pair has is
/// not in the map.
pub proof fn later_pairs_win<V>(s: Seq<(Seq<char>, V)>, k: Seq<char>, v: V, other: Seq<char>)
    ensures
        pairs_map(s.push((k, v))).dom().contains(k) && pairs_map(s.push((k, v)))[k] == v,
        other != k ==> (pairs_map(s.push((k, v))).dom().contains(other) <==> pairs_map(
            s,
        ).dom().contains(other)) && (pairs_map(s).dom().contains(other) ==> pairs_map(
            s.push((k, v)),
        )[other] == pairs_map(s)[other]),
        !pairs_map(Seq::<(Seq<char>, V)>::empty()).dom().contains(k),
{
    assert(s.push((k, v)).drop_last() =~= s);
}

} // verus!
