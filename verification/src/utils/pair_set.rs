//! A finite set of pairs of texts, kept as a list without repetition.

use crate::utils::text::{chars_of, span_equals};
use vstd::prelude::*;

verus! {

/// A pair of texts.
#[derive(Debug, Clone)]
pub struct Pair {
    pub first: String,
    pub second: String,
}

impl View for Pair {
    type V = (Seq<char>, Seq<char>);

    open spec fn view(&self) -> (Seq<char>, Seq<char>) {
        (self.first@, self.second@)
    }
}

/// The pairs that a list holds.
pub open spec fn pairs_of(ps: Seq<Pair>) -> Set<(Seq<char>, Seq<char>)> {
    Set::new(|p: (Seq<char>, Seq<char>)| exists|i: int| 0 <= i < ps.len() && #[trigger] ps[i]@ == p)
}

/// No pair stands twice in the list.
pub open spec fn distinct_pairs(ps: Seq<Pair>) -> bool {
    forall|i: int, j: int| 0 <= i < j < ps.len() ==> ps[i]@ != ps[j]@
}

/// Appending a pair adds it to the set.
pub proof fn lemma_pairs_push(ps: Seq<Pair>, p: Pair)
    ensures
        pairs_of(ps.push(p)) == pairs_of(ps).insert(p@),
{
    let after = ps.push(p);
    assert forall|q: (Seq<char>, Seq<char>)| pairs_of(after).contains(q) implies pairs_of(
        ps,
    ).insert(p@).contains(q) by {
        let i = choose|i: int| 0 <= i < after.len() && #[trigger] after[i]@ == q;
        if i < ps.len() {
            assert(ps[i]@ == q);
        }
    }
    assert forall|q: (Seq<char>, Seq<char>)| pairs_of(ps).insert(p@).contains(q) implies pairs_of(
        after,
    ).contains(q) by {
        if q == p@ {
            assert(after[ps.len() as int]@ == q);
        } else {
            let i = choose|i: int| 0 <= i < ps.len() && #[trigger] ps[i]@ == q;
            assert(after[i]@ == q);
        }
    }
    assert(pairs_of(after) =~= pairs_of(ps).insert(p@));
}

/// Taking a pair out of a list without repetition takes it out of the set.
pub proof fn lemma_pairs_remove(ps: Seq<Pair>, i: int)
    requires
        distinct_pairs(ps),
        0 <= i < ps.len(),
    ensures
        distinct_pairs(ps.remove(i)),
        pairs_of(ps.remove(i)) == pairs_of(ps).remove(ps[i]@),
{
    let after = ps.remove(i);
    assert forall|q: (Seq<char>, Seq<char>)| pairs_of(after).contains(q) implies pairs_of(
        ps,
    ).remove(ps[i]@).contains(q) by {
        let j = choose|j: int| 0 <= j < after.len() && #[trigger] after[j]@ == q;
        if j < i {
            assert(ps[j]@ == q);
        } else {
            assert(ps[j + 1]@ == q);
        }
    }
    assert forall|q: (Seq<char>, Seq<char>)| pairs_of(ps).remove(ps[i]@).contains(q) implies pairs_of(
        after,
    ).contains(q) by {
        let j = choose|j: int| 0 <= j < ps.len() && #[trigger] ps[j]@ == q;
        if j < i {
            assert(after[j]@ == q);
        } else {
            assert(after[j - 1]@ == q);
        }
    }
    assert(pairs_of(after) =~= pairs_of(ps).remove(ps[i]@));
}

/// A finite set of pairs of texts.
#[derive(Debug, Clone)]
pub struct PairSet {
    items: Vec<Pair>,
}

impl View for PairSet {
    type V = Set<(Seq<char>, Seq<char>)>;

    closed spec fn view(&self) -> Set<(Seq<char>, Seq<char>)> {
        pairs_of(self.items@)
    }
}

impl PairSet {
    /// No pair stands twice. Every function that hands out a set establishes
    /// this, and every function that changes one keeps it.
    pub closed spec fn wf(&self) -> bool {
        distinct_pairs(self.items@)
    }

    /// The empty set.
    pub fn new() -> (r: PairSet)
        ensures
            r.wf(),
            r@ == Set::<(Seq<char>, Seq<char>)>::empty(),
    {
        let r = PairSet { items: Vec::new() };
        assert(r@ =~= Set::<(Seq<char>, Seq<char>)>::empty());
        r
    }

    /// The position of the given pair.
    fn position(&self, first: &Vec<char>, second: &Vec<char>) -> (r: Option<usize>)
        ensures
            match r {
                Some(i) => i < self.items@.len() && self.items@[i as int]@ == (first@, second@),
                None => !self@.contains((first@, second@)),
            },
    {
        let mut i: usize = 0;
        while i < self.items.len()
            invariant
                i <= self.items@.len(),
                forall|j: int| 0 <= j < i ==> (#[trigger] self.items@[j])@ != (first@, second@),
            decreases self.items@.len() - i,
        {
            let a = chars_of(self.items[i].first.as_str());
            let b = chars_of(self.items[i].second.as_str());
            assert(a@.subrange(0, a@.len() as int) =~= a@);
            assert(b@.subrange(0, b@.len() as int) =~= b@);
            if span_equals(&a, 0, a.len(), first) && span_equals(&b, 0, b.len(), second) {
                return Some(i);
            }
            i = i + 1;
        }
        None
    }

    /// Whether the pair is in the set.
    pub fn contains(&self, first: &str, second: &str) -> (r: bool)
        ensures
            r == self@.contains((first@, second@)),
    {
        let a = chars_of(first);
        let b = chars_of(second);
        match self.position(&a, &b) {
            Some(i) => {
                assert(self.items@[i as int]@ == (first@, second@));
                true
            },
            None => false,
        }
    }

    /// Puts the pair into the set.
    pub fn insert(&mut self, first: String, second: String)
        requires
            old(self).wf(),
        ensures
            final(self).wf(),
            final(self)@ == old(self)@.insert((first@, second@)),
    {
        let a = chars_of(first.as_str());
        let b = chars_of(second.as_str());
        match self.position(&a, &b) {
            Some(i) => {
                assert(self.items@[i as int]@ == (first@, second@));
                assert(self@ =~= self@.insert((first@, second@)));
            },
            None => {
                let p = Pair { first, second };
                proof {
                    lemma_pairs_push(self.items@, p);
                    assert forall|i: int| 0 <= i < self.items@.len() implies (
                    #[trigger] self.items@[i])@ != p@ by {}
                }
                self.items.push(p);
            },
        }
    }

    /// Takes the pair out of the set, if it is there.
    pub fn remove(&mut self, first: &str, second: &str)
        requires
            old(self).wf(),
        ensures
            final(self).wf(),
            final(self)@ == old(self)@.remove((first@, second@)),
    {
        let a = chars_of(first);
        let b = chars_of(second);
        match self.position(&a, &b) {
            Some(i) => {
                proof {
                    lemma_pairs_remove(self.items@, i as int);
                }
                self.items.remove(i);
            },
            None => {
                assert(self@ =~= self@.remove((first@, second@)));
            },
        }
    }

    /// The second parts of the pairs whose first part is `first`, each once.
    pub fn seconds_of(&self, first: &str) -> (r: Vec<String>)
        requires
            self.wf(),
        ensures
            forall|s: Seq<char>|
                self@.contains((first@, s)) <==> exists|j: int|
                    0 <= j < r@.len() && (#[trigger] r@[j])@ == s,
            forall|i: int, j: int| 0 <= i < j < r@.len() ==> r@[i]@ != r@[j]@,
    {
        let want = chars_of(first);
        let mut r: Vec<String> = Vec::new();
        let ghost mut from: Seq<int> = Seq::empty();
        let mut i: usize = 0;
        while i < self.items.len()
            invariant
                self.wf(),
                want@ == first@,
                i <= self.items@.len(),
                from.len() == r@.len(),
                forall|j: int|
                    0 <= j < r@.len() ==> 0 <= #[trigger] from[j] < i && self.items@[from[j]]@ == (
                        first@,
                        r@[j]@,
                    ),
                forall|j: int, k: int| 0 <= j < k < r@.len() ==> from[j] < from[k],
                forall|n: int|
                    0 <= n < i && (#[trigger] self.items@[n]).first@ == first@ ==> exists|j: int|
                        0 <= j < r@.len() && #[trigger] from[j] == n,
            decreases self.items@.len() - i,
        {
            let a = chars_of(self.items[i].first.as_str());
            assert(a@.subrange(0, a@.len() as int) =~= a@);
            if span_equals(&a, 0, a.len(), &want) {
                let ghost old_from = from;
                let ghost old_r = r@;
                r.push(self.items[i].second.clone());
                proof {
                    from = from.push(i as int);
                    assert forall|n: int|
                        0 <= n < i + 1 && (#[trigger] self.items@[n]).first@
                            == first@ implies exists|j: int|
                        0 <= j < r@.len() && #[trigger] from[j] == n by {
                        if n < i {
                            let j = choose|j: int| 0 <= j < old_r.len() && #[trigger] old_from[j] == n;
                            assert(from[j] == n);
                        } else {
                            assert(from[old_r.len() as int] == n);
                        }
                    }
                }
            }
            i = i + 1;
        }
        proof {
            assert forall|s: Seq<char>| self@.contains((first@, s)) implies exists|j: int|
                0 <= j < r@.len() && (#[trigger] r@[j])@ == s by {
                let n = choose|n: int|
                    0 <= n < self.items@.len() && #[trigger] self.items@[n]@ == (first@, s);
                assert(self.items@[n].first@ == first@);
                let j = choose|j: int| 0 <= j < r@.len() && #[trigger] from[j] == n;
                assert(r@[j]@ == s);
            }
            assert forall|s: Seq<char>|
                (exists|j: int| 0 <= j < r@.len() && (#[trigger] r@[j])@ == s) implies self@.contains(
                (first@, s),
            ) by {
                let j = choose|j: int| 0 <= j < r@.len() && (#[trigger] r@[j])@ == s;
                assert(self.items@[from[j]]@ == (first@, s));
            }
            assert forall|i: int, j: int| 0 <= i < j < r@.len() implies r@[i]@ != r@[j]@ by {
                assert(from[i] < from[j]);
                assert(self.items@[from[i]]@ != self.items@[from[j]]@);
            }
        }
        r
    }
}

} // verus!
