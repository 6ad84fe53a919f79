//! The operator histogram: how often each operator name was seen while a module
//! was instrumented.

use vstd::prelude::*;

verus! {

/// One line of the histogram.
#[derive(Clone, Debug, PartialEq, Eq)]
pub struct Tally {
    pub name: String,
    pub count: u64,
}

/// Counts per operator name. No name is listed twice.
#[derive(Clone, Debug)]
pub struct OperationCounts {
    tallies: Vec<Tally>,
}

/// How often `name` was counted in `counts`; 0 for a name that is not in it.
pub open spec fn count_in(counts: Map<Seq<char>, u64>, name: Seq<char>) -> u64 {
    if counts.contains_key(name) {
        counts[name]
    } else {
        0
    }
}

/// `counts` with one more occurrence of `name`.
pub open spec fn tallied(counts: Map<Seq<char>, u64>, name: Seq<char>) -> Map<Seq<char>, u64> {
    counts.insert(name, (count_in(counts, name) + 1) as u64)
}

/// `counts` with one more occurrence of each of `names`, in their order.
pub open spec fn tallied_all(counts: Map<Seq<char>, u64>, names: Seq<Seq<char>>) -> Map<
    Seq<char>,
    u64,
>
    decreases names.len(),
{
    if names.len() == 0 {
        counts
    } else {
        tallied(tallied_all(counts, names.drop_last()), names.last())
    }
}

/// How often `name` occurs among `names`.
pub open spec fn occurrences(names: Seq<Seq<char>>, name: Seq<char>) -> nat
    decreases names.len(),
{
    if names.len() == 0 {
        0
    } else if names.last() == name {
        occurrences(names.drop_last(), name) + 1
    } else {
        occurrences(names.drop_last(), name)
    }
}

/// Counting a run of operators raises the count of each name by exactly the
/// number of times that it occurs in the run, as long as the count fits in 64
/// bits.
pub proof fn lemma_counts_occurrences(
    counts: Map<Seq<char>, u64>,
    names: Seq<Seq<char>>,
    name: Seq<char>,
)
    requires
        count_in(counts, name) + occurrences(names, name) <= u64::MAX,
    ensures
        count_in(tallied_all(counts, names), name) == count_in(counts, name) + occurrences(
            names,
            name,
        ),
    decreases names.len(),
{
    if names.len() > 0 {
        lemma_counts_occurrences(counts, names.drop_last(), name);
    }
}

/// Counting a run of operators leaves out no name that was counted before, and
/// brings in the names of the run and no others.
pub proof fn lemma_counts_names(
    counts: Map<Seq<char>, u64>,
    names: Seq<Seq<char>>,
    name: Seq<char>,
)
    ensures
        tallied_all(counts, names).contains_key(name) <==> counts.contains_key(name)
            || occurrences(names, name) > 0,
    decreases names.len(),
{
    if names.len() > 0 {
        lemma_counts_names(counts, names.drop_last(), name);
    }
}

/// Whether `name` is listed at position `i` of `tallies`.
pub open spec fn listed_at(tallies: Seq<Tally>, name: Seq<char>, i: int) -> bool {
    0 <= i < tallies.len() && tallies[i].name@ == name
}

impl View for OperationCounts {
    type V = Map<Seq<char>, u64>;

    /// The histogram as a map from operator name to count.
    closed spec fn view(&self) -> Map<Seq<char>, u64> {
        Map::new(
            |name: Seq<char>| exists|i: int| listed_at(self.tallies@, name, i),
            |name: Seq<char>| self.tallies@[choose|i: int| listed_at(self.tallies@, name, i)].count,
        )
    }
}

impl OperationCounts {
    /// No operator name is listed twice.
    pub closed spec fn wf(&self) -> bool {
        forall|i: int, j: int|
            0 <= i < j < self.tallies@.len() ==> self.tallies@[i].name@ != self.tallies@[j].name@
    }

    /// How often `name` was counted; 0 for a name never seen.
    pub open spec fn count(&self, name: Seq<char>) -> u64 {
        count_in(self@, name)
    }

    /// The tallies in the order in which their names were first seen.
    pub closed spec fn listing(&self) -> Seq<Tally> {
        self.tallies@
    }

    proof fn lemma_view_at(&self, i: int)
        requires
            self.wf(),
            0 <= i < self.tallies@.len(),
        ensures
            self@.contains_key(self.tallies@[i].name@),
            self@[self.tallies@[i].name@] == self.tallies@[i].count,
    {
        let name = self.tallies@[i].name@;
        assert(listed_at(self.tallies@, name, i));
        let k = choose|k: int| listed_at(self.tallies@, name, k);
        assert(k == i);
    }

    /// An empty histogram.
    pub fn new() -> (counts: Self)
        ensures
            counts.wf(),
            counts@ == Map::<Seq<char>, u64>::empty(),
    {
        let counts = OperationCounts { tallies: Vec::new() };
        assert(counts@ =~= Map::<Seq<char>, u64>::empty());
        counts
    }

    /// The number of distinct operator names seen.
    pub fn len(&self) -> (n: usize)
        requires
            self.wf(),
        ensures
            n == self.listing().len(),
    {
        self.tallies.len()
    }

    /// The tallies in the order in which their names were first seen.
    pub fn tallies(&self) -> (tallies: &Vec<Tally>)
        ensures
            tallies@ == self.listing(),
    {
        &self.tallies
    }

    /// Every tally that is listed is the count of its name, and every name that
    /// was counted is listed.
    pub proof fn lemma_listing(&self)
        requires
            self.wf(),
        ensures
            forall|i: int|
                0 <= i < self.listing().len() ==> self@.contains_key(
                    (#[trigger] self.listing()[i]).name@,
                ) && self@[self.listing()[i].name@] == self.listing()[i].count,
            forall|name: Seq<char>| #[trigger]
                self@.contains_key(name) ==> exists|i: int| listed_at(self.listing(), name, i),
    {
        assert forall|i: int| 0 <= i < self.listing().len() implies self@.contains_key(
            (#[trigger] self.listing()[i]).name@,
        ) && self@[self.listing()[i].name@] == self.listing()[i].count by {
            self.lemma_view_at(i);
        }
        assert forall|name: Seq<char>| #[trigger] self@.contains_key(name) implies exists|i: int|
            listed_at(self.listing(), name, i) by {
            let i = choose|i: int| listed_at(self.tallies@, name, i);
            assert(listed_at(self.listing(), name, i));
        }
    }

    /// The count of `name`, 0 where it was never seen.
    pub fn get(&self, name: &String) -> (n: u64)
        requires
            self.wf(),
        ensures
            n == self.count(name@),
    {
        let mut i: usize = 0;
        while i < self.tallies.len()
            invariant
                self.wf(),
                i <= self.tallies@.len(),
                forall|k: int| 0 <= k < i ==> self.tallies@[k].name@ != name@,
            decreases self.tallies@.len() - i,
        {
            if self.tallies[i].name == *name {
                proof {
                    self.lemma_view_at(i as int);
                }
                return self.tallies[i].count;
            }
            i = i + 1;
        }
        assert(!self@.contains_key(name@)) by {
            if self@.contains_key(name@) {
                let k = choose|k: int| listed_at(self.tallies@, name@, k);
                assert(listed_at(self.tallies@, name@, k));
            }
        }
        0
    }

    /// Counts one more occurrence of `name`.
    pub fn increment(&mut self, name: String)
        requires
            old(self).wf(),
            old(self).count(name@) < u64::MAX,
        ensures
            final(self).wf(),
            final(self)@ == tallied(old(self)@, name@),
    {
        let mut i: usize = 0;
        while i < self.tallies.len()
            invariant
                self.wf(),
                *self == *old(self),
                self.count(name@) < u64::MAX,
                i <= self.tallies@.len(),
                forall|k: int| 0 <= k < i ==> self.tallies@[k].name@ != name@,
            decreases self.tallies@.len() - i,
        {
            if self.tallies[i].name == name {
                proof {
                    self.lemma_view_at(i as int);
                }
                let count = self.tallies[i].count;
                let ghost before = *self;
                self.tallies.set(i, Tally { name, count: count + 1 });
                proof {
                    assert(self.wf());
                    assert forall|n: Seq<char>|
                        self@.contains_key(n) <==> before@.insert(
                            name@,
                            (count + 1) as u64,
                        ).contains_key(n) by {
                        if self@.contains_key(n) {
                            let k = choose|k: int| listed_at(self.tallies@, n, k);
                            assert(listed_at(before.tallies@, n, k));
                        }
                        if before@.contains_key(n) {
                            let k = choose|k: int| listed_at(before.tallies@, n, k);
                            assert(listed_at(self.tallies@, n, k));
                        }
                        if n == name@ {
                            assert(listed_at(self.tallies@, n, i as int));
                        }
                    }
                    assert forall|n: Seq<char>| self@.contains_key(n) implies self@[n]
                        == before@.insert(name@, (count + 1) as u64)[n] by {
                        let k = choose|k: int| listed_at(self.tallies@, n, k);
                        self.lemma_view_at(k);
                        if n != name@ {
                            assert(k != i);
                            before.lemma_view_at(k);
                        } else {
                            assert(k == i);
                        }
                    }
                    assert(self@ =~= before@.insert(name@, (count + 1) as u64));
                }
                return ;
            }
            i = i + 1;
        }
        let ghost before = *self;
        assert(!before@.contains_key(name@)) by {
            if before@.contains_key(name@) {
                let k = choose|k: int| listed_at(before.tallies@, name@, k);
                assert(listed_at(before.tallies@, name@, k));
            }
        }
        let ghost key = name@;
        self.tallies.push(Tally { name, count: 1 });
        proof {
            let last = self.tallies@.len() - 1;
            assert(self.wf());
            assert forall|n: Seq<char>|
                self@.contains_key(n) <==> before@.insert(key, 1u64).contains_key(n) by {
                if self@.contains_key(n) {
                    let k = choose|k: int| listed_at(self.tallies@, n, k);
                    if k != last {
                        assert(listed_at(before.tallies@, n, k));
                    }
                }
                if before@.contains_key(n) {
                    let k = choose|k: int| listed_at(before.tallies@, n, k);
                    assert(listed_at(self.tallies@, n, k));
                }
                if n == key {
                    assert(listed_at(self.tallies@, n, last));
                }
            }
            assert forall|n: Seq<char>| self@.contains_key(n) implies self@[n] == before@.insert(
                key,
                1u64,
            )[n] by {
                let k = choose|k: int| listed_at(self.tallies@, n, k);
                self.lemma_view_at(k);
                if n != key {
                    assert(k != last);
                    before.lemma_view_at(k);
                } else {
                    assert(k == last);
                }
            }
            assert(self@ =~= before@.insert(key, 1u64));
        }
    }
}

} // verus!
