//! Counting the runs of each node, to tell which are worth compiling.

use vstd::hash_map::StringHashMap;
use vstd::prelude::*;

verus! {

/// How often the node `id` has run, by `counts`.
pub open spec fn count_in(counts: Map<Seq<char>, usize>, id: Seq<char>) -> usize {
    if counts.contains_key(id) {
        counts[id]
    } else {
        0
    }
}

/// The number after `n`, which stays where it is at the end of the range.
pub open spec fn next_count(n: usize) -> usize {
    if n < usize::MAX {
        (n + 1) as usize
    } else {
        n
    }
}

/// The counts after one more run of `id`.
pub open spec fn counted(counts: Map<Seq<char>, usize>, id: Seq<char>) -> Map<Seq<char>, usize> {
    counts.insert(id, next_count(count_in(counts, id)))
}

/// The counts after `n` more runs of `id`.
pub open spec fn counted_times(counts: Map<Seq<char>, usize>, id: Seq<char>, n: nat) -> Map<
    Seq<char>,
    usize,
>
    decreases n,
{
    if n == 0 {
        counts
    } else {
        counted(counted_times(counts, id, (n - 1) as nat), id)
    }
}

/// After `n` runs of a node that had not run before, its count is `n`, so
/// the node is hot from its run number `threshold` on and not before; the
/// counts of the other nodes are as they were.
pub proof fn count_after_runs(
    counts: Map<Seq<char>, usize>,
    id: Seq<char>,
    n: nat,
    threshold: usize,
    other: Seq<char>,
)
    requires
        !counts.contains_key(id),
        n <= usize::MAX,
        other != id,
    ensures
        count_in(counted_times(counts, id, n), id) == n,
        (count_in(counted_times(counts, id, n), id) >= threshold) == (n >= threshold),
        count_in(counted_times(counts, id, n), other) == count_in(counts, other),
    decreases n,
{
    if n > 0 {
        count_after_runs(counts, id, (n - 1) as nat, threshold, other);
    }
}

/// Counts the runs of nodes and says which have reached the threshold.
pub struct HotPathDetector {
    call_counts: StringHashMap<usize>,
    compilation_threshold: usize,
}

impl HotPathDetector {
    /// The count of each node that has run.
    pub closed spec fn counts(&self) -> Map<Seq<char>, usize> {
        self.call_counts@
    }

    /// The number of runs from which on a node is hot.
    pub closed spec fn threshold(&self) -> usize {
        self.compilation_threshold
    }

    /// Whether the node `id` is hot: its count has reached the threshold.
    pub open spec fn hot(&self, id: Seq<char>) -> bool {
        count_in(self.counts(), id) >= self.threshold()
    }

    /// A detector with the threshold 100.
    pub fn new() -> (r: Self)
        ensures
            r.counts() == Map::<Seq<char>, usize>::empty(),
            r.threshold() == 100,
    {
        HotPathDetector { call_counts: StringHashMap::new(), compilation_threshold: 100 }
    }

    /// A detector with the given threshold.
    pub fn with_threshold(threshold: usize) -> (r: Self)
        ensures
            r.counts() == Map::<Seq<char>, usize>::empty(),
            r.threshold() == threshold,
    {
        HotPathDetector { call_counts: StringHashMap::new(), compilation_threshold: threshold }
    }

    /// Counts one run of the node, and says whether the node is hot now.
    pub fn record_execution(&mut self, node_id: &str) -> (r: bool)
        ensures
            final(self).counts() == counted(old(self).counts(), node_id@),
            final(self).threshold() == old(self).threshold(),
            r == final(self).hot(node_id@),
    {
        let count: usize = match self.call_counts.get(node_id) {
            Some(c) => *c,
            None => 0,
        };
        let next: usize = if count < usize::MAX {
            count + 1
        } else {
            count
        };
        self.call_counts.insert(String::from_str(node_id), next);
        next >= self.compilation_threshold
    }

    /// Whether the node is hot.
    pub fn should_compile(&self, node_id: &str) -> (r: bool)
        ensures
            r == self.hot(node_id@),
    {
        self.get_count(node_id) >= self.compilation_threshold
    }

    /// How often the node has run.
    pub fn get_count(&self, node_id: &str) -> (r: usize)
        ensures
            r == count_in(self.counts(), node_id@),
    {
        match self.call_counts.get(node_id) {
            Some(c) => *c,
            None => 0,
        }
    }

    /// Forgets every count.
    pub fn reset(&mut self)
        ensures
            final(self).counts() == Map::<Seq<char>, usize>::empty(),
            final(self).threshold() == old(self).threshold(),
    {
        self.call_counts.clear();
    }
}

impl Default for HotPathDetector {
    /// A detector with the threshold 100.
    fn default() -> (r: Self)
        ensures
            r.counts() == Map::<Seq<char>, usize>::empty(),
            r.threshold() == 100,
    {
        HotPathDetector::new()
    }
}

} // verus!
