//! Totals, truncating averages and upper medians over completed creations,
//! and their conversion into a price.
use vstd::prelude::*;
use crate::creation::UmbralCreation;

verus! {

/// The clusters spent by each creation, in order.
pub open spec fn cluster_counts(s: Seq<UmbralCreation>) -> Seq<usize> {
    s.map_values(|t: UmbralCreation| t.clusters_spent)
}

/// The dream matters spent by each creation, in order.
pub open spec fn dream_matter_counts(s: Seq<UmbralCreation>) -> Seq<usize> {
    s.map_values(|t: UmbralCreation| t.dream_matters_spent)
}

/// The sum of a sequence of counts.
pub open spec fn sum_of(s: Seq<usize>) -> int
    decreases s.len(),
{
    if s.len() == 0 {
        0
    } else {
        sum_of(s.drop_last()) + s.last()
    }
}

/// Whether `s` is in ascending order.
pub open spec fn is_sorted(s: Seq<usize>) -> bool {
    forall|i: int, j: int| 0 <= i <= j < s.len() ==> s[i] <= s[j]
}

/// Whether `m` is the element at index `len / 2` of `s` in ascending order:
/// the middle one for an odd length, the upper of the two middle ones for an
/// even length.
pub open spec fn is_upper_median(m: usize, s: Seq<usize>) -> bool {
    exists|t: Seq<usize>|
        #[trigger] is_sorted(t) && t.len() == s.len() && t.to_multiset() == s.to_multiset()
            && m == t[(s.len() / 2) as int]
}

/// Relies on std's `slice::sort`: it puts the same elements in ascending order.
#[verifier::external_body]
fn sort_counts(v: Vec<usize>) -> (r: Vec<usize>)
    ensures
        r@.len() == v@.len(),
        r@.to_multiset() == v@.to_multiset(),
        is_sorted(r@),
{
    let mut v = v;
    v.sort();
    v
}

/// The clusters spent by each creation.
pub fn cluster_counts_of(trials: &Vec<UmbralCreation>) -> (r: Vec<usize>)
    ensures
        r@ == cluster_counts(trials@),
{
    let mut r: Vec<usize> = Vec::new();
    let mut i: usize = 0;
    while i < trials.len()
        invariant
            i <= trials.len(),
            r@ == cluster_counts(trials@.take(i as int)),
        decreases trials.len() - i,
    {
        r.push(trials[i].clusters_spent);
        i = i + 1;
        assert(cluster_counts(trials@.take(i as int)) =~= r@);
    }
    assert(trials@.take(i as int) =~= trials@);
    r
}

/// The dream matters spent by each creation.
pub fn dream_matter_counts_of(trials: &Vec<UmbralCreation>) -> (r: Vec<usize>)
    ensures
        r@ == dream_matter_counts(trials@),
{
    let mut r: Vec<usize> = Vec::new();
    let mut i: usize = 0;
    while i < trials.len()
        invariant
            i <= trials.len(),
            r@ == dream_matter_counts(trials@.take(i as int)),
        decreases trials.len() - i,
    {
        r.push(trials[i].dream_matters_spent);
        i = i + 1;
        assert(dream_matter_counts(trials@.take(i as int)) =~= r@);
    }
    assert(trials@.take(i as int) =~= trials@);
    r
}

/// The exact sum of the counts; it cannot overflow a `u128`.
pub fn total(values: &Vec<usize>) -> (r: u128)
    ensures
        r == sum_of(values@),
{
    let mut acc: u128 = 0;
    let mut i: usize = 0;
    while i < values.len()
        invariant
            i <= values.len(),
            acc == sum_of(values@.take(i as int)),
            acc <= i * 0x1_0000_0000_0000_0000,
        decreases values.len() - i,
    {
        assert(values@.take(i + 1).drop_last() =~= values@.take(i as int));
        acc = acc + values[i] as u128;
        i = i + 1;
    }
    assert(values@.take(i as int) =~= values@);
    acc
}

/// The upper median of the counts: the element at index `len / 2` once they
/// are sorted in ascending order.
pub fn median(values: Vec<usize>) -> (r: usize)
    requires
        values.len() > 0,
    ensures
        is_upper_median(r, values@),
{
    let n = values.len();
    let sorted = sort_counts(values);
    let r = sorted[n / 2];
    assert(is_sorted(sorted@));
    r
}

/// What the aggregator reports over a non-empty collection of creations.
#[derive(Clone, Copy, Debug, PartialEq, Eq, Structural)]
pub struct Summary {
    pub count: usize,
    pub total_clusters: u128,
    pub total_dream_matters: u128,
    pub avg_clusters: u128,
    pub avg_dream_matters: u128,
    pub median_clusters: usize,
    pub median_dream_matters: usize,
}

/// Totals, truncating averages and upper medians of both counters over
/// `trials`, which is left as it is.
pub fn summarize(trials: &Vec<UmbralCreation>) -> (s: Summary)
    requires
        trials.len() > 0,
    ensures
        s.count == trials.len(),
        s.total_clusters == sum_of(cluster_counts(trials@)),
        s.total_dream_matters == sum_of(dream_matter_counts(trials@)),
        s.avg_clusters == s.total_clusters / (trials.len() as u128),
        s.avg_dream_matters == s.total_dream_matters / (trials.len() as u128),
        is_upper_median(s.median_clusters, cluster_counts(trials@)),
        is_upper_median(s.median_dream_matters, dream_matter_counts(trials@)),
{
    let n = trials.len();
    let clusters = cluster_counts_of(trials);
    let dream_matters = dream_matter_counts_of(trials);
    let total_clusters = total(&clusters);
    let total_dream_matters = total(&dream_matters);
    let median_clusters = median(clusters);
    let median_dream_matters = median(dream_matters);
    Summary {
        count: n,
        total_clusters,
        total_dream_matters,
        avg_clusters: total_clusters / (n as u128),
        avg_dream_matters: total_dream_matters / (n as u128),
        median_clusters,
        median_dream_matters,
    }
}

/// The price of one unit of each resource.
#[derive(Clone, Copy, Debug, PartialEq, Eq, Structural)]
pub struct CostTable {
    pub cluster_cost: usize,
    pub dream_matter_cost: usize,
}

/// The price of everything a summary counts.
pub open spec fn total_cost_of(t: CostTable, s: Summary) -> int {
    s.total_clusters * t.cluster_cost + s.total_dream_matters * t.dream_matter_cost
}

impl CostTable {
    /// The average price of a creation, `(total_clusters * cluster_cost +
    /// total_dream_matters * dream_matter_cost) / count` truncated, or `None`
    /// where that total price does not fit a `u128`.
    pub fn average_cost(&self, s: &Summary) -> (r: Option<u128>)
        requires
            s.count > 0,
        ensures
            total_cost_of(*self, *s) <= u128::MAX ==> r == Some(
                (total_cost_of(*self, *s) / (s.count as int)) as u128,
            ),
            total_cost_of(*self, *s) > u128::MAX ==> r is None,
    {
        let c = match s.total_clusters.checked_mul(self.cluster_cost as u128) {
            Some(c) => c,
            None => {
                assert(total_cost_of(*self, *s) > u128::MAX) by (nonlinear_arith)
                    requires
                        s.total_clusters * self.cluster_cost > u128::MAX,
                        s.total_dream_matters * self.dream_matter_cost >= 0,
                ;
                return None;
            },
        };
        let d = match s.total_dream_matters.checked_mul(self.dream_matter_cost as u128) {
            Some(d) => d,
            None => {
                assert(total_cost_of(*self, *s) > u128::MAX) by (nonlinear_arith)
                    requires
                        s.total_dream_matters * self.dream_matter_cost > u128::MAX,
                        s.total_clusters * self.cluster_cost >= 0,
                ;
                return None;
            },
        };
        match c.checked_add(d) {
            Some(t) => Some(t / (s.count as u128)),
            None => None,
        }
    }
}

} // verus!
