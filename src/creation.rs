//! One umbral creation: a random walk over the tiers until the terminal one.
use vstd::prelude::*;
use rand::rngs::ThreadRng;
use crate::random::draw_between;
use crate::tier::{Tier, outcome_of, valid_draw, MAX_DELTA_CLUSTERS, MAX_DELTA_DREAM_MATTERS};

verus! {

/// The most draws a single creation makes before it is abandoned as an
/// internal error. Reaching it has a vanishing probability.
pub const MAX_STEPS: u64 = 10_000_000;

/// One trial: the tier reached so far and the resources spent on the way.
#[derive(Clone, Copy, Debug, PartialEq, Eq, Structural)]
pub struct UmbralCreation {
    pub state: Tier,
    pub clusters_spent: usize,
    pub dream_matters_spent: usize,
}

/// Why a creation could not be run to its end.
#[derive(Clone, Copy, Debug, PartialEq, Eq, Structural)]
pub enum TrialError {
    /// The terminal tier was not reached within `MAX_STEPS` draws.
    StepLimitReached,
}

/// A creation seen as its tier and its two counters.
pub type Progress = (Tier, int, int);

impl View for UmbralCreation {
    type V = Progress;

    open spec fn view(&self) -> Progress {
        (self.state, self.clusters_spent as int, self.dream_matters_spent as int)
    }
}

/// One draw applied to a creation: the table's tier, the counters increased.
pub open spec fn step_of(p: Progress, draw: int) -> Progress {
    let o = outcome_of(p.0, draw);
    (o.next, p.1 + o.delta_clusters, p.2 + o.delta_dream_matters)
}

/// The creation reached from `p` by the draws `d`, in order.
pub open spec fn walk(p: Progress, d: Seq<int>) -> Progress
    decreases d.len(),
{
    if d.len() == 0 {
        p
    } else {
        step_of(walk(p, d.drop_last()), d.last())
    }
}

/// Whether each draw of `d` is one the tier reached before it can make; in
/// particular no draw is made once the terminal tier is reached.
pub open spec fn is_walk(p: Progress, d: Seq<int>) -> bool
    decreases d.len(),
{
    d.len() == 0 || (is_walk(p, d.drop_last()) && valid_draw(walk(p, d.drop_last()).0, d.last()))
}

/// Along any run of draws, neither counter ever decreases from one point of
/// the run to a later one, and every creation reached before the last draw is
/// still transient: a creation that reached the terminal tier is never changed.
pub proof fn lemma_walk_monotone(p: Progress, d: Seq<int>, i: int, j: int)
    requires
        is_walk(p, d),
        0 <= i <= j <= d.len(),
    ensures
        walk(p, d.take(i)).1 <= walk(p, d.take(j)).1,
        walk(p, d.take(i)).2 <= walk(p, d.take(j)).2,
        i < d.len() ==> walk(p, d.take(i)).0 != Tier::TierC,
    decreases d.len(),
{
    if d.len() > 0 {
        let e = d.drop_last();
        assert(d.take(d.len() as int) =~= d);
        assert(e.take(e.len() as int) =~= e);
        if j < d.len() {
            assert(d.take(i) =~= e.take(i));
            assert(d.take(j) =~= e.take(j));
            lemma_walk_monotone(p, e, i, j);
        } else if i < d.len() {
            assert(d.take(i) =~= e.take(i));
            lemma_walk_monotone(p, e, i, e.len() as int);
        }
    }
}

impl UmbralCreation {
    /// A fresh creation at `Start` with nothing spent.
    pub fn new() -> (r: Self)
        ensures
            r@ == (Tier::Start, 0int, 0int),
    {
        UmbralCreation { state: Tier::Start, clusters_spent: 0, dream_matters_spent: 0 }
    }

    /// Whether the creation has reached the terminal tier.
    pub fn is_done(&self) -> (r: bool)
        ensures
            r == (self.state == Tier::TierC),
    {
        self.state.is_terminal()
    }

    /// Applies one draw made at the current tier.
    pub fn step(&mut self, draw: u64)
        requires
            valid_draw(old(self).state, draw as int),
            old(self).clusters_spent + MAX_DELTA_CLUSTERS <= usize::MAX,
            old(self).dream_matters_spent + MAX_DELTA_DREAM_MATTERS <= usize::MAX,
        ensures
            final(self)@ == step_of(old(self)@, draw as int),
    {
        let o = self.state.transition(draw);
        self.clusters_spent = self.clusters_spent + o.delta_clusters;
        self.dream_matters_spent = self.dream_matters_spent + o.delta_dream_matters;
        self.state = o.next;
    }

    /// Runs the creation until the terminal tier, drawing from `rng` with the
    /// current tier's range at each step. Fails only after `MAX_STEPS` draws
    /// that did not reach the terminal tier.
    pub fn perform(&mut self, rng: &mut ThreadRng) -> (r: Result<(), TrialError>)
        requires
            old(self).clusters_spent + MAX_STEPS * MAX_DELTA_CLUSTERS <= usize::MAX,
            old(self).dream_matters_spent + MAX_STEPS * MAX_DELTA_DREAM_MATTERS <= usize::MAX,
        ensures
            r is Ok <==> final(self).state == Tier::TierC,
            exists|d: Seq<int>|
                #[trigger] is_walk(old(self)@, d) && walk(old(self)@, d) == final(self)@
                    && d.len() <= MAX_STEPS && (r is Err ==> d.len() == MAX_STEPS),
            final(self).clusters_spent >= old(self).clusters_spent,
            final(self).dream_matters_spent >= old(self).dream_matters_spent,
    {
        let ghost start = self@;
        let ghost mut draws: Seq<int> = Seq::empty();
        let mut steps: u64 = 0;
        while !self.is_done()
            invariant
                start == old(self)@,
                steps <= MAX_STEPS,
                draws.len() == steps,
                is_walk(start, draws),
                walk(start, draws) == self@,
                self.clusters_spent >= start.1,
                self.dream_matters_spent >= start.2,
                self.clusters_spent + (MAX_STEPS - steps) * MAX_DELTA_CLUSTERS <= usize::MAX,
                self.dream_matters_spent + (MAX_STEPS - steps) * MAX_DELTA_DREAM_MATTERS
                    <= usize::MAX,
            decreases MAX_STEPS - steps,
        {
            if steps == MAX_STEPS {
                assert(is_walk(start, draws));
                return Err(TrialError::StepLimitReached);
            }
            let tries = self.state.tries();
            let draw = draw_between(rng, 1, tries + 1);
            proof {
                let prev = draws;
                draws = draws.push(draw as int);
                assert(draws.drop_last() =~= prev);
            }
            self.step(draw);
            steps = steps + 1;
        }
        assert(is_walk(start, draws));
        Ok(())
    }
}

} // verus!
