//! The shared result collection of the simulation engine: completed creations
//! are offered one at a time and kept only while the target is not reached.
//! Callers that share it between workers hold it under one lock, so that each
//! offer, with its length check, is a single step.
use vstd::prelude::*;
use crate::creation::UmbralCreation;

verus! {

/// What an offer of `uc` makes of the collection `s` bounded by `target`.
pub open spec fn offer_result(s: Seq<UmbralCreation>, target: nat, uc: UmbralCreation) -> Seq<
    UmbralCreation,
> {
    if s.len() < target {
        s.push(uc)
    } else {
        s
    }
}

/// The collection after `offers` were made, in order, to an empty one.
pub open spec fn collect_all(target: nat, offers: Seq<UmbralCreation>) -> Seq<UmbralCreation>
    decreases offers.len(),
{
    if offers.len() == 0 {
        Seq::empty()
    } else {
        offer_result(collect_all(target, offers.drop_last()), target, offers.last())
    }
}

/// The smaller of two counts.
pub open spec fn min_nat(a: nat, b: nat) -> nat {
    if a < b {
        a
    } else {
        b
    }
}

/// However the workers' offers interleave, the collection holds exactly the
/// first `target` creations offered (all of them if fewer were offered): it
/// never overshoots the target, and no creation is kept twice or out of turn.
pub proof fn lemma_collect_all(target: nat, offers: Seq<UmbralCreation>)
    ensures
        collect_all(target, offers) == offers.take(min_nat(offers.len(), target) as int),
        collect_all(target, offers).len() == min_nat(offers.len(), target),
    decreases offers.len(),
{
    if offers.len() > 0 {
        let e = offers.drop_last();
        lemma_collect_all(target, e);
        if e.len() < target {
            assert(offers.take(offers.len() as int) =~= e.take(e.len() as int).push(offers.last()));
        } else {
            assert(offers.take(target as int) =~= e.take(target as int));
        }
    } else {
        assert(offers.take(0) =~= Seq::<UmbralCreation>::empty());
    }
}

/// A collection of completed creations bounded by a target length.
pub struct Collector {
    trials: Vec<UmbralCreation>,
    target: usize,
}

impl Collector {
    /// The creations kept so far, in the order they were accepted.
    pub closed spec fn collected(&self) -> Seq<UmbralCreation> {
        self.trials@
    }

    /// The length at which the collection stops accepting.
    pub closed spec fn target(&self) -> nat {
        self.target as nat
    }

    /// The collection never exceeds its target.
    pub open spec fn wf(&self) -> bool {
        self.collected().len() <= self.target()
    }

    /// An empty collection that will hold `target` creations.
    pub fn new(target: usize) -> (r: Self)
        ensures
            r.wf(),
            r.collected() == Seq::<UmbralCreation>::empty(),
            r.target() == target,
    {
        Collector { trials: Vec::new(), target }
    }

    /// Offers a completed creation. It is appended, and `true` returned, only
    /// while the collection is below its target; otherwise nothing changes and
    /// the caller should stop producing creations.
    pub fn offer(&mut self, uc: UmbralCreation) -> (accepted: bool)
        requires
            old(self).wf(),
        ensures
            final(self).wf(),
            final(self).target() == old(self).target(),
            final(self).collected() == offer_result(old(self).collected(), old(self).target(), uc),
            accepted == (old(self).collected().len() < old(self).target()),
            !accepted ==> final(self).collected().len() == final(self).target(),
    {
        if self.trials.len() < self.target {
            self.trials.push(uc);
            true
        } else {
            false
        }
    }

    /// How many creations are kept.
    pub fn len(&self) -> (r: usize)
        ensures
            r == self.collected().len(),
    {
        self.trials.len()
    }

    /// Whether the target is reached.
    pub fn is_full(&self) -> (r: bool)
        requires
            self.wf(),
        ensures
            r == (self.collected().len() == self.target()),
    {
        self.trials.len() >= self.target
    }

    /// The creations kept, in the order they were accepted.
    pub fn into_trials(self) -> (r: Vec<UmbralCreation>)
        ensures
            r@ == self.collected(),
    {
        self.trials
    }
}

} // verus!
