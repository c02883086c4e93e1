//! Quality tiers and the table that moves a creation between them.
use vstd::prelude::*;

verus! {

/// A quality tier. `TierC` is terminal; the others are transient.
#[derive(Clone, Copy, Debug, PartialEq, Eq, Structural)]
pub enum Tier {
    Start,
    TierA,
    TierB,
    TierC,
}

/// What one draw does: the tier reached and the resources it consumed.
#[derive(Clone, Copy, Debug, PartialEq, Eq, Structural)]
pub struct Outcome {
    pub next: Tier,
    pub delta_clusters: usize,
    pub delta_dream_matters: usize,
}

/// The most clusters that a single transition can consume.
pub const MAX_DELTA_CLUSTERS: usize = 150;

/// The most dream matters that a single transition can consume.
pub const MAX_DELTA_DREAM_MATTERS: usize = 1;

/// The upper end of the inclusive draw range `[1, tries]` at a transient tier.
pub open spec fn tries_of(t: Tier) -> int {
    match t {
        Tier::Start => 191,
        Tier::TierA => 248,
        Tier::TierB => 131,
        Tier::TierC => 0,
    }
}

/// Whether `draw` is a draw that tier `t` can make.
pub open spec fn valid_draw(t: Tier, draw: int) -> bool {
    t != Tier::TierC && 1 <= draw <= tries_of(t)
}

/// The transition table: the outcome of `draw` at the transient tier `t`.
pub open spec fn outcome_of(t: Tier, draw: int) -> Outcome {
    match t {
        Tier::Start => if draw <= 121 {
            Outcome { next: Tier::TierA, delta_clusters: 20, delta_dream_matters: 1 }
        } else {
            Outcome { next: Tier::Start, delta_clusters: 20, delta_dream_matters: 0 }
        },
        Tier::TierA => if draw <= 96 {
            Outcome { next: Tier::TierB, delta_clusters: 75, delta_dream_matters: 0 }
        } else if draw <= 174 {
            Outcome { next: Tier::TierA, delta_clusters: 75, delta_dream_matters: 0 }
        } else {
            Outcome { next: Tier::Start, delta_clusters: 0, delta_dream_matters: 0 }
        },
        Tier::TierB => if draw <= 14 {
            Outcome { next: Tier::TierC, delta_clusters: 150, delta_dream_matters: 0 }
        } else if draw <= 68 {
            Outcome { next: Tier::TierA, delta_clusters: 75, delta_dream_matters: 0 }
        } else {
            Outcome { next: Tier::Start, delta_clusters: 0, delta_dream_matters: 0 }
        },
        Tier::TierC => Outcome { next: Tier::TierC, delta_clusters: 0, delta_dream_matters: 0 },
    }
}

impl Tier {
    /// Whether this is the terminal tier.
    pub fn is_terminal(&self) -> (r: bool)
        ensures
            r == (*self == Tier::TierC),
    {
        match self {
            Tier::TierC => true,
            _ => false,
        }
    }

    /// The upper end of the draw range at this transient tier.
    pub fn tries(&self) -> (r: u64)
        requires
            *self != Tier::TierC,
        ensures
            r == tries_of(*self),
            r >= 1,
    {
        match self {
            Tier::Start => 191,
            Tier::TierA => 248,
            Tier::TierB => 131,
            Tier::TierC => 0,
        }
    }

    /// Applies the transition table to one draw made at this tier.
    pub fn transition(&self, draw: u64) -> (o: Outcome)
        requires
            valid_draw(*self, draw as int),
        ensures
            o == outcome_of(*self, draw as int),
            o.delta_clusters <= MAX_DELTA_CLUSTERS,
            o.delta_dream_matters <= MAX_DELTA_DREAM_MATTERS,
    {
        match self {
            Tier::Start => if draw <= 121 {
                Outcome { next: Tier::TierA, delta_clusters: 20, delta_dream_matters: 1 }
            } else {
                Outcome { next: Tier::Start, delta_clusters: 20, delta_dream_matters: 0 }
            },
            Tier::TierA => if draw <= 96 {
                Outcome { next: Tier::TierB, delta_clusters: 75, delta_dream_matters: 0 }
            } else if draw <= 174 {
                Outcome { next: Tier::TierA, delta_clusters: 75, delta_dream_matters: 0 }
            } else {
                Outcome { next: Tier::Start, delta_clusters: 0, delta_dream_matters: 0 }
            },
            Tier::TierB => if draw <= 14 {
                Outcome { next: Tier::TierC, delta_clusters: 150, delta_dream_matters: 0 }
            } else if draw <= 68 {
                Outcome { next: Tier::TierA, delta_clusters: 75, delta_dream_matters: 0 }
            } else {
                Outcome { next: Tier::Start, delta_clusters: 0, delta_dream_matters: 0 }
            },
            Tier::TierC => Outcome { next: Tier::TierC, delta_clusters: 0, delta_dream_matters: 0 },
        }
    }
}

} // verus!
