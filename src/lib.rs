//! Monte Carlo estimate of what an umbral creation costs.
//!
//! A creation walks over quality tiers, drawing a number at each step; the
//! tier transition table decides where it goes next and what it spends.
//! Many independent creations are collected and then summarised.
use vstd::prelude::*;

pub mod tier;
pub mod random;
pub mod creation;
pub mod collector;
pub mod stats;
pub mod cli;

verus! {

} // verus!
