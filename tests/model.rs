use umbral_sim::creation::UmbralCreation;
use umbral_sim::tier::{Outcome, Tier};

fn outcome(next: Tier, delta_clusters: usize, delta_dream_matters: usize) -> Outcome {
    Outcome { next, delta_clusters, delta_dream_matters }
}

#[test]
fn start_boundary_draws() {
    assert_eq!(Tier::Start.transition(121), outcome(Tier::TierA, 20, 1));
    assert_eq!(Tier::Start.transition(122), outcome(Tier::Start, 20, 0));
    assert_eq!(Tier::Start.transition(1), outcome(Tier::TierA, 20, 1));
    assert_eq!(Tier::Start.transition(191), outcome(Tier::Start, 20, 0));
}

#[test]
fn tier_a_boundary_draws() {
    assert_eq!(Tier::TierA.transition(96), outcome(Tier::TierB, 75, 0));
    assert_eq!(Tier::TierA.transition(97), outcome(Tier::TierA, 75, 0));
    assert_eq!(Tier::TierA.transition(174), outcome(Tier::TierA, 75, 0));
    assert_eq!(Tier::TierA.transition(175), outcome(Tier::Start, 0, 0));
    assert_eq!(Tier::TierA.transition(248), outcome(Tier::Start, 0, 0));
}

#[test]
fn tier_b_boundary_draws() {
    assert_eq!(Tier::TierB.transition(14), outcome(Tier::TierC, 150, 0));
    assert_eq!(Tier::TierB.transition(15), outcome(Tier::TierA, 75, 0));
    assert_eq!(Tier::TierB.transition(68), outcome(Tier::TierA, 75, 0));
    assert_eq!(Tier::TierB.transition(69), outcome(Tier::Start, 0, 0));
    assert_eq!(Tier::TierB.transition(131), outcome(Tier::Start, 0, 0));
}

#[test]
fn tries_per_tier() {
    assert_eq!(Tier::Start.tries(), 191);
    assert_eq!(Tier::TierA.tries(), 248);
    assert_eq!(Tier::TierB.tries(), 131);
    assert!(Tier::TierC.is_terminal());
    assert!(!Tier::Start.is_terminal());
}

#[test]
fn fresh_creation_is_at_start() {
    let uc = UmbralCreation::new();
    assert_eq!(uc.state, Tier::Start);
    assert_eq!(uc.clusters_spent, 0);
    assert_eq!(uc.dream_matters_spent, 0);
    assert!(!uc.is_done());
}

#[test]
fn steps_accumulate_along_a_chosen_walk() {
    let mut uc = UmbralCreation::new();
    uc.step(150);
    assert_eq!((uc.state, uc.clusters_spent, uc.dream_matters_spent), (Tier::Start, 20, 0));
    uc.step(10);
    assert_eq!((uc.state, uc.clusters_spent, uc.dream_matters_spent), (Tier::TierA, 40, 1));
    uc.step(100);
    assert_eq!((uc.state, uc.clusters_spent, uc.dream_matters_spent), (Tier::TierA, 115, 1));
    uc.step(50);
    assert_eq!((uc.state, uc.clusters_spent, uc.dream_matters_spent), (Tier::TierB, 190, 1));
    uc.step(40);
    assert_eq!((uc.state, uc.clusters_spent, uc.dream_matters_spent), (Tier::TierA, 265, 1));
    uc.step(200);
    assert_eq!((uc.state, uc.clusters_spent, uc.dream_matters_spent), (Tier::Start, 265, 1));
    uc.step(1);
    uc.step(1);
    uc.step(14);
    assert_eq!((uc.state, uc.clusters_spent, uc.dream_matters_spent), (Tier::TierC, 510, 2));
    assert!(uc.is_done());
}

#[test]
fn performed_creations_end_at_the_terminal_tier() {
    let mut rng = rand::thread_rng();
    for _ in 0..200 {
        let mut uc = UmbralCreation::new();
        assert!(uc.perform(&mut rng).is_ok());
        assert!(uc.is_done());
        assert_eq!(uc.state, Tier::TierC);
        // the shortest walk: Start -> TierA -> TierB -> TierC
        assert!(uc.clusters_spent >= 245);
        assert!(uc.dream_matters_spent >= 1);
        assert_eq!(uc.clusters_spent % 5, 0);
    }
}

#[test]
fn perform_on_a_finished_creation_changes_nothing() {
    let mut rng = rand::thread_rng();
    let mut uc = UmbralCreation::new();
    uc.perform(&mut rng).unwrap();
    let before = uc;
    assert!(uc.perform(&mut rng).is_ok());
    assert_eq!(uc, before);
}
