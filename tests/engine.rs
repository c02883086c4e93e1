use umbral_sim::collector::Collector;
use umbral_sim::creation::UmbralCreation;
use umbral_sim::stats::{summarize, median, total, CostTable, Summary};
use umbral_sim::tier::Tier;

fn with_counts(clusters: usize, dream_matters: usize) -> UmbralCreation {
    UmbralCreation { state: Tier::TierC, clusters_spent: clusters, dream_matters_spent: dream_matters }
}

fn trials_with_clusters(values: &[usize]) -> Vec<UmbralCreation> {
    values.iter().map(|&c| with_counts(c, 1)).collect()
}

#[test]
fn collector_stops_at_its_target() {
    let mut c = Collector::new(3);
    for i in 0..5usize {
        let accepted = c.offer(with_counts(i, 0));
        assert_eq!(accepted, i < 3);
    }
    assert_eq!(c.len(), 3);
    assert!(c.is_full());
    let kept = c.into_trials();
    let clusters: Vec<usize> = kept.iter().map(|t| t.clusters_spent).collect();
    assert_eq!(clusters, vec![0, 1, 2]);
}

#[test]
fn collector_with_zero_target_refuses_everything() {
    let mut c = Collector::new(0);
    assert!(c.is_full());
    assert!(!c.offer(with_counts(1, 1)));
    assert_eq!(c.len(), 0);
}

#[test]
fn serial_engine_collects_exactly_the_target() {
    let mut rng = rand::thread_rng();
    let mut c = Collector::new(50);
    let mut refused = 0;
    while refused < 3 {
        let mut uc = UmbralCreation::new();
        uc.perform(&mut rng).unwrap();
        if !c.offer(uc) {
            refused += 1;
        }
    }
    let trials = c.into_trials();
    assert_eq!(trials.len(), 50);
    assert!(trials.iter().all(|t| t.is_done()));
}

#[test]
fn aggregates_odd_count() {
    let trials = trials_with_clusters(&[10, 20, 30, 40, 50]);
    let s = summarize(&trials);
    assert_eq!(s.count, 5);
    assert_eq!(s.total_clusters, 150);
    assert_eq!(s.avg_clusters, 30);
    assert_eq!(s.median_clusters, 30);
    assert_eq!(s.total_dream_matters, 5);
    assert_eq!(s.avg_dream_matters, 1);
    assert_eq!(s.median_dream_matters, 1);
}

#[test]
fn aggregates_even_count_takes_upper_median() {
    let trials = trials_with_clusters(&[10, 20, 30, 40]);
    let s = summarize(&trials);
    assert_eq!(s.total_clusters, 100);
    assert_eq!(s.avg_clusters, 25);
    assert_eq!(s.median_clusters, 30);
}

#[test]
fn median_sorts_before_picking() {
    assert_eq!(median(vec![50, 10, 40, 20, 30]), 30);
    assert_eq!(median(vec![40, 30, 20, 10]), 30);
    assert_eq!(median(vec![7]), 7);
    assert_eq!(median(vec![2, 2, 1, 9, 2]), 2);
}

#[test]
fn averages_truncate() {
    let trials = vec![with_counts(1, 0), with_counts(2, 1)];
    let s = summarize(&trials);
    assert_eq!(s.avg_clusters, 1);
    assert_eq!(s.avg_dream_matters, 0);
    assert_eq!(s.median_dream_matters, 1);
    assert_eq!(s.median_clusters, 2);
}

#[test]
fn total_does_not_overflow() {
    assert_eq!(total(&vec![usize::MAX, usize::MAX]), 2 * (usize::MAX as u128));
    assert_eq!(total(&vec![]), 0);
}

#[test]
fn average_cost_prices_both_resources() {
    let trials = vec![with_counts(10, 1), with_counts(20, 2)];
    let s = summarize(&trials);
    let table = CostTable { cluster_cost: 5, dream_matter_cost: 1000 };
    assert_eq!(table.average_cost(&s), Some(1575));
}

#[test]
fn average_cost_reports_overflow() {
    let s = Summary {
        count: 1,
        total_clusters: u128::MAX,
        total_dream_matters: 0,
        avg_clusters: u128::MAX,
        avg_dream_matters: 0,
        median_clusters: 0,
        median_dream_matters: 0,
    };
    let table = CostTable { cluster_cost: 2, dream_matter_cost: 0 };
    assert_eq!(table.average_cost(&s), None);
    let s2 = Summary { total_clusters: u128::MAX - 1, total_dream_matters: 1, ..s };
    let table2 = CostTable { cluster_cost: 1, dream_matter_cost: 2 };
    assert_eq!(table2.average_cost(&s2), None);
}
