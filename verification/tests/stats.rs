use retry_sim::stats::Stats;

#[test]
fn fresh_stats_read_zero() {
    let stats = Stats::new();
    assert_eq!(stats.get("op_success"), 0);
    assert_eq!(stats.get("anything"), 0);
}

#[test]
fn incr_counts_each_name_separately() {
    let mut stats = Stats::new();
    stats.incr("op_success");
    stats.incr("op_success");
    stats.incr("op_failure");
    assert_eq!(stats.get("op_success"), 2);
    assert_eq!(stats.get("op_failure"), 1);
    assert_eq!(stats.get("client_success"), 0);
}

#[test]
fn incr_starts_an_unseen_name_at_one() {
    let mut stats = Stats::new();
    stats.incr("client_failure");
    assert_eq!(stats.get("client_failure"), 1);
}
