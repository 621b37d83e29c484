use retry_sim::model::{run, Config};

fn config(disable_token_bucket: bool) -> Config {
    Config {
        backoff: 100,
        latency: 100,
        jitter: 50,
        bucket_size: 2,
        acquire_retry: 2,
        refill_success: 1,
        disable_token_bucket,
    }
}

#[test]
fn all_up_run_never_amplifies() {
    let stats = run(config(false), vec![true, true, true]);
    let op_total = stats.get("op_success") + stats.get("op_failure");
    let client_total = stats.get("client_success") + stats.get("client_failure");
    assert_eq!(stats.get("op_failure"), 0);
    assert_eq!(stats.get("client_failure"), 0);
    assert!(client_total >= 1);
    assert_eq!(op_total, client_total);
    let amplification = op_total as f64 / client_total as f64;
    assert_eq!(amplification, 1.0);
}

#[test]
fn one_down_backend_with_bucket_disabled_retries_every_failure() {
    let stats = run(config(true), vec![false, true, true]);
    let op_total = stats.get("op_success") + stats.get("op_failure");
    let client_total = stats.get("client_success") + stats.get("client_failure");
    assert!(stats.get("op_failure") >= 1);
    // Every request that hits the down backend is admitted to exactly one
    // retry, and its retry lands on the next backend, which is up.
    assert_eq!(stats.get("client_failure"), 0);
    assert!(stats.get("client_success") >= 1);
    assert_eq!(op_total, client_total + stats.get("op_failure"));
}

#[test]
fn all_down_run_amplifies_without_any_success() {
    let stats = run(config(false), vec![false, false, false]);
    let op_total = stats.get("op_success") + stats.get("op_failure");
    let client_total = stats.get("client_success") + stats.get("client_failure");
    assert_eq!(stats.get("client_success"), 0);
    assert_eq!(stats.get("op_success"), 0);
    assert_eq!(op_total, stats.get("op_failure"));
    assert!(client_total >= 1);
    // The bucket admitted at least the very first retry, so backend load
    // strictly exceeds the client-visible request count.
    assert!(op_total > client_total);
    let amplification = op_total as f64 / client_total as f64;
    assert!(amplification > 1.0);
}

#[test]
fn runs_touch_only_the_four_core_counters() {
    let stats = run(config(false), vec![false, true]);
    assert_eq!(stats.get("op_total"), 0);
    assert_eq!(stats.get("requests"), 0);
    assert_eq!(stats.get(""), 0);
}
