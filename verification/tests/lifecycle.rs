use retry_sim::model::{Config, ProduceRequest, Request, RequestState, SimHandler, State};
use retry_sim::stats::Stats;

fn config() -> Config {
    Config {
        backoff: 100,
        latency: 100,
        jitter: 50,
        bucket_size: 2,
        acquire_retry: 2,
        refill_success: 2,
        disable_token_bucket: false,
    }
}

fn worker() -> ProduceRequest {
    ProduceRequest { interval: 1000 }
}

fn sending(target: usize, retry_target: usize) -> Request {
    Request { target, retry_target, state: RequestState::Sending, worker: worker() }
}

#[test]
fn sending_against_up_backend_counts_one_success() {
    let mut state = State::new(config(), vec![true], Stats::new());
    let produced = sending(0, 0).call(5, &mut state);
    assert_eq!(state.stats.get("op_success"), 1);
    assert_eq!(state.stats.get("client_success"), 1);
    assert_eq!(state.stats.get("op_failure"), 0);
    assert_eq!(state.stats.get("client_failure"), 0);
    // The only follow-up is the worker's next tick: no backoff or retry.
    assert_eq!(produced.len(), 1);
    assert_eq!(produced[0].ready_at, 1005);
    assert_eq!(produced[0].handler, SimHandler::Produce(worker()));
}

#[test]
fn disabled_bucket_always_admits_backoff_then_retry() {
    let mut cfg = config();
    cfg.disable_token_bucket = true;
    cfg.bucket_size = 0;
    cfg.acquire_retry = 2;
    let mut state = State::new(cfg, vec![false, true], Stats::new());

    let produced = sending(0, 1).call(10, &mut state);
    assert_eq!(state.stats.get("op_failure"), 1);
    assert_eq!(state.stats.get("client_failure"), 0);
    assert_eq!(produced.len(), 1);
    assert_eq!(produced[0].ready_at, 110);
    let backing_off = match &produced[0].handler {
        SimHandler::Request(r) => {
            assert_eq!(r.state, RequestState::Backoff);
            *r
        },
        SimHandler::Produce(_) => panic!("a failed request must back off, not terminate"),
    };

    let produced = backing_off.call(110, &mut state);
    assert_eq!(produced.len(), 1);
    assert!(110 + 50 <= produced[0].ready_at && produced[0].ready_at < 110 + 150);
    let retrying = match &produced[0].handler {
        SimHandler::Request(r) => {
            assert_eq!(r.state, RequestState::Retrying);
            *r
        },
        SimHandler::Produce(_) => panic!("backoff must lead to a retry"),
    };

    let at = produced[0].ready_at;
    let produced = retrying.call(at, &mut state);
    assert_eq!(state.stats.get("op_success"), 1);
    assert_eq!(state.stats.get("client_success"), 1);
    assert_eq!(produced.len(), 1);
    assert_eq!(produced[0].handler, SimHandler::Produce(worker()));
}

#[test]
fn retry_against_down_backend_counts_client_failure() {
    let mut state = State::new(config(), vec![false], Stats::new());
    let retrying = Request {
        target: 0,
        retry_target: 0,
        state: RequestState::Retrying,
        worker: worker(),
    };
    let produced = retrying.call(20, &mut state);
    assert_eq!(state.stats.get("op_failure"), 1);
    assert_eq!(state.stats.get("client_failure"), 1);
    assert_eq!(produced.len(), 1);
    assert_eq!(produced[0].handler, SimHandler::Produce(worker()));
}

#[test]
fn exhausted_bucket_rejects_further_retry_chains() {
    // Capacity 2 with an admission cost of 2: the first failed request takes
    // the whole bucket, so every further failure is turned away with a
    // client failure and no backoff event until a success refills it.
    let mut state = State::new(config(), vec![false, true], Stats::new());

    let produced = sending(0, 1).call(10, &mut state);
    assert!(matches!(produced[0].handler, SimHandler::Request(_)));
    assert_eq!(state.stats.get("client_failure"), 0);

    let produced = sending(0, 1).call(11, &mut state);
    assert_eq!(state.stats.get("op_failure"), 2);
    assert_eq!(state.stats.get("client_failure"), 1);
    assert!(matches!(produced[0].handler, SimHandler::Produce(_)));

    let produced = sending(0, 1).call(12, &mut state);
    assert_eq!(state.stats.get("client_failure"), 2);
    assert!(matches!(produced[0].handler, SimHandler::Produce(_)));

    // A first-try success releases refill_success (2) tokens: the next
    // failed request is admitted to a backoff again.
    sending(1, 0).call(13, &mut state);
    assert_eq!(state.stats.get("client_success"), 1);
    let produced = sending(0, 1).call(14, &mut state);
    assert_eq!(state.stats.get("client_failure"), 2);
    assert!(matches!(produced[0].handler, SimHandler::Request(_)));
}

#[test]
fn worker_tick_schedules_round_robin_requests() {
    let mut state = State::new(config(), vec![true, true, true], Stats::new());
    let w = worker();

    let produced = w.call(0, &mut state);
    assert_eq!(produced.len(), 1);
    assert!(50 <= produced[0].ready_at && produced[0].ready_at < 150);
    match &produced[0].handler {
        SimHandler::Request(r) => {
            assert_eq!(r.target, 0);
            assert_eq!(r.retry_target, 1);
            assert_eq!(r.state, RequestState::Sending);
            assert_eq!(r.worker, w);
        },
        SimHandler::Produce(_) => panic!("a tick must schedule a request"),
    }
    assert_eq!(state.next_round_robin, 1);

    let produced = w.call(1000, &mut state);
    match &produced[0].handler {
        SimHandler::Request(r) => {
            assert_eq!(r.target, 1);
            assert_eq!(r.retry_target, 2);
        },
        SimHandler::Produce(_) => panic!("a tick must schedule a request"),
    }

    let produced = w.call(2000, &mut state);
    match &produced[0].handler {
        SimHandler::Request(r) => {
            assert_eq!(r.target, 2);
            assert_eq!(r.retry_target, 0);
        },
        SimHandler::Produce(_) => panic!("a tick must schedule a request"),
    }
    assert_eq!(state.next_round_robin, 0);
}

#[test]
fn next_interval_reschedules_the_same_worker() {
    let w = worker();
    let ev = w.next_interval(5);
    assert_eq!(ev.ready_at, 1005);
    assert_eq!(ev.handler, SimHandler::Produce(w));
}

#[test]
fn latency_samples_stay_within_jitter_band() {
    let mut state = State::new(config(), vec![true], Stats::new());
    let mut samples = Vec::new();
    for _ in 0..100 {
        let sample = state.request_latency();
        assert!(50 <= sample && sample < 150);
        samples.push(sample);
    }
    // A hundred uniform draws over a hundred values collide into a single
    // value only with vanishing probability: the sampler really does sample.
    assert!(samples.iter().any(|s| *s != samples[0]));
}
