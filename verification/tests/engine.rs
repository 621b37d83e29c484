use retry_sim::model::{Config, ProduceRequest, Request, RequestState, SimHandler, State};
use retry_sim::sim::{execute, Event};
use retry_sim::stats::Stats;

fn config() -> Config {
    Config {
        backoff: 100,
        latency: 100,
        jitter: 50,
        bucket_size: 2,
        acquire_retry: 2,
        refill_success: 1,
        disable_token_bucket: false,
    }
}

fn sending(target: usize, retry_target: usize, worker: ProduceRequest) -> Request {
    Request { target, retry_target, state: RequestState::Sending, worker }
}

#[test]
fn empty_queue_dispatches_nothing() {
    let mut state = State::new(config(), vec![true], Stats::new());
    execute::<SimHandler>(&mut state, Vec::new(), 100);
    assert_eq!(state.stats.get("op_success"), 0);
    assert_eq!(state.stats.get("op_failure"), 0);
}

#[test]
fn events_dispatch_in_ready_time_order() {
    // Two requests against the one down backend compete for a bucket that
    // can admit only one retry. The later event is pushed first; only when
    // the scheduler pops the earlier event first does the retry fall back to
    // the backend that is up, so a client success betrays the order.
    let worker = ProduceRequest { interval: 100000 };
    let mut state = State::new(config(), vec![false, true], Stats::new());
    let later = Event { ready_at: 10, handler: SimHandler::Request(sending(0, 0, worker)) };
    let earlier = Event { ready_at: 5, handler: SimHandler::Request(sending(0, 1, worker)) };
    execute(&mut state, vec![later, earlier], 500);
    assert_eq!(state.stats.get("client_success"), 1);
    assert_eq!(state.stats.get("client_failure"), 1);
    assert_eq!(state.stats.get("op_success"), 1);
    assert_eq!(state.stats.get("op_failure"), 2);
}

#[test]
fn run_halts_at_first_event_beyond_horizon() {
    // The event at 3 lies within the horizon of 5 and is dispatched; the
    // event at 7 lies beyond it and must be discarded, not drained.
    let worker = ProduceRequest { interval: 1000 };
    let mut state = State::new(config(), vec![true], Stats::new());
    let within = Event { ready_at: 3, handler: SimHandler::Request(sending(0, 0, worker)) };
    let beyond = Event { ready_at: 7, handler: SimHandler::Request(sending(0, 0, worker)) };
    execute(&mut state, vec![within, beyond], 5);
    assert_eq!(state.stats.get("op_success"), 1);
    assert_eq!(state.stats.get("client_success"), 1);
    assert_eq!(state.stats.get("op_failure"), 0);
    assert_eq!(state.stats.get("client_failure"), 0);
}
