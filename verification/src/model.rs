use crate::sim::{execute, folds, Event, Handler, HandlerClone};
use crate::stats::{bumps, Stats};
use crate::token_bucket::TokenBucket;
use rand::distributions::Distribution;
use rand::rngs::ThreadRng;
use rand::Rng;
use vstd::prelude::*;

verus! {

/// Counted once per backend operation that succeeded.
pub open spec fn op_success_name() -> Seq<char> {
    "op_success"@
}

/// Counted once per backend operation that failed.
pub open spec fn op_failure_name() -> Seq<char> {
    "op_failure"@
}

/// Counted once per request whose client-visible outcome was success.
pub open spec fn client_success_name() -> Seq<char> {
    "client_success"@
}

/// Counted once per request whose client-visible outcome was failure.
pub open spec fn client_failure_name() -> Seq<char> {
    "client_failure"@
}

/// The four counter names are the only ones the simulation increments.
pub open spec fn is_core_name(m: Seq<char>) -> bool {
    ||| m == op_success_name()
    ||| m == op_failure_name()
    ||| m == client_success_name()
    ||| m == client_failure_name()
}

/// Counters that record nothing outside the four core names.
pub open spec fn only_core_names(stats: Stats) -> bool {
    forall|m: Seq<char>| !is_core_name(m) ==> #[trigger] stats.count(m) == 0
}

/// Every backend in the list is down.
pub open spec fn all_down(backends: Seq<bool>) -> bool {
    forall|i: int| 0 <= i < backends.len() ==> !(#[trigger] backends[i])
}

/// The bookkeeping every dispatch preserves about the counters: backend
/// successes and client successes are counted in lockstep, every
/// client-visible failure was preceded by a backend failure, and no success
/// is ever counted while every backend is down.
pub open spec fn counters_consistent(stats: Stats, backends: Seq<bool>) -> bool {
    &&& stats.count(op_success_name()) == stats.count(client_success_name())
    &&& stats.count(op_failure_name()) >= stats.count(client_failure_name())
    &&& (all_down(backends) ==> stats.count(op_success_name()) == 0 && stats.count(
        client_success_name(),
    ) == 0)
}

proof fn lemma_core_names_distinct()
    ensures
        op_success_name() != op_failure_name(),
        op_success_name() != client_success_name(),
        op_success_name() != client_failure_name(),
        op_failure_name() != client_success_name(),
        op_failure_name() != client_failure_name(),
        client_success_name() != client_failure_name(),
{
    reveal_strlit("op_success");
    reveal_strlit("op_failure");
    reveal_strlit("client_success");
    reveal_strlit("client_failure");
    assert(op_success_name()[3] != op_failure_name()[3]);
    assert(client_success_name()[7] != client_failure_name()[7]);
    assert(op_success_name().len() != client_success_name().len());
}

/// A virtual-time instant advanced by a delay, clamped at the far end of the
/// clock instead of wrapping around.
pub open spec fn sat_add_spec(a: u64, b: u64) -> u64 {
    if a + b <= u64::MAX {
        (a + b) as u64
    } else {
        u64::MAX
    }
}

/// Advance a virtual-time instant by a delay, clamping at the far end of the
/// clock instead of wrapping around.
pub fn sat_add(a: u64, b: u64) -> (t: u64)
    ensures
        t == sat_add_spec(a, b),
        t >= a,
        t >= b,
{
    if a <= u64::MAX - b {
        a + b
    } else {
        u64::MAX
    }
}

/// Immutable per-run parameters. Durations are in virtual milliseconds.
#[derive(PartialEq, Eq, Debug, Clone, Copy)]
pub struct Config {
    /// How long a request waits after a failure before its single retry.
    pub backoff: u64,
    /// The mean request latency.
    pub latency: u64,
    /// Half-width of the latency distribution: each request takes a time
    /// drawn uniformly from `[latency - jitter, latency + jitter)`.
    pub jitter: u64,
    /// Capacity of the retry-admission token bucket.
    pub bucket_size: usize,
    /// Tokens a failed request must acquire to be admitted to a retry.
    pub acquire_retry: usize,
    /// Tokens released back into the bucket by each first-try success.
    pub refill_success: usize,
    /// When set, a failed request backs off and retries whether or not the
    /// bucket admitted it (the acquisition is still attempted first).
    pub disable_token_bucket: bool,
}

impl Config {
    /// The latency distribution `[latency - jitter, jitter + latency)` must
    /// be a non-empty range of valid instants.
    pub open spec fn wf(self) -> bool {
        &&& 1 <= self.jitter
        &&& self.jitter <= self.latency
        &&& self.latency + self.jitter <= u64::MAX
    }
}

/// Declares rand's thread-local generator handle so that it can live in a
/// field; the type is opaque here and carries no specification.
#[verifier::external_type_specification]
#[verifier::external_body]
pub struct ExThreadRng(ThreadRng);

/// Relies on rand::thread_rng: a handle to the thread-local generator.
#[verifier::external_body]
fn fresh_rng() -> ThreadRng {
    rand::thread_rng()
}

/// Relies on rand::Rng::gen_range over a half-open integer range: the result
/// is uniformly distributed in `[lo, hi)`. The call panics on an empty
/// range, which the precondition rules out.
#[verifier::external_body]
fn gen_range_usize(rng: &mut ThreadRng, lo: usize, hi: usize) -> (sample: usize)
    requires
        lo < hi,
    ensures
        lo <= sample < hi,
{
    rng.gen_range(lo..hi)
}

/// Relies on rand::distributions::Uniform::from and Distribution::sample:
/// the sample is uniformly distributed in `[lo, hi)`. Uniform::from panics
/// on an empty range, which the precondition rules out.
#[verifier::external_body]
fn sample_uniform_u64(rng: &mut ThreadRng, lo: u64, hi: u64) -> (sample: u64)
    requires
        lo < hi,
    ensures
        lo <= sample < hi,
{
    rand::distributions::Uniform::from(lo..hi).sample(rng)
}

/// The shared simulation state: one instance per scenario run, mutated
/// exclusively by one handler dispatch at a time.
pub struct State {
    /// Source of latency jitter and retry-target offsets.
    pub rng: ThreadRng,
    pub config: Config,
    pub stats: Stats,
    /// Up/down flag per backend index.
    pub backends: Vec<bool>,
    /// Round-robin cursor over backend indices, kept reduced modulo the
    /// backend count: the next request targets exactly this index.
    pub next_round_robin: usize,
    pub token_bucket: TokenBucket,
}

impl State {
    /// What every dispatch preserves: a well-formed configuration, at least
    /// one backend, the cursor in range, a well-formed bucket of the
    /// configured capacity, and counters confined to the four core names.
    pub open spec fn wf(self) -> bool {
        &&& self.config.wf()
        &&& 1 <= self.backends@.len()
        &&& self.next_round_robin < self.backends@.len()
        &&& self.token_bucket.wf()
        &&& self.token_bucket.spec_max() == self.config.bucket_size as nat
        &&& only_core_names(self.stats)
        &&& counters_consistent(self.stats, self.backends@)
    }

    /// Assemble a run's state: the token bucket starts full at the
    /// configured capacity and the round-robin cursor at zero.
    pub fn new(config: Config, backends: Vec<bool>, stats: Stats) -> (state: Self)
        requires
            config.wf(),
            1 <= backends@.len(),
            forall|m: Seq<char>| #[trigger] stats.count(m) == 0,
        ensures
            state.wf(),
            state.config == config,
            state.backends == backends,
            state.stats == stats,
            state.next_round_robin == 0,
            state.token_bucket.spec_current() == config.bucket_size as nat,
            state.token_bucket.spec_max() == config.bucket_size as nat,
    {
        let token_bucket = TokenBucket::new(config.bucket_size);
        Self { rng: fresh_rng(), config, stats, backends, next_round_robin: 0, token_bucket }
    }

    /// Draw one request-latency sample, uniform over
    /// `[latency - jitter, latency + jitter)`. Only the random source
    /// advances; every other field is untouched.
    pub fn request_latency(&mut self) -> (latency: u64)
        requires
            old(self).config.wf(),
        ensures
            old(self).config.latency - old(self).config.jitter <= latency < old(
                self,
            ).config.latency + old(self).config.jitter,
            final(self).config == old(self).config,
            final(self).stats == old(self).stats,
            final(self).backends == old(self).backends,
            final(self).next_round_robin == old(self).next_round_robin,
            final(self).token_bucket == old(self).token_bucket,
    {
        let lo = self.config.latency - self.config.jitter;
        let hi = self.config.latency + self.config.jitter;
        sample_uniform_u64(&mut self.rng, lo, hi)
    }
}

/// Where a request stands in its lifecycle. A request starts `Sending`; a
/// failed request that the bucket admits (or a disabled bucket lets through)
/// moves to `Backoff`, then to `Retrying`; after the one retry resolves the
/// request terminates unconditionally — amplification is bounded at exactly
/// one retry per original request.
#[derive(PartialEq, Eq, Debug, Clone, Copy)]
pub enum RequestState {
    Sending,
    Backoff,
    Retrying,
}

/// The recurring worker: each tick schedules one new request, and the
/// worker's own next tick is scheduled one interval after that request
/// reaches a terminal transition.
#[derive(PartialEq, Eq, Debug, Clone, Copy)]
pub struct ProduceRequest {
    /// Virtual time between consecutive ticks.
    pub interval: u64,
}

/// One in-flight request: the backend it targets, the fallback backend its
/// single retry would target, where it stands in its lifecycle, and the
/// worker that will be rescheduled when it terminates.
#[derive(PartialEq, Eq, Debug, Clone, Copy)]
pub struct Request {
    pub target: usize,
    pub retry_target: usize,
    pub state: RequestState,
    pub worker: ProduceRequest,
}

/// The closed set of handler kinds the simulation dispatches. The scheduler
/// sees them through one uniform `Handler` interface and never needs to know
/// which kind it is invoking.
#[derive(PartialEq, Eq, Debug, Clone, Copy)]
pub enum SimHandler {
    Produce(ProduceRequest),
    Request(Request),
}

impl HandlerClone for ProduceRequest {
    fn clone_handler(&self) -> Self {
        *self
    }
}

impl HandlerClone for Request {
    fn clone_handler(&self) -> Self {
        *self
    }
}

impl HandlerClone for SimHandler {
    fn clone_handler(&self) -> Self {
        *self
    }
}

impl ProduceRequest {
    /// The state transition of one worker tick: only the round-robin cursor
    /// advances (besides the random source); counters, bucket, backends and
    /// configuration are untouched.
    pub open spec fn step(self, pre: State, post: State) -> bool {
        &&& post.config == pre.config
        &&& post.stats == pre.stats
        &&& post.backends == pre.backends
        &&& post.token_bucket == pre.token_bucket
        &&& post.next_round_robin == (pre.next_round_robin + 1) % (pre.backends@.len() as int)
    }

    /// The event that re-runs this worker one interval after `now`.
    pub fn next_interval(&self, now: u64) -> (ev: Event<SimHandler>)
        ensures
            ev.ready_at == sat_add_spec(now, self.interval),
            ev.ready_at >= now,
            ev.handler == SimHandler::Produce(*self),
    {
        let dup = self.clone_handler();
        Event { ready_at: sat_add(now, self.interval), handler: SimHandler::Produce(dup) }
    }

    /// Schedule one new request: pick its target by round-robin, its retry
    /// fallback one past the target, and make it ready one latency sample
    /// after `now`. Advances the round-robin cursor and the random source;
    /// everything else in the state is untouched.
    pub fn request(&self, now: u64, state: &mut State) -> (ev: Event<SimHandler>)
        requires
            old(state).wf(),
        ensures
            final(state).wf(),
            self.step(*old(state), *final(state)),
            ev.ready_at >= now,
            now + old(state).config.latency + old(state).config.jitter <= u64::MAX ==> now + old(
                state,
            ).config.latency - old(state).config.jitter <= ev.ready_at < now + old(
                state,
            ).config.latency + old(state).config.jitter,
            ev.handler == (SimHandler::Request(
                Request {
                    target: old(state).next_round_robin,
                    retry_target: ((old(state).next_round_robin + 1) % (old(
                        state,
                    ).backends@.len() as int)) as usize,
                    state: RequestState::Sending,
                    worker: *self,
                },
            )),
    {
        let target = state.next_round_robin;
        let len = state.backends.len();
        state.next_round_robin = (target + 1) % len;
        let offset: usize = gen_range_usize(&mut state.rng, 0, 1) + 1;
        let retry_target = (target + offset) % len;
        let latency = state.request_latency();
        Event {
            ready_at: sat_add(now, latency),
            handler: SimHandler::Request(
                Request { target, retry_target, state: RequestState::Sending, worker: *self },
            ),
        }
    }

    /// One worker tick: schedule a single new request. The worker is not
    /// rescheduled here — the request it creates reschedules the worker's
    /// next tick when it reaches a terminal transition, so the follow-up
    /// request arrives indirectly via the worker.
    pub fn call(&self, now: u64, state: &mut State) -> (produced: Vec<Event<SimHandler>>)
        requires
            old(state).wf(),
        ensures
            final(state).wf(),
            self.step(*old(state), *final(state)),
            produced@.len() == 1,
            produced@[0].ready_at >= now,
            now + old(state).config.latency + old(state).config.jitter <= u64::MAX ==> now + old(
                state,
            ).config.latency - old(state).config.jitter <= produced@[0].ready_at < now + old(
                state,
            ).config.latency + old(state).config.jitter,
            produced@[0].handler == (SimHandler::Request(
                Request {
                    target: old(state).next_round_robin,
                    retry_target: ((old(state).next_round_robin + 1) % (old(
                        state,
                    ).backends@.len() as int)) as usize,
                    state: RequestState::Sending,
                    worker: *self,
                },
            )),
    {
        let ev = self.request(now, state);
        let mut produced: Vec<Event<SimHandler>> = Vec::new();
        produced.push(ev);
        produced
    }
}

impl Request {
    /// Both backend indices this request may consult are in range.
    pub open spec fn in_range(self, state: State) -> bool {
        &&& self.target < state.backends@.len()
        &&& self.retry_target < state.backends@.len()
    }

    /// The state transition of one request dispatch, by lifecycle stage:
    /// which counters are bumped and how the bucket moves. The backend
    /// list, the configuration and the round-robin cursor are untouched.
    pub open spec fn step(self, pre: State, post: State) -> bool {
        &&& post.config == pre.config
        &&& post.backends == pre.backends
        &&& post.next_round_robin == pre.next_round_robin
        &&& self.state == RequestState::Sending && pre.backends@[self.target as int] ==> {
            &&& bumps(post.stats, pre.stats, set![op_success_name(), client_success_name()])
            &&& post.token_bucket.released_by(pre.token_bucket, pre.config.refill_success as nat)
        }
        &&& self.state == RequestState::Sending && !pre.backends@[self.target as int] && (
        pre.config.acquire_retry as nat <= pre.token_bucket.spec_current()) ==> {
            &&& post.token_bucket.spec_max() == pre.token_bucket.spec_max()
            &&& post.token_bucket.spec_current() == pre.token_bucket.spec_current()
                - pre.config.acquire_retry as nat
        }
        &&& self.state == RequestState::Sending && !pre.backends@[self.target as int] && !(
        pre.config.acquire_retry as nat <= pre.token_bucket.spec_current())
            ==> post.token_bucket == pre.token_bucket
        &&& self.state == RequestState::Sending && !pre.backends@[self.target as int] && ((
        pre.config.acquire_retry as nat <= pre.token_bucket.spec_current())
            || pre.config.disable_token_bucket) ==> bumps(
            post.stats,
            pre.stats,
            set![op_failure_name()],
        )
        &&& self.state == RequestState::Sending && !pre.backends@[self.target as int] && !(
        pre.config.acquire_retry as nat <= pre.token_bucket.spec_current())
            && !pre.config.disable_token_bucket ==> bumps(
            post.stats,
            pre.stats,
            set![op_failure_name(), client_failure_name()],
        )
        &&& self.state == RequestState::Backoff ==> {
            &&& post.stats == pre.stats
            &&& post.token_bucket == pre.token_bucket
        }
        &&& self.state == RequestState::Retrying ==> {
            &&& post.token_bucket == pre.token_bucket
            &&& bumps(
                post.stats,
                pre.stats,
                if pre.backends@[self.retry_target as int] {
                    set![op_success_name(), client_success_name()]
                } else {
                    set![op_failure_name(), client_failure_name()]
                },
            )
        }
    }

    /// Dispatch this request once, at virtual time `now`.
    ///
    /// `Sending` against an up backend counts one backend and one client
    /// success, releases the configured refill into the bucket, and
    /// terminates. `Sending` against a down backend counts one backend
    /// failure and then attempts to acquire the configured retry cost — the
    /// acquisition is attempted even when the bucket is disabled — and moves
    /// to `Backoff` if it acquired or the bucket is disabled; otherwise the
    /// request counts one client failure and terminates. `Backoff`
    /// unconditionally becomes `Retrying` after one latency sample.
    /// `Retrying` consults the fallback backend, counts one backend plus one
    /// client outcome, and terminates; a retry success does not refill the
    /// bucket. Every terminal transition reschedules the worker's next tick
    /// one interval after `now`.
    pub fn call(&self, now: u64, state: &mut State) -> (produced: Vec<Event<SimHandler>>)
        requires
            old(state).wf(),
            self.in_range(*old(state)),
        ensures
            final(state).wf(),
            self.step(*old(state), *final(state)),
            self.state == RequestState::Sending && old(state).backends@[self.target as int] ==> {
                &&& produced@.len() == 1
                &&& produced@[0].handler == SimHandler::Produce(self.worker)
                &&& produced@[0].ready_at == sat_add_spec(now, self.worker.interval)
            },
            self.state == RequestState::Sending && !old(state).backends@[self.target as int] && ((
            old(state).config.acquire_retry as nat <= old(state).token_bucket.spec_current()) || old(
                state,
            ).config.disable_token_bucket) ==> {
                &&& produced@.len() == 1
                &&& produced@[0].handler == (SimHandler::Request(
                    Request {
                        target: self.target,
                        retry_target: self.retry_target,
                        state: RequestState::Backoff,
                        worker: self.worker,
                    },
                ))
                &&& produced@[0].ready_at == sat_add_spec(now, old(state).config.backoff)
            },
            self.state == RequestState::Sending && !old(state).backends@[self.target as int] && !(
            old(state).config.acquire_retry as nat <= old(state).token_bucket.spec_current())
                && !old(state).config.disable_token_bucket ==> {
                &&& produced@.len() == 1
                &&& produced@[0].handler == SimHandler::Produce(self.worker)
                &&& produced@[0].ready_at == sat_add_spec(now, self.worker.interval)
            },
            self.state == RequestState::Backoff ==> {
                &&& produced@.len() == 1
                &&& produced@[0].handler == (SimHandler::Request(
                    Request {
                        target: self.target,
                        retry_target: self.retry_target,
                        state: RequestState::Retrying,
                        worker: self.worker,
                    },
                ))
                &&& produced@[0].ready_at >= now
                &&& (now + old(state).config.latency + old(state).config.jitter <= u64::MAX
                    ==> now + old(state).config.latency - old(state).config.jitter
                        <= produced@[0].ready_at < now + old(state).config.latency + old(
                        state,
                    ).config.jitter)
            },
            self.state == RequestState::Retrying ==> {
                &&& produced@.len() == 1
                &&& produced@[0].handler == SimHandler::Produce(self.worker)
                &&& produced@[0].ready_at == sat_add_spec(now, self.worker.interval)
            },
            forall|i: int| 0 <= i < produced@.len() ==> #[trigger] produced@[i].ready_at >= now,
    {
        proof {
            lemma_core_names_distinct();
        }
        match self.state {
            RequestState::Sending => {
                if state.backends[self.target] {
                    state.stats.incr("op_success");
                    state.stats.incr("client_success");
                    let refill = state.config.refill_success;
                    state.token_bucket.release(refill);
                    let mut produced: Vec<Event<SimHandler>> = Vec::new();
                    produced.push(self.worker.next_interval(now));
                    return produced;
                }
                state.stats.incr("op_failure");
                let cost = state.config.acquire_retry;
                let acquired = state.token_bucket.acquire(cost);
                if acquired || state.config.disable_token_bucket {
                    let mut backing_off = self.clone_handler();
                    backing_off.state = RequestState::Backoff;
                    let backoff = state.config.backoff;
                    let mut produced: Vec<Event<SimHandler>> = Vec::new();
                    produced.push(
                        Event {
                            ready_at: sat_add(now, backoff),
                            handler: SimHandler::Request(backing_off),
                        },
                    );
                    return produced;
                }
                state.stats.incr("client_failure");
                let mut produced: Vec<Event<SimHandler>> = Vec::new();
                produced.push(self.worker.next_interval(now));
                produced
            },
            RequestState::Backoff => {
                let mut retrying = self.clone_handler();
                retrying.state = RequestState::Retrying;
                let latency = state.request_latency();
                let mut produced: Vec<Event<SimHandler>> = Vec::new();
                produced.push(
                    Event { ready_at: sat_add(now, latency), handler: SimHandler::Request(retrying) },
                );
                produced
            },
            RequestState::Retrying => {
                if state.backends[self.retry_target] {
                    state.stats.incr("op_success");
                    state.stats.incr("client_success");
                } else {
                    state.stats.incr("op_failure");
                    state.stats.incr("client_failure");
                }
                let mut produced: Vec<Event<SimHandler>> = Vec::new();
                produced.push(self.worker.next_interval(now));
                produced
            },
        }
    }
}

/// Virtual-time horizon of one scenario run, in milliseconds.
pub const RUN_HORIZON: u64 = 200000;

/// Virtual time between worker ticks, in milliseconds.
pub const TICK_INTERVAL: u64 = 1000;

/// Every dispatch preserves the backend availability flags, so a whole
/// dispatch log does too.
proof fn lemma_folds_preserve_backends(log: Seq<(u64, SimHandler)>, pre: State, post: State)
    requires
        folds(log, pre, post),
    ensures
        post.backends == pre.backends,
    decreases log.len(),
{
    if log.len() != 0 {
        let mid = choose|m: State|
            #[trigger] log[0].1.step(log[0].0, pre, m) && folds(log.drop_first(), m, post);
        lemma_folds_preserve_backends(log.drop_first(), mid, post);
    }
}

/// One scenario run: build a fresh state over the given backend
/// availability flags, seed the scheduler with a single worker tick at
/// virtual time zero, run to the horizon, and read back the accumulated
/// counters. The four core names are the only counters a run ever
/// increments; backend successes and client successes are counted in
/// lockstep; every client failure was preceded by a backend failure, so
/// backend operations never undercount client outcomes; and a run over
/// backends that are all down counts no success of either kind.
pub fn run(config: Config, backends: Vec<bool>) -> (stats: Stats)
    requires
        config.wf(),
        1 <= backends@.len(),
    ensures
        only_core_names(stats),
        counters_consistent(stats, backends@),
        stats.count(op_success_name()) + stats.count(op_failure_name()) >= stats.count(
            client_success_name(),
        ) + stats.count(client_failure_name()),
        all_down(backends@) ==> stats.count(op_success_name()) == 0 && stats.count(
            client_success_name(),
        ) == 0,
{
    let stats = Stats::new();
    let mut state = State::new(config, backends, stats);
    let ghost seeded = state;
    let start: u64 = 0;
    let worker = Event {
        ready_at: start,
        handler: SimHandler::Produce(ProduceRequest { interval: TICK_INTERVAL }),
    };
    let mut init_events: Vec<Event<SimHandler>> = Vec::new();
    init_events.push(worker);
    let dispatched = execute(&mut state, init_events, RUN_HORIZON);
    proof {
        lemma_folds_preserve_backends(dispatched@, seeded, state);
    }
    state.stats
}

impl Handler for SimHandler {
    type State = State;

    /// What every dispatch preserves about the shared state.
    open spec fn inv(state: State) -> bool {
        state.wf()
    }

    /// A worker fits any state; a request fits a state whose backend list
    /// covers both indices it carries.
    open spec fn valid(&self, state: State) -> bool {
        match *self {
            SimHandler::Produce(_) => true,
            SimHandler::Request(r) => r.in_range(state),
        }
    }

    /// One dispatch's state transition, by handler kind.
    open spec fn step(&self, now: u64, pre: State, post: State) -> bool {
        match *self {
            SimHandler::Produce(p) => p.step(pre, post),
            SimHandler::Request(r) => r.step(pre, post),
        }
    }

    /// Uniform dispatch over the closed set of handler kinds.
    fn call(&self, now: u64, state: &mut State) -> (produced: Vec<Event<SimHandler>>) {
        let produced = match self {
            SimHandler::Produce(p) => p.call(now, state),
            SimHandler::Request(r) => r.call(now, state),
        };
        proof {
            assert forall|h: SimHandler| h.valid(*old(state)) implies h.valid(*state) by {
                assert(state.backends@.len() == old(state).backends@.len());
            }
        }
        produced
    }
}

} // verus!


