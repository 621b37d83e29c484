use vstd::prelude::*;

verus! {

/// Duplication contract for handlers. A single logical recurring task hands
/// an independent copy of itself to the next scheduled event while the
/// current instance is consumed by the dispatch that is running.
pub trait HandlerClone: Sized {
    /// Produce an independent copy of this handler.
    fn clone_handler(&self) -> (dup: Self)
        ensures
            dup == *self,
    ;
}

/// A polymorphic event handler: given the current virtual time and exclusive
/// access to the shared simulation state, handle one dispatch and produce
/// zero or more follow-up events.
pub trait Handler: HandlerClone {
    /// The shared simulation state that every dispatch may read and mutate.
    type State;

    /// The property of the shared state that every dispatch preserves, so
    /// that the scheduler can carry it across the whole run.
    spec fn inv(state: Self::State) -> bool;

    /// Whether this handler fits the state it will eventually be dispatched
    /// against (for instance, that every index it carries is in range).
    /// Dispatching must keep every fitting handler fitting, since a queued
    /// handler may be dispatched long after it was scheduled.
    spec fn valid(&self, state: Self::State) -> bool;

    /// The transition relation of one dispatch: how a state this handler is
    /// invoked on at virtual time `now` relates to the state it leaves
    /// behind. `call` is bound to it, and the scheduler folds it over the
    /// whole dispatch log, so a run's final state is pinned to the
    /// dispatches that really happened.
    spec fn step(&self, now: u64, pre: Self::State, post: Self::State) -> bool;

    /// Handle one dispatch at virtual time `now`. Every produced event must
    /// be ready no earlier than `now`: a handler that scheduled an event in
    /// the past would break the engine's ordering invariant, so that is
    /// ruled out by contract. Every produced handler must fit the state the
    /// dispatch leaves behind, and the dispatch must not unfit any handler
    /// that already fit.
    fn call(&self, now: u64, state: &mut Self::State) -> (produced: Vec<Event<Self>>)
        requires
            Self::inv(*old(state)),
            self.valid(*old(state)),
        ensures
            Self::inv(*final(state)),
            forall|i: int|
                0 <= i < produced@.len() ==> #[trigger] produced@[i].ready_at >= now,
            forall|i: int|
                0 <= i < produced@.len() ==> (#[trigger] produced@[i]).handler.valid(
                    *final(state),
                ),
            forall|h: Self| h.valid(*old(state)) ==> #[trigger] h.valid(*final(state)),
            self.step(now, *old(state), *final(state)),
    ;
}

/// The final state of a dispatch sequence: some chain of intermediate
/// states links `pre` to `post`, one `step` of the logged handler at the
/// logged time for each dispatch. An empty log leaves the state untouched.
pub open spec fn folds<H: Handler>(log: Seq<(u64, H)>, pre: H::State, post: H::State) -> bool
    decreases log.len(),
{
    if log.len() == 0 {
        post == pre
    } else {
        exists|mid: H::State|
            #[trigger] log[0].1.step(log[0].0, pre, mid) && folds(log.drop_first(), mid, post)
    }
}

proof fn lemma_folds_snoc<H: Handler>(
    log: Seq<(u64, H)>,
    pre: H::State,
    mid: H::State,
    e: (u64, H),
    post: H::State,
)
    requires
        folds(log, pre, mid),
        e.1.step(e.0, mid, post),
    ensures
        folds(log.push(e), pre, post),
    decreases log.len(),
{
    if log.len() == 0 {
        assert(log.push(e)[0] == e);
        assert(log.push(e).drop_first() =~= Seq::<(u64, H)>::empty());
        assert(e.1.step(e.0, pre, post) && folds(log.push(e).drop_first(), post, post));
    } else {
        let first_mid = choose|m: H::State|
            #[trigger] log[0].1.step(log[0].0, pre, m) && folds(log.drop_first(), m, mid);
        lemma_folds_snoc(log.drop_first(), first_mid, mid, e, post);
        assert(log.push(e)[0] == log[0]);
        assert(log.push(e).drop_first() =~= log.drop_first().push(e));
        assert(log.push(e)[0].1.step(log.push(e)[0].0, pre, first_mid) && folds(
            log.push(e).drop_first(),
            first_mid,
            post,
        ));
    }
}

/// Whether `ev` occurs in a queue of pending events.
pub open spec fn queued<H: Handler>(queue: Seq<Event<H>>, ev: Event<H>) -> bool {
    exists|j: int| 0 <= j < queue.len() && queue[j] == ev
}

/// Whether a dispatch of `ev` — its handler, invoked at its ready-time —
/// occurs in a dispatch log.
pub open spec fn logged<H: Handler>(log: Seq<(u64, H)>, ev: Event<H>) -> bool {
    exists|k: int| 0 <= k < log.len() && log[k] == (ev.ready_at, ev.handler)
}

/// A pending unit of work: a handler to invoke once virtual time reaches
/// `ready_at`. The scheduler exclusively owns all queued events; a popped
/// event is consumed by its own dispatch.
pub struct Event<H: Handler> {
    pub ready_at: u64,
    pub handler: H,
}

/// Index of an event with the smallest ready-time in a non-empty queue.
fn earliest_index<H: Handler>(queue: &Vec<Event<H>>) -> (idx: usize)
    requires
        queue@.len() > 0,
    ensures
        idx < queue@.len(),
        forall|j: int|
            0 <= j < queue@.len()
                ==> queue@[idx as int].ready_at <= #[trigger] queue@[j].ready_at,
{
    let mut best: usize = 0;
    let mut i: usize = 1;
    while i < queue.len()
        invariant
            queue@.len() > 0,
            best < i,
            1 <= i <= queue@.len(),
            forall|j: int|
                0 <= j < i ==> queue@[best as int].ready_at <= #[trigger] queue@[j].ready_at,
        decreases queue@.len() - i,
    {
        if queue[i].ready_at < queue[best].ready_at {
            best = i;
        }
        i = i + 1;
    }
    best
}

/// The virtual-time event loop. Starting from `init_events`, repeatedly pop
/// an event with the earliest ready-time and, unless its ready-time exceeds
/// `finish_at`, invoke its handler and enqueue whatever events the handler
/// produced. The run ends when the queue is empty, or the moment the
/// earliest pending event lies beyond `finish_at` — that event and all
/// still-queued events are then discarded, not drained.
///
/// The result is the (ghost) log of the dispatches that really happened,
/// each entry the ready-time and the handler invoked at it. The log is
/// non-decreasing in ready-time — events are dispatched in ready-time order
/// — and never reaches past `finish_at`; it is empty exactly when every
/// initial event lies beyond `finish_at`, and then the state is returned
/// untouched. The final state is the fold of the logged dispatches' `step`
/// relation over the initial state: what the log says happened is what
/// happened to the state. And every initial event within the horizon shows
/// up in the log — none is silently dropped — unless the run stopped on the
/// dispatch budget below, which no feasible run reaches.
///
/// Handlers may keep scheduling follow-up work forever, so the loop carries
/// a dispatch budget to make its termination provable: a run stops once
/// `u64::MAX` events have been dispatched. No feasible run comes anywhere
/// near that many dispatches.
pub fn execute<H: Handler>(
    state: &mut H::State,
    init_events: Vec<Event<H>>,
    finish_at: u64,
) -> (dispatched: Ghost<Seq<(u64, H)>>)
    requires
        H::inv(*old(state)),
        forall|i: int|
            0 <= i < init_events@.len() ==> (#[trigger] init_events@[i]).handler.valid(
                *old(state),
            ),
    ensures
        H::inv(*final(state)),
        folds(dispatched@, *old(state), *final(state)),
        dispatched@.len() == 0 ==> *final(state) == *old(state),
        forall|i: int, j: int|
            #![trigger dispatched@[i], dispatched@[j]]
            0 <= i <= j < dispatched@.len() ==> dispatched@[i].0 <= dispatched@[j].0,
        forall|i: int| 0 <= i < dispatched@.len() ==> (#[trigger] dispatched@[i]).0 <= finish_at,
        dispatched@.len() == 0 <==> forall|i: int|
            0 <= i < init_events@.len() ==> (#[trigger] init_events@[i]).ready_at > finish_at,
        dispatched@.len() <= u64::MAX ==> forall|i: int|
            0 <= i < init_events@.len() && (#[trigger] init_events@[i]).ready_at <= finish_at
                ==> logged(dispatched@, init_events@[i]),
{
    let mut queue: Vec<Event<H>> = init_events;
    let ghost s0 = *state;
    let ghost mut log: Seq<(u64, H)> = Seq::empty();
    let mut budget: u64 = u64::MAX;
    loop
        invariant_except_break
            log.len() == u64::MAX - budget,
        invariant
            H::inv(*state),
            forall|j: int| 0 <= j < queue@.len() ==> (#[trigger] queue@[j]).handler.valid(*state),
            folds(log, s0, *state),
            forall|i: int, j: int|
                #![trigger log[i], log[j]]
                0 <= i <= j < log.len() ==> log[i].0 <= log[j].0,
            forall|i: int| 0 <= i < log.len() ==> (#[trigger] log[i]).0 <= finish_at,
            forall|i: int, j: int|
                #![trigger log[i], queue@[j]]
                0 <= i < log.len() && 0 <= j < queue@.len() ==> log[i].0 <= queue@[j].ready_at,
            log.len() == 0 ==> queue@ == init_events@ && *state == s0,
            log.len() != 0 ==> exists|i: int|
                0 <= i < init_events@.len() && (#[trigger] init_events@[i]).ready_at <= finish_at,
            forall|i: int|
                0 <= i < init_events@.len() ==> queued(queue@, #[trigger] init_events@[i])
                    || logged(log, init_events@[i]),
        ensures
            H::inv(*state),
            folds(log, s0, *state),
            forall|i: int, j: int|
                #![trigger log[i], log[j]]
                0 <= i <= j < log.len() ==> log[i].0 <= log[j].0,
            forall|i: int| 0 <= i < log.len() ==> (#[trigger] log[i]).0 <= finish_at,
            log.len() == 0 ==> *state == s0,
            log.len() == 0 ==> forall|i: int|
                0 <= i < init_events@.len() ==> (#[trigger] init_events@[i]).ready_at > finish_at,
            log.len() != 0 ==> exists|i: int|
                0 <= i < init_events@.len() && (#[trigger] init_events@[i]).ready_at <= finish_at,
            log.len() <= u64::MAX ==> forall|i: int|
                0 <= i < init_events@.len() && (#[trigger] init_events@[i]).ready_at <= finish_at
                    ==> logged(log, init_events@[i]),
        decreases budget,
    {
        if queue.len() == 0 {
            break ;
        }
        let idx = earliest_index(&queue);
        if queue[idx].ready_at > finish_at {
            break ;
        }
        let ghost q_pre = queue@;
        let event = queue.remove(idx);
        let now = event.ready_at;
        proof {
            if log.len() == 0 {
                assert(init_events@[idx as int].ready_at <= finish_at);
            }
        }
        let ghost pre_dispatch = *state;
        let mut produced = event.handler.call(now, state);
        proof {
            lemma_folds_snoc(log, s0, pre_dispatch, (now, event.handler), *state);
            let log_pre = log;
            log = log.push((now, event.handler));
            assert forall|i: int|
                0 <= i < init_events@.len() implies queued(queue@, #[trigger] init_events@[i])
                || logged(log, init_events@[i]) by {
                let ev = init_events@[i];
                if queued(q_pre, ev) {
                    let j = choose|j: int| 0 <= j < q_pre.len() && q_pre[j] == ev;
                    if j == idx {
                        assert(log[log.len() - 1] == (ev.ready_at, ev.handler));
                    } else if j < idx {
                        assert(queue@[j] == ev);
                    } else {
                        assert(queue@[j - 1] == ev);
                    }
                } else {
                    let k = choose|k: int| 0 <= k < log_pre.len() && log_pre[k] == (
                        ev.ready_at,
                        ev.handler,
                    );
                    assert(log[k] == (ev.ready_at, ev.handler));
                }
            }
        }
        while produced.len() > 0
            invariant
                H::inv(*state),
                forall|j: int|
                    0 <= j < queue@.len() ==> (#[trigger] queue@[j]).handler.valid(*state),
                forall|j: int|
                    0 <= j < produced@.len() ==> (#[trigger] produced@[j]).handler.valid(*state),
                folds(log, s0, *state),
                forall|i: int, j: int|
                    #![trigger log[i], log[j]]
                    0 <= i <= j < log.len() ==> log[i].0 <= log[j].0,
                forall|i: int| 0 <= i < log.len() ==> (#[trigger] log[i]).0 <= finish_at,
                forall|i: int, j: int|
                    #![trigger log[i], queue@[j]]
                    0 <= i < log.len() && 0 <= j < queue@.len() ==> log[i].0
                        <= queue@[j].ready_at,
                forall|i: int, j: int|
                    #![trigger log[i], produced@[j]]
                    0 <= i < log.len() && 0 <= j < produced@.len() ==> log[i].0
                        <= produced@[j].ready_at,
                log.len() != 0,
                exists|i: int|
                    0 <= i < init_events@.len() && (#[trigger] init_events@[i]).ready_at
                        <= finish_at,
                forall|i: int|
                    0 <= i < init_events@.len() ==> queued(queue@, #[trigger] init_events@[i])
                        || logged(log, init_events@[i]),
            decreases produced@.len(),
        {
            let ghost q_grow = queue@;
            let e = produced.pop().unwrap();
            queue.push(e);
            proof {
                assert forall|i: int|
                    0 <= i < init_events@.len() implies queued(queue@, #[trigger] init_events@[i])
                    || logged(log, init_events@[i]) by {
                    let ev = init_events@[i];
                    if queued(q_grow, ev) {
                        let j = choose|j: int| 0 <= j < q_grow.len() && q_grow[j] == ev;
                        assert(queue@[j] == ev);
                    }
                }
            }
        }
        if budget == 0 {
            break ;
        }
        budget = budget - 1;
    }
    Ghost(log)
}

} // verus!
