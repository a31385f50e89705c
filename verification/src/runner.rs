//! The runner: the generic driver that owns one reactor and executes the
//! event/effect loop.
//!
//! Events are dispatched strictly one at a time against the single
//! authoritative reactor state: concurrency exists only between the
//! execution of effects, never in state mutation.  The runner owns the
//! pseudo-random source position for its reactor, threads it into every
//! dispatch, and tags each requested effect with an id before handing it
//! out for execution.

use vstd::prelude::*;
use crate::components::StorageComponent;
use crate::effect::{execute_effect, Effect, ScheduledEffect};
use crate::error::Error;
use crate::event::{ContractRuntimeEvent, Event};
use crate::reactor::{InitializerReactor, Reactor, ReactorModel};
use crate::rng::{chacha_stream, NodeRng};
use crate::types::ChainSetup;
use vstd::pervasive::unreached;

verus! {

/// `x + n`, saturating at the largest counter value.
pub open spec fn spec_sat_add(x: u64, n: nat) -> u64 {
    if x as nat + n <= u64::MAX as nat {
        (x as nat + n) as u64
    } else {
        u64::MAX
    }
}

/// `x - 1`, saturating at zero.
pub open spec fn spec_sat_dec(x: u64) -> u64 {
    if x == 0 {
        0
    } else {
        (x - 1) as u64
    }
}

/// The effects of one dispatch, tagged with consecutive ids starting at
/// `start`.
pub open spec fn spec_assign_ids(effects: Seq<Effect>, start: u64) -> Seq<ScheduledEffect> {
    Seq::new(effects.len(), |i: int| ScheduledEffect {
        id: spec_sat_add(start, i as nat),
        effect: effects[i],
    })
}

/// Spec-level model of a runner.
pub struct RunnerModel {
    pub reactor: ReactorModel,
    pub queue: Seq<Event>,
    pub next_effect_id: u64,
    pub in_flight: u64,
    pub halted: bool,
    pub fatal: Option<Error>,
    /// Every event ever submitted, in availability order.
    pub submitted: Seq<Event>,
    /// Every event dispatched so far, in dispatch order.
    pub dispatched: Seq<Event>,
}

impl RunnerModel {
    /// The queue invariant: what was dispatched, followed by what is still
    /// queued, is exactly what was submitted — no event is lost, duplicated
    /// or reordered.
    pub open spec fn wf(&self) -> bool {
        &&& self.dispatched + self.queue == self.submitted
        &&& self.reactor.wf()
    }

    /// The two runners behave identically when these fields agree; the
    /// ghost history fields play no part in execution.
    pub open spec fn obs_eq(a: Self, b: Self) -> bool {
        &&& a.reactor == b.reactor
        &&& a.queue == b.queue
        &&& a.next_effect_id == b.next_effect_id
        &&& a.in_flight == b.in_flight
        &&& a.halted == b.halted
        &&& a.fatal == b.fatal
    }

    /// How many pseudo-random values one step of `pre` draws.
    pub open spec fn spec_step_draws(pre: Self) -> nat {
        if !pre.halted && pre.queue.len() > 0 && pre.reactor.spec_draws(pre.queue[0]) {
            1nat
        } else {
            0nat
        }
    }

    /// What one step of the runner does: nothing if halted or quiescent;
    /// otherwise the head event is dispatched, the requested effects are
    /// tagged with ids, and a fatal error halts the runner and is recorded.
    pub open spec fn spec_step(pre: Self, nonce: u64) -> (Self, Option<Seq<ScheduledEffect>>) {
        if pre.halted || pre.queue.len() == 0 {
            (pre, None)
        } else {
            let event = pre.queue[0];
            let (reactor2, res) = ReactorModel::spec_dispatch(pre.reactor, event, nonce);
            let base = RunnerModel {
                reactor: reactor2,
                queue: pre.queue.drop_first(),
                dispatched: pre.dispatched.push(event),
                ..pre
            };
            match res {
                Err(e) => (
                    RunnerModel { halted: true, fatal: Some(e), ..base },
                    Some(seq![]),
                ),
                Ok(effects) => (
                    RunnerModel {
                        next_effect_id: spec_sat_add(pre.next_effect_id, effects.len()),
                        in_flight: spec_sat_add(pre.in_flight, effects.len()),
                        halted: event matches Event::Control(_),
                        ..base
                    },
                    Some(spec_assign_ids(effects, pre.next_effect_id)),
                ),
            }
        }
    }

    /// `n` consecutive steps, with the pseudo-random stream threaded
    /// through; yields the final runner, the final stream position and the
    /// concatenation of all effect batches produced.
    pub open spec fn spec_run_n(pre: Self, seed: Seq<u8>, drawn: nat, n: nat) -> (
        Self,
        nat,
        Seq<ScheduledEffect>,
    )
        decreases n,
    {
        if n == 0 {
            (pre, drawn, seq![])
        } else {
            let nonce = chacha_stream(seed, drawn);
            let drawn2 = drawn + Self::spec_step_draws(pre);
            let (post, out) = Self::spec_step(pre, nonce);
            let (fin, drawn_fin, rest) = Self::spec_run_n(post, seed, drawn2, (n - 1) as nat);
            (
                fin,
                drawn_fin,
                (match out {
                    Some(s) => s,
                    None => seq![],
                }) + rest,
            )
        }
    }
}

/// The runner: one reactor, its event queue, and the bookkeeping of the
/// effects in flight.
pub struct Runner {
    pub reactor: Reactor,
    pub queue: Vec<Event>,
    pub next_effect_id: u64,
    pub in_flight: u64,
    pub halted: bool,
    pub fatal: Option<Error>,
    pub submitted: Ghost<Seq<Event>>,
    pub dispatched: Ghost<Seq<Event>>,
}

impl View for Runner {
    type V = RunnerModel;

    open spec fn view(&self) -> RunnerModel {
        RunnerModel {
            reactor: self.reactor@,
            queue: self.queue@,
            next_effect_id: self.next_effect_id,
            in_flight: self.in_flight,
            halted: self.halted,
            fatal: self.fatal,
            submitted: self.submitted@,
            dispatched: self.dispatched@,
        }
    }
}

impl Runner {
    /// Builds a runner over the initializer reactor.  Construction implies
    /// the first unit of work: the commencement event is already queued.
    pub fn new_initializer(setup: ChainSetup, storage: StorageComponent, peers: Vec<u64>) -> (r:
        Runner)
        requires
            storage.wf(),
        ensures
            r@.wf(),
            r@.reactor matches ReactorModel::Initializer(m) && m.setup == setup && m.storage
                == storage@ && m.progress is Pending && m.outcome is None && m.network.peers
                == peers@,
            r@.queue == seq![
                Event::ContractRuntime(ContractRuntimeEvent::Commence),
            ],
            r@.submitted == r@.queue,
            r@.dispatched == Seq::<Event>::empty(),
            r@.next_effect_id == 0 && r@.in_flight == 0,
            !r@.halted && r@.fatal is None,
    {
        let reactor = Reactor::Initializer(InitializerReactor::new(setup, storage, peers));
        let mut queue: Vec<Event> = Vec::new();
        queue.push(Event::ContractRuntime(ContractRuntimeEvent::Commence));
        let ghost submitted0: Seq<Event> = seq![
            Event::ContractRuntime(ContractRuntimeEvent::Commence),
        ];
        let r = Runner {
            reactor,
            queue,
            next_effect_id: 0,
            in_flight: 0,
            halted: false,
            fatal: None,
            submitted: Ghost(submitted0),
            dispatched: Ghost(Seq::empty()),
        };
        proof {
            assert(r@.dispatched + r@.queue =~= r@.submitted);
            assert(r@.queue =~= seq![Event::ContractRuntime(ContractRuntimeEvent::Commence)]);
        }
        r
    }

    /// Builds a runner over an already constructed reactor (used for the
    /// validator phase), with an empty queue.
    pub fn new_with_reactor(reactor: Reactor) -> (r: Runner)
        requires
            reactor@.wf(),
        ensures
            r@.wf(),
            r@.reactor == reactor@,
            r@.queue == Seq::<Event>::empty(),
            r@.submitted == Seq::<Event>::empty(),
            r@.dispatched == Seq::<Event>::empty(),
            r@.next_effect_id == 0 && r@.in_flight == 0,
            !r@.halted && r@.fatal is None,
    {
        let r = Runner {
            reactor,
            queue: Vec::new(),
            next_effect_id: 0,
            in_flight: 0,
            halted: false,
            fatal: None,
            submitted: Ghost(Seq::empty()),
            dispatched: Ghost(Seq::empty()),
        };
        proof {
            assert(r@.dispatched + r@.queue =~= r@.submitted);
        }
        r
    }

    /// Submits an event from outside (a peer message, a timer, a control
    /// signal).  It joins the end of the queue: availability order is
    /// submission order.
    pub fn enqueue(&mut self, event: Event)
        requires
            old(self)@.wf(),
        ensures
            final(self)@.wf(),
            final(self)@ == (RunnerModel {
                queue: old(self)@.queue.push(event),
                submitted: old(self)@.submitted.push(event),
                ..old(self)@
            }),
    {
        self.queue.push(event);
        proof {
            self.submitted@ = self.submitted@.push(event);
            assert(self@.dispatched + self@.queue =~= self@.submitted);
        }
    }

    /// Hands the runner the completion event of an executed effect: the
    /// effect leaves the in-flight set and its completion joins the queue.
    pub fn enqueue_completion(&mut self, event: Event)
        requires
            old(self)@.wf(),
        ensures
            final(self)@.wf(),
            final(self)@ == (RunnerModel {
                queue: old(self)@.queue.push(event),
                submitted: old(self)@.submitted.push(event),
                in_flight: spec_sat_dec(old(self)@.in_flight),
                ..old(self)@
            }),
    {
        if self.in_flight > 0 {
            self.in_flight = self.in_flight - 1;
        }
        self.queue.push(event);
        proof {
            self.submitted@ = self.submitted@.push(event);
            assert(self@.dispatched + self@.queue =~= self@.submitted);
        }
    }

    /// One turn of the event loop: pull the next event, dispatch it to its
    /// owning component, and return the requested effects, tagged with ids,
    /// for the scheduler to execute.  Returns `None` when the runner is
    /// halted or quiescent.  A fatal error is recorded and halts the
    /// runner; a control event halts it after its dispatch.
    pub fn step(&mut self, rng: &mut NodeRng) -> (r: Option<Vec<ScheduledEffect>>)
        requires
            old(self)@.wf(),
        ensures
            final(self)@.wf(),
            ({
                let nonce = chacha_stream(old(rng).seed(), old(rng).drawn());
                let (post, out) = RunnerModel::spec_step(old(self)@, nonce);
                &&& final(self)@ == post
                &&& match (r, out) {
                    (None, None) => true,
                    (Some(v), Some(s)) => v@ == s,
                    _ => false,
                }
            }),
            final(rng).seed() == old(rng).seed(),
            final(rng).drawn() == old(rng).drawn() + RunnerModel::spec_step_draws(old(self)@),
    {
        if self.halted || self.queue.len() == 0 {
            return None;
        }
        let event = self.queue.remove(0);
        proof {
            assert(old(self)@.queue.remove(0) =~= old(self)@.queue.drop_first());
            self.dispatched@ = self.dispatched@.push(event);
            assert(self@.dispatched + self@.queue =~= old(self)@.submitted);
        }
        let is_control = matches!(event, Event::Control(_));
        match self.reactor.dispatch(event, rng) {
            Err(e) => {
                self.halted = true;
                self.fatal = Some(e);
                let out: Vec<ScheduledEffect> = Vec::new();
                proof {
                    assert(out@ =~= Seq::<ScheduledEffect>::empty());
                }
                Some(out)
            },
            Ok(effects) => {
                let ghost start = self.next_effect_id;
                let ghost effects_model = effects@;
                let ghost mid = self@;
                let mut scheduled: Vec<ScheduledEffect> = Vec::new();
                let mut i: usize = 0;
                while i < effects.len()
                    invariant
                        0 <= i <= effects@.len(),
                        effects@ == effects_model,
                        scheduled@.len() == i as nat,
                        forall|k: int|
                            0 <= k < i ==> scheduled@[k] == (ScheduledEffect {
                                id: spec_sat_add(start, k as nat),
                                effect: effects_model[k],
                            }),
                        self.next_effect_id == spec_sat_add(start, i as nat),
                        self.in_flight == spec_sat_add(mid.in_flight, i as nat),
                        self@.reactor == mid.reactor,
                        self@.queue == mid.queue,
                        self@.halted == mid.halted,
                        self@.fatal == mid.fatal,
                        self@.dispatched == mid.dispatched,
                        self@.submitted == mid.submitted,
                    decreases effects@.len() - i,
                {
                    scheduled.push(ScheduledEffect { id: self.next_effect_id, effect: effects[i] });
                    self.next_effect_id = if self.next_effect_id == u64::MAX {
                        u64::MAX
                    } else {
                        self.next_effect_id + 1
                    };
                    self.in_flight = if self.in_flight == u64::MAX {
                        u64::MAX
                    } else {
                        self.in_flight + 1
                    };
                    i = i + 1;
                }
                if is_control {
                    self.halted = true;
                }
                proof {
                    assert(scheduled@ =~= spec_assign_ids(effects_model, start));
                }
                Some(scheduled)
            },
        }
    }

    /// Reference to the fatal error that halted the runner, if any.
    pub fn fatal_error(&self) -> (r: &Option<Error>)
        ensures
            r == &self@.fatal,
    {
        &self.fatal
    }

    /// Yields ownership of the reactor for the phase handoff.
    pub fn into_inner(self) -> (r: Reactor)
        ensures
            r@ == self@.reactor,
    {
        self.reactor
    }

    /// Yields the initializer reactor for the phase handoff; callable only
    /// on an initializer runner.
    pub fn into_initializer(self) -> (r: InitializerReactor)
        requires
            self@.reactor is Initializer,
        ensures
            ReactorModel::Initializer(r@) == self@.reactor,
    {
        match self.reactor {
            Reactor::Initializer(r) => r,
            Reactor::Validator(_) => unreached(),
        }
    }

    /// Drives the event loop with the deterministic scheduler: each turn
    /// pulls and dispatches the next event, executes every requested effect
    /// synchronously and re-injects its completion, until the runner halts
    /// on a control event or a fatal error, runs out of work, or exhausts
    /// the crank budget (the validator phase runs indefinitely, so a caller
    /// bounds each sitting of the loop).  Returns the number of events
    /// dispatched; a return below the budget means the loop reached a
    /// terminal state.
    pub fn run(&mut self, rng: &mut NodeRng, fuel: u64) -> (steps: u64)
        requires
            old(self)@.wf(),
        ensures
            final(self)@.wf(),
            steps <= fuel,
            steps < fuel ==> final(self)@.halted || final(self)@.queue.len() == 0,
            final(self)@.dispatched.len() == old(self)@.dispatched.len() + steps,
            final(rng).seed() == old(rng).seed(),
    {
        let mut steps: u64 = 0;
        while steps < fuel && !self.halted && self.queue.len() > 0
            invariant
                self@.wf(),
                steps <= fuel,
                self@.dispatched.len() == old(self)@.dispatched.len() + steps,
                rng.seed() == old(rng).seed(),
            decreases fuel - steps,
        {
            match self.step(rng) {
                None => {
                    return steps;
                },
                Some(scheduled) => {
                    let mut k: usize = 0;
                    while k < scheduled.len()
                        invariant
                            0 <= k <= scheduled@.len(),
                            self@.wf(),
                            self@.dispatched.len() == old(self)@.dispatched.len() + steps + 1,
                            steps < fuel,
                            rng.seed() == old(rng).seed(),
                        decreases scheduled@.len() - k,
                    {
                        let completion = execute_effect(&scheduled[k]);
                        self.enqueue_completion(completion);
                        k = k + 1;
                    }
                },
            }
            steps = steps + 1;
        }
        steps
    }
}

// ------------------------------------------------------------------
// Laws of the event loop.

/// Dispatch order equals submission-availability order: at every point, the
/// events dispatched so far are exactly the first dispatched-many events
/// ever submitted, in the same order.  Together with dispatch mutating
/// exactly one component per event (the dispatch isolation lemmas of the
/// reactor module), this is the sequential-consistency guarantee of the
/// runner.
pub proof fn lemma_dispatch_order(m: RunnerModel)
    requires
        m.wf(),
    ensures
        m.dispatched.len() <= m.submitted.len(),
        m.dispatched == m.submitted.take(m.dispatched.len() as int),
{
    assert(m.submitted.take(m.dispatched.len() as int) =~= m.dispatched);
}

/// Replay determinism: two runners in observably equal states, driven from
/// the same seed at the same stream position, take identical steps — they
/// produce the same effects, reach observably equal states again, and
/// consume the stream equally.
pub proof fn lemma_step_deterministic(a: RunnerModel, b: RunnerModel, seed: Seq<u8>, drawn: nat)
    requires
        RunnerModel::obs_eq(a, b),
    ensures
        ({
            let (pa, oa) = RunnerModel::spec_step(a, chacha_stream(seed, drawn));
            let (pb, ob) = RunnerModel::spec_step(b, chacha_stream(seed, drawn));
            &&& oa == ob
            &&& RunnerModel::obs_eq(pa, pb)
            &&& RunnerModel::spec_step_draws(a) == RunnerModel::spec_step_draws(b)
        }),
{
}

/// Replay determinism over a whole run: for a fixed seed and a fixed
/// submission order, two independent runs of observably equal runners
/// produce identical sequences of effects, however many steps are taken.
pub proof fn lemma_replay_deterministic(
    a: RunnerModel,
    b: RunnerModel,
    seed: Seq<u8>,
    drawn: nat,
    n: nat,
)
    requires
        RunnerModel::obs_eq(a, b),
    ensures
        ({
            let (fa, da, outs_a) = RunnerModel::spec_run_n(a, seed, drawn, n);
            let (fb, db, outs_b) = RunnerModel::spec_run_n(b, seed, drawn, n);
            &&& outs_a == outs_b
            &&& RunnerModel::obs_eq(fa, fb)
            &&& da == db
        }),
    decreases n,
{
    if n > 0 {
        let nonce = chacha_stream(seed, drawn);
        lemma_step_deterministic(a, b, seed, drawn);
        let (pa, oa) = RunnerModel::spec_step(a, nonce);
        let (pb, ob) = RunnerModel::spec_step(b, nonce);
        lemma_replay_deterministic(
            pa,
            pb,
            seed,
            drawn + RunnerModel::spec_step_draws(a),
            (n - 1) as nat,
        );
    }
}

} // verus!
