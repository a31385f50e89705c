//! Reactors: fixed assemblies of components plus the routing that says
//! which component receives which event.
//!
//! A reactor owns the authoritative node state for its phase.  `dispatch`
//! routes an event to exactly one owning component and folds the returned
//! effects for submission to the scheduler; no other component's state is
//! touched by the dispatch.  The initializer reactor additionally tracks
//! the progress of the chain-setup work and records success or failure in a
//! single flag, set exactly once on reaching a terminal state.

use vstd::prelude::*;
use crate::components::{
    ConsensusComponent, ContractRuntimeComponent, NetworkComponent, NetworkModel,
    StorageComponent, StorageModel,
};
use crate::effect::Effect;
use crate::error::Error;
use crate::event::{ComponentKind, ContractRuntimeEvent, EffectOutcome, Event, StorageEvent};
use crate::rng::{chacha_stream, NodeRng};
use crate::sequencer::{
    spec_setup_era, spec_setup_height, spec_verify_chain_setup, verify_chain_setup,
};
use crate::types::ChainSetup;

verus! {

/// Progress of the initializer's chain-setup work.
#[derive(Clone, Copy, PartialEq, Eq, Structural, Debug)]
pub enum InitProgress {
    /// Nothing done yet.
    Pending,
    /// The setup was validated against the stored chain; the commit effect
    /// is in flight.
    Validated,
    /// The engine committed the setup and the immediate switch block is on
    /// its way to storage.
    Committed,
    /// The switch block is stored; the setup work is exhausted.
    Done,
    /// A fatal error ended the setup work.
    Failed,
}

/// Spec-level model of the initializer reactor.
pub struct InitializerModel {
    pub setup: ChainSetup,
    pub network: NetworkModel,
    pub consensus: ConsensusComponent,
    pub storage: StorageModel,
    pub contract_runtime: ContractRuntimeComponent,
    pub progress: InitProgress,
    pub outcome: Option<bool>,
}

impl InitializerModel {
    pub open spec fn wf(&self) -> bool {
        self.storage.wf()
    }

    /// The terminal flag: true exactly when the setup work completed.
    pub open spec fn spec_stopped_successfully(&self) -> bool {
        self.outcome == Some(true)
    }

    /// Whether dispatching `event` draws from the pseudo-random source.
    pub open spec fn spec_draws(&self, event: Event) -> bool {
        match event {
            Event::Network(ne) => NetworkComponent::spec_draws(self.network, ne),
            _ => false,
        }
    }

    /// What dispatching `event` does: the routed component's transition, a
    /// possibly empty batch of effects, and — for a fatal condition — the
    /// error that terminates the runner.
    pub open spec fn spec_dispatch(pre: Self, event: Event, nonce: u64) -> (
        Self,
        Result<Seq<Effect>, Error>,
    ) {
        match event {
            Event::Network(ne) => {
                let (n2, effects) = NetworkComponent::spec_handle(pre.network, ne, nonce);
                (InitializerModel { network: n2, ..pre }, Ok(effects))
            },
            Event::Consensus(ce) => {
                let (c2, effects) = ConsensusComponent::spec_handle(pre.consensus, ce);
                (InitializerModel { consensus: c2, ..pre }, Ok(effects))
            },
            Event::Storage(se) => {
                let (s2, effects) = StorageComponent::spec_handle(pre.storage, se);
                let stored = (se matches StorageEvent::PutBlock { block }
                    && pre.storage.spec_accepts(block));
                if pre.progress is Committed && stored {
                    (
                        InitializerModel {
                            storage: s2,
                            progress: InitProgress::Done,
                            outcome: if pre.outcome is None {
                                Some(true)
                            } else {
                                pre.outcome
                            },
                            ..pre
                        },
                        Ok(effects),
                    )
                } else {
                    (InitializerModel { storage: s2, ..pre }, Ok(effects))
                }
            },
            Event::ContractRuntime(ContractRuntimeEvent::Commence) => {
                if !(pre.progress is Pending) {
                    (pre, Ok(seq![]))
                } else {
                    match spec_verify_chain_setup(pre.setup, pre.storage) {
                        Err(e) => (
                            InitializerModel {
                                progress: InitProgress::Failed,
                                outcome: Some(false),
                                ..pre
                            },
                            Err(e),
                        ),
                        Ok(_) => (
                            InitializerModel { progress: InitProgress::Validated, ..pre },
                            Ok(
                                seq![
                                    Effect::CommitSetup {
                                        setup: pre.setup,
                                        height: spec_setup_height(pre.storage),
                                        era_id: spec_setup_era(pre.setup),
                                    },
                                ],
                            ),
                        ),
                    }
                }
            },
            Event::EffectResult { effect_id, outcome } => {
                match outcome {
                    EffectOutcome::SetupCommitted { block } => {
                        if !(pre.progress is Validated) {
                            (pre, Ok(seq![]))
                        } else {
                            let cr2 = ContractRuntimeComponent::spec_handle_outcome(
                                pre.contract_runtime,
                                outcome,
                            );
                            if !block.header.is_switch {
                                (
                                    InitializerModel {
                                        contract_runtime: cr2,
                                        progress: InitProgress::Failed,
                                        outcome: Some(false),
                                        ..pre
                                    },
                                    Err(
                                        Error::FailedToCreateSwitchBlockAfterGenesisOrUpgrade {
                                            new_bad_block: block,
                                        },
                                    ),
                                )
                            } else {
                                (
                                    InitializerModel {
                                        contract_runtime: cr2,
                                        progress: InitProgress::Committed,
                                        ..pre
                                    },
                                    Ok(
                                        seq![
                                            Effect::Deliver {
                                                event: Event::Storage(
                                                    StorageEvent::PutBlock { block },
                                                ),
                                            },
                                        ],
                                    ),
                                )
                            }
                        }
                    },
                    EffectOutcome::MessageSent { .. } => (
                        InitializerModel {
                            network: NetworkComponent::spec_handle_outcome(pre.network, outcome),
                            ..pre
                        },
                        Ok(seq![]),
                    ),
                    EffectOutcome::TimerFired => (
                        InitializerModel {
                            consensus: ConsensusComponent::spec_handle_outcome(
                                pre.consensus,
                                outcome,
                            ),
                            ..pre
                        },
                        Ok(seq![]),
                    ),
                    EffectOutcome::DeployExecuted { .. } => (
                        InitializerModel {
                            contract_runtime: ContractRuntimeComponent::spec_handle_outcome(
                                pre.contract_runtime,
                                outcome,
                            ),
                            ..pre
                        },
                        Ok(seq![]),
                    ),
                }
            },
            Event::Control(_) => (
                InitializerModel {
                    outcome: if pre.outcome is None {
                        Some(false)
                    } else {
                        pre.outcome
                    },
                    ..pre
                },
                Ok(seq![]),
            ),
        }
    }
}

/// The initializer reactor: the component set of the node plus the
/// chain-setup progress markers.
pub struct InitializerReactor {
    pub setup: ChainSetup,
    pub network: NetworkComponent,
    pub consensus: ConsensusComponent,
    pub storage: StorageComponent,
    pub contract_runtime: ContractRuntimeComponent,
    pub progress: InitProgress,
    pub outcome: Option<bool>,
}

impl View for InitializerReactor {
    type V = InitializerModel;

    open spec fn view(&self) -> InitializerModel {
        InitializerModel {
            setup: self.setup,
            network: self.network@,
            consensus: self.consensus,
            storage: self.storage@,
            contract_runtime: self.contract_runtime,
            progress: self.progress,
            outcome: self.outcome,
        }
    }
}

impl InitializerReactor {
    /// Builds the initializer reactor over a (possibly pre-seeded) store.
    pub fn new(setup: ChainSetup, storage: StorageComponent, peers: Vec<u64>) -> (r:
        InitializerReactor)
        requires
            storage.wf(),
        ensures
            r@.setup == setup,
            r@.storage == storage@,
            r@.network.peers == peers@,
            r@.network.received == 0 && r@.network.dropped == 0 && r@.network.sent == 0,
            r@.consensus.current_era.value == 0,
            r@.consensus.timers_requested == 0 && r@.consensus.timers_fired == 0,
            r@.contract_runtime.state_root is None,
            r@.progress is Pending,
            r@.outcome is None,
            r@.wf(),
    {
        InitializerReactor {
            setup,
            network: NetworkComponent::new(peers),
            consensus: ConsensusComponent::new(crate::types::EraId { value: 0 }),
            storage,
            contract_runtime: ContractRuntimeComponent::new(),
            progress: InitProgress::Pending,
            outcome: None,
        }
    }

    /// Whether the initializer reached its terminal state successfully.
    /// Inspected once by the bootstrap sequencer.
    pub fn stopped_successfully(&self) -> (r: bool)
        ensures
            r == self@.spec_stopped_successfully(),
    {
        match self.outcome {
            Some(b) => b,
            None => false,
        }
    }

    /// Routes `event` to exactly one owning component and folds the
    /// returned effects.  A fatal error marks the reactor failed and is
    /// returned for the runner to terminate on.
    pub fn dispatch(&mut self, event: Event, rng: &mut NodeRng) -> (r: Result<Vec<Effect>, Error>)
        requires
            old(self)@.wf(),
        ensures
            ({
                let nonce = chacha_stream(old(rng).seed(), old(rng).drawn());
                let (post, res) = InitializerModel::spec_dispatch(old(self)@, event, nonce);
                &&& final(self)@ == post
                &&& match (r, res) {
                    (Ok(v), Ok(s)) => v@ == s,
                    (Err(e1), Err(e2)) => e1 == e2,
                    _ => false,
                }
            }),
            final(self)@.wf(),
            final(rng).seed() == old(rng).seed(),
            final(rng).drawn() == old(rng).drawn() + (if old(self)@.spec_draws(event) {
                1nat
            } else {
                0nat
            }),
    {
        match event {
            Event::Network(ne) => Ok(self.network.handle_event(ne, rng)),
            Event::Consensus(ce) => Ok(self.consensus.handle_event(ce)),
            Event::Storage(se) => {
                let was_committed = matches!(self.progress, InitProgress::Committed);
                let StorageEvent::PutBlock { block } = se;
                let accepted = self.storage.accepts(&block);
                let effects = self.storage.handle_event(se);
                if was_committed && accepted {
                    self.progress = InitProgress::Done;
                    if self.outcome.is_none() {
                        self.outcome = Some(true);
                    }
                }
                Ok(effects)
            },
            Event::ContractRuntime(ContractRuntimeEvent::Commence) => {
                if !matches!(self.progress, InitProgress::Pending) {
                    Ok(Vec::new())
                } else {
                    match verify_chain_setup(&self.setup, &self.storage) {
                        Err(e) => {
                            self.progress = InitProgress::Failed;
                            self.outcome = Some(false);
                            Err(e)
                        },
                        Ok(_) => {
                            self.progress = InitProgress::Validated;
                            let height = match self.storage.highest_block_header() {
                                None => 0,
                                Some(h) => h.height + 1,
                            };
                            let era_id = match &self.setup {
                                ChainSetup::Genesis(_) => crate::types::EraId { value: 0 },
                                ChainSetup::Upgrade(u) => u.activation_point,
                            };
                            let mut effects: Vec<Effect> = Vec::new();
                            effects.push(
                                Effect::CommitSetup { setup: self.setup, height, era_id },
                            );
                            Ok(effects)
                        },
                    }
                }
            },
            Event::EffectResult { effect_id: _, outcome } => {
                match outcome {
                    EffectOutcome::SetupCommitted { block } => {
                        if !matches!(self.progress, InitProgress::Validated) {
                            Ok(Vec::new())
                        } else {
                            self.contract_runtime.handle_outcome(outcome);
                            if !block.header.is_switch_block() {
                                self.progress = InitProgress::Failed;
                                self.outcome = Some(false);
                                Err(
                                    Error::FailedToCreateSwitchBlockAfterGenesisOrUpgrade {
                                        new_bad_block: block,
                                    },
                                )
                            } else {
                                self.progress = InitProgress::Committed;
                                let mut effects: Vec<Effect> = Vec::new();
                                effects.push(
                                    Effect::Deliver {
                                        event: Event::Storage(StorageEvent::PutBlock { block }),
                                    },
                                );
                                Ok(effects)
                            }
                        }
                    },
                    EffectOutcome::MessageSent { .. } => {
                        self.network.handle_outcome(outcome);
                        Ok(Vec::new())
                    },
                    EffectOutcome::TimerFired => {
                        self.consensus.handle_outcome(outcome);
                        Ok(Vec::new())
                    },
                    EffectOutcome::DeployExecuted { .. } => {
                        self.contract_runtime.handle_outcome(outcome);
                        Ok(Vec::new())
                    },
                }
            },
            Event::Control(_) => {
                if self.outcome.is_none() {
                    self.outcome = Some(false);
                }
                Ok(Vec::new())
            },
        }
    }
}

/// Spec-level model of the validator reactor.
pub struct ValidatorModel {
    pub network: NetworkModel,
    pub consensus: ConsensusComponent,
    pub storage: StorageModel,
    pub contract_runtime: ContractRuntimeComponent,
    pub protocol_version: u64,
    pub stopped: bool,
}

impl ValidatorModel {
    pub open spec fn wf(&self) -> bool {
        self.storage.wf()
    }

    /// Whether dispatching `event` draws from the pseudo-random source.
    pub open spec fn spec_draws(&self, event: Event) -> bool {
        match event {
            Event::Network(ne) => NetworkComponent::spec_draws(self.network, ne),
            _ => false,
        }
    }

    /// What dispatching `event` does.  The chain-setup work of the
    /// initializer phase is never re-run: a `Commence` event is a no-op
    /// here.
    pub open spec fn spec_dispatch(pre: Self, event: Event, nonce: u64) -> (
        Self,
        Result<Seq<Effect>, Error>,
    ) {
        match event {
            Event::Network(ne) => {
                let (n2, effects) = NetworkComponent::spec_handle(pre.network, ne, nonce);
                (ValidatorModel { network: n2, ..pre }, Ok(effects))
            },
            Event::Consensus(ce) => {
                let (c2, effects) = ConsensusComponent::spec_handle(pre.consensus, ce);
                (ValidatorModel { consensus: c2, ..pre }, Ok(effects))
            },
            Event::Storage(se) => {
                let (s2, effects) = StorageComponent::spec_handle(pre.storage, se);
                (ValidatorModel { storage: s2, ..pre }, Ok(effects))
            },
            Event::ContractRuntime(ContractRuntimeEvent::Commence) => (pre, Ok(seq![])),
            Event::EffectResult { effect_id, outcome } => {
                match outcome.spec_route() {
                    ComponentKind::Network => (
                        ValidatorModel {
                            network: NetworkComponent::spec_handle_outcome(pre.network, outcome),
                            ..pre
                        },
                        Ok(seq![]),
                    ),
                    ComponentKind::Consensus => (
                        ValidatorModel {
                            consensus: ConsensusComponent::spec_handle_outcome(
                                pre.consensus,
                                outcome,
                            ),
                            ..pre
                        },
                        Ok(seq![]),
                    ),
                    _ => (
                        ValidatorModel {
                            contract_runtime: ContractRuntimeComponent::spec_handle_outcome(
                                pre.contract_runtime,
                                outcome,
                            ),
                            ..pre
                        },
                        Ok(seq![]),
                    ),
                }
            },
            Event::Control(_) => (ValidatorModel { stopped: true, ..pre }, Ok(seq![])),
        }
    }
}

/// The validator reactor: the same component set, extended with the live
/// phase state, constructed only from a successfully stopped initializer.
pub struct ValidatorReactor {
    pub network: NetworkComponent,
    pub consensus: ConsensusComponent,
    pub storage: StorageComponent,
    pub contract_runtime: ContractRuntimeComponent,
    pub protocol_version: u64,
    pub stopped: bool,
}

impl View for ValidatorReactor {
    type V = ValidatorModel;

    open spec fn view(&self) -> ValidatorModel {
        ValidatorModel {
            network: self.network@,
            consensus: self.consensus,
            storage: self.storage@,
            contract_runtime: self.contract_runtime,
            protocol_version: self.protocol_version,
            stopped: self.stopped,
        }
    }
}

impl ValidatorReactor {
    /// Consuming handoff from the initializer phase: the initializer value
    /// is moved in and its component states are carried over unchanged — in
    /// particular the stored chain, so the setup is never re-run.
    ///
    /// No partial promotion is permitted: the caller (the bootstrap
    /// sequencer) may only construct a validator from an initializer that
    /// stopped successfully.
    pub fn new(initializer: InitializerReactor) -> (r: ValidatorReactor)
        requires
            initializer@.spec_stopped_successfully(),
            initializer@.wf(),
        ensures
            r@.network == initializer@.network,
            r@.consensus == initializer@.consensus,
            r@.storage == initializer@.storage,
            r@.contract_runtime == initializer@.contract_runtime,
            r@.protocol_version == initializer@.setup.spec_protocol_version(),
            !r@.stopped,
            r@.wf(),
    {
        let protocol_version = match &initializer.setup {
            ChainSetup::Genesis(g) => g.protocol_version,
            ChainSetup::Upgrade(u) => u.new_protocol_version,
        };
        ValidatorReactor {
            network: initializer.network,
            consensus: initializer.consensus,
            storage: initializer.storage,
            contract_runtime: initializer.contract_runtime,
            protocol_version,
            stopped: false,
        }
    }

    /// Routes `event` to exactly one owning component and folds the
    /// returned effects.
    pub fn dispatch(&mut self, event: Event, rng: &mut NodeRng) -> (r: Result<Vec<Effect>, Error>)
        requires
            old(self)@.wf(),
        ensures
            ({
                let nonce = chacha_stream(old(rng).seed(), old(rng).drawn());
                let (post, res) = ValidatorModel::spec_dispatch(old(self)@, event, nonce);
                &&& final(self)@ == post
                &&& match (r, res) {
                    (Ok(v), Ok(s)) => v@ == s,
                    (Err(e1), Err(e2)) => e1 == e2,
                    _ => false,
                }
            }),
            final(self)@.wf(),
            final(rng).seed() == old(rng).seed(),
            final(rng).drawn() == old(rng).drawn() + (if old(self)@.spec_draws(event) {
                1nat
            } else {
                0nat
            }),
    {
        match event {
            Event::Network(ne) => Ok(self.network.handle_event(ne, rng)),
            Event::Consensus(ce) => Ok(self.consensus.handle_event(ce)),
            Event::Storage(se) => Ok(self.storage.handle_event(se)),
            Event::ContractRuntime(ContractRuntimeEvent::Commence) => Ok(Vec::new()),
            Event::EffectResult { effect_id: _, outcome } => {
                match outcome {
                    EffectOutcome::MessageSent { .. } => self.network.handle_outcome(outcome),
                    EffectOutcome::TimerFired => self.consensus.handle_outcome(outcome),
                    EffectOutcome::SetupCommitted { .. } => self.contract_runtime.handle_outcome(
                        outcome,
                    ),
                    EffectOutcome::DeployExecuted { .. } => self.contract_runtime.handle_outcome(
                        outcome,
                    ),
                }
                Ok(Vec::new())
            },
            Event::Control(_) => {
                self.stopped = true;
                Ok(Vec::new())
            },
        }
    }
}

/// A reactor of either phase, behind the shared dispatch interface the
/// runner drives.
pub enum Reactor {
    Initializer(InitializerReactor),
    Validator(ValidatorReactor),
}

/// Spec-level model of a reactor of either phase.
pub enum ReactorModel {
    Initializer(InitializerModel),
    Validator(ValidatorModel),
}

impl View for Reactor {
    type V = ReactorModel;

    open spec fn view(&self) -> ReactorModel {
        match self {
            Reactor::Initializer(r) => ReactorModel::Initializer(r@),
            Reactor::Validator(r) => ReactorModel::Validator(r@),
        }
    }
}

impl ReactorModel {
    pub open spec fn wf(&self) -> bool {
        match *self {
            ReactorModel::Initializer(m) => m.wf(),
            ReactorModel::Validator(m) => m.wf(),
        }
    }

    /// Whether dispatching `event` draws from the pseudo-random source.
    pub open spec fn spec_draws(&self, event: Event) -> bool {
        match *self {
            ReactorModel::Initializer(m) => m.spec_draws(event),
            ReactorModel::Validator(m) => m.spec_draws(event),
        }
    }

    /// What dispatching `event` does, for either phase.
    pub open spec fn spec_dispatch(pre: Self, event: Event, nonce: u64) -> (
        Self,
        Result<Seq<Effect>, Error>,
    ) {
        match pre {
            ReactorModel::Initializer(m) => {
                let (post, res) = InitializerModel::spec_dispatch(m, event, nonce);
                (ReactorModel::Initializer(post), res)
            },
            ReactorModel::Validator(m) => {
                let (post, res) = ValidatorModel::spec_dispatch(m, event, nonce);
                (ReactorModel::Validator(post), res)
            },
        }
    }
}

/// Dispatch isolation for the initializer phase: an event mutates the state
/// of the one component it routes to and no other; control events and the
/// setup bookkeeping touch only the reactor's own progress markers.  No two
/// dispatches can therefore overlap in mutating the same component's state:
/// each mutates exactly one, and dispatches are serialized by the runner.
pub proof fn lemma_dispatch_isolation_initializer(
    pre: InitializerModel,
    event: Event,
    nonce: u64,
)
    ensures
        ({
            let (post, res) = InitializerModel::spec_dispatch(pre, event, nonce);
            &&& event.spec_route() != Some(ComponentKind::Network) ==> post.network == pre.network
            &&& event.spec_route() != Some(ComponentKind::Consensus) ==> post.consensus
                == pre.consensus
            &&& event.spec_route() != Some(ComponentKind::Storage) ==> post.storage == pre.storage
            &&& event.spec_route() != Some(ComponentKind::ContractRuntime)
                ==> post.contract_runtime == pre.contract_runtime
            &&& post.setup == pre.setup
        }),
{
}

/// After a successful genesis or upgrade, the next produced block must be
/// flagged as a switch block: while the commit is awaited, a completion
/// carrying a non-switch block is an invariant violation that fails the
/// initializer with exactly the fatal error carrying that block, while a
/// switch block is sent on to storage.
pub proof fn lemma_switch_block_required_after_setup(
    pre: InitializerModel,
    effect_id: u64,
    block: crate::types::Block,
    nonce: u64,
)
    requires
        pre.progress is Validated,
    ensures
        ({
            let event = Event::EffectResult {
                effect_id,
                outcome: EffectOutcome::SetupCommitted { block },
            };
            let (post, res) = InitializerModel::spec_dispatch(pre, event, nonce);
            &&& !block.header.is_switch ==> (res == Err::<Seq<Effect>, Error>(
                Error::FailedToCreateSwitchBlockAfterGenesisOrUpgrade { new_bad_block: block },
            ) && post.progress is Failed && post.outcome == Some(false))
            &&& block.header.is_switch ==> (res == Ok::<Seq<Effect>, Error>(
                seq![
                    Effect::Deliver { event: Event::Storage(StorageEvent::PutBlock { block }) },
                ],
            ) && post.progress is Committed)
        }),
{
}

/// The terminal flag is set exactly once: once the initializer has stopped
/// successfully, no further event unsets it or moves the reactor out of its
/// terminal state.
pub proof fn lemma_success_is_stable(pre: InitializerModel, event: Event, nonce: u64)
    requires
        pre.spec_stopped_successfully(),
        pre.progress is Done,
    ensures
        ({
            let (post, res) = InitializerModel::spec_dispatch(pre, event, nonce);
            &&& post.spec_stopped_successfully()
            &&& post.progress is Done
        }),
{
}

/// Dispatch isolation for the validator phase: an event mutates the state
/// of the one component it routes to and no other; control events touch
/// only the stop flag.
pub proof fn lemma_dispatch_isolation_validator(pre: ValidatorModel, event: Event, nonce: u64)
    ensures
        ({
            let (post, res) = ValidatorModel::spec_dispatch(pre, event, nonce);
            &&& event.spec_route() != Some(ComponentKind::Network) ==> post.network == pre.network
            &&& event.spec_route() != Some(ComponentKind::Consensus) ==> post.consensus
                == pre.consensus
            &&& event.spec_route() != Some(ComponentKind::Storage) ==> post.storage == pre.storage
            &&& event.spec_route() != Some(ComponentKind::ContractRuntime)
                ==> post.contract_runtime == pre.contract_runtime
            &&& post.protocol_version == pre.protocol_version
        }),
{
}

impl Reactor {
    /// Dispatches `event` to the owning component of the current phase's
    /// reactor.
    pub fn dispatch(&mut self, event: Event, rng: &mut NodeRng) -> (r: Result<Vec<Effect>, Error>)
        requires
            old(self)@.wf(),
        ensures
            ({
                let nonce = chacha_stream(old(rng).seed(), old(rng).drawn());
                let (post, res) = ReactorModel::spec_dispatch(old(self)@, event, nonce);
                &&& final(self)@ == post
                &&& match (r, res) {
                    (Ok(v), Ok(s)) => v@ == s,
                    (Err(e1), Err(e2)) => e1 == e2,
                    _ => false,
                }
            }),
            final(self)@.wf(),
            final(rng).seed() == old(rng).seed(),
            final(rng).drawn() == old(rng).drawn() + (if old(self)@.spec_draws(event) {
                1nat
            } else {
                0nat
            }),
    {
        match self {
            Reactor::Initializer(r) => r.dispatch(event, rng),
            Reactor::Validator(r) => r.dispatch(event, rng),
        }
    }
}

} // verus!
