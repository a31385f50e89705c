//! Events: typed notifications, each delivered to exactly one component.

use vstd::prelude::*;
use crate::types::Block;

verus! {

/// The components a reactor assembles.  Routing maps every event to exactly
/// one of these (or to the runner itself, for control events).
#[derive(Clone, Copy, PartialEq, Eq, Structural, Debug)]
pub enum ComponentKind {
    Network,
    Consensus,
    Storage,
    ContractRuntime,
}

/// Events owned by the network component.
#[derive(Clone, Copy, PartialEq, Eq, Structural, Debug)]
pub enum NetworkEvent {
    /// A message arrived from a peer.  A payload of zero stands for a
    /// malformed message: a component-local, recoverable condition.
    MessageReceived { sender: u64, payload: u64 },
    /// A payload should be gossiped to a randomly chosen peer.
    GossipRequested { payload: u64 },
}

/// Events owned by the consensus component.
#[derive(Clone, Copy, PartialEq, Eq, Structural, Debug)]
pub enum ConsensusEvent {
    /// Consensus asks for a timer.
    TimerRequested { delay_ms: u64 },
}

/// Events owned by the storage component.
#[derive(Clone, Copy, PartialEq, Eq, Structural, Debug)]
pub enum StorageEvent {
    /// A block should be appended to the chain.
    PutBlock { block: Block },
}

/// Events owned by the contract runtime component.
#[derive(Clone, Copy, PartialEq, Eq, Structural, Debug)]
pub enum ContractRuntimeEvent {
    /// Begin the chain setup work of the initializer phase.
    Commence,
}

/// Control events, handled by the runner itself.
#[derive(Clone, Copy, PartialEq, Eq, Structural, Debug)]
pub enum ControlEvent {
    /// Intentional stop requested.
    Stop,
    /// A component crashed; the runner must exit.
    Crashed,
}

/// The result an executed effect completed with.  Its tag determines which
/// component receives the completion.
#[derive(Clone, Copy, PartialEq, Eq, Structural, Debug)]
pub enum EffectOutcome {
    /// A message send finished.
    MessageSent { recipient: u64, nonce: u64 },
    /// A requested timer fired.
    TimerFired,
    /// The execution engine committed the chain setup and produced the
    /// immediate block for it.
    SetupCommitted { block: Block },
    /// The execution engine executed a deploy.
    DeployExecuted { state_root: u64 },
}

impl EffectOutcome {
    /// The component that receives this completion.
    pub open spec fn spec_route(&self) -> ComponentKind {
        match *self {
            EffectOutcome::MessageSent { .. } => ComponentKind::Network,
            EffectOutcome::TimerFired => ComponentKind::Consensus,
            EffectOutcome::SetupCommitted { .. } => ComponentKind::ContractRuntime,
            EffectOutcome::DeployExecuted { .. } => ComponentKind::ContractRuntime,
        }
    }
}

/// A typed notification.  Immutable once created; owned by the queue until
/// dispatched to its target component, then consumed.
#[derive(Clone, Copy, PartialEq, Eq, Structural, Debug)]
pub enum Event {
    Network(NetworkEvent),
    Consensus(ConsensusEvent),
    Storage(StorageEvent),
    ContractRuntime(ContractRuntimeEvent),
    /// Completion of the effect with the given id.
    EffectResult { effect_id: u64, outcome: EffectOutcome },
    Control(ControlEvent),
}

impl Event {
    /// The static, total routing table: every event tag maps to exactly one
    /// component; control events (`None`) go to the runner itself.
    pub open spec fn spec_route(&self) -> Option<ComponentKind> {
        match *self {
            Event::Network(_) => Some(ComponentKind::Network),
            Event::Consensus(_) => Some(ComponentKind::Consensus),
            Event::Storage(_) => Some(ComponentKind::Storage),
            Event::ContractRuntime(_) => Some(ComponentKind::ContractRuntime),
            Event::EffectResult { outcome, .. } => Some(outcome.spec_route()),
            Event::Control(_) => None,
        }
    }

    /// Executable routing, matching [`Self::spec_route`].
    pub fn route(&self) -> (r: Option<ComponentKind>)
        ensures
            r == self.spec_route(),
    {
        match self {
            Event::Network(_) => Some(ComponentKind::Network),
            Event::Consensus(_) => Some(ComponentKind::Consensus),
            Event::Storage(_) => Some(ComponentKind::Storage),
            Event::ContractRuntime(_) => Some(ComponentKind::ContractRuntime),
            Event::EffectResult { outcome, .. } => match outcome {
                EffectOutcome::MessageSent { .. } => Some(ComponentKind::Network),
                EffectOutcome::TimerFired => Some(ComponentKind::Consensus),
                EffectOutcome::SetupCommitted { .. } => Some(ComponentKind::ContractRuntime),
                EffectOutcome::DeployExecuted { .. } => Some(ComponentKind::ContractRuntime),
            },
            Event::Control(_) => None,
        }
    }
}

} // verus!
