//! The components a reactor assembles.
//!
//! Each component is a pure state-transition unit: given its own state and
//! an incoming event it returns a new state plus zero or more effects.  A
//! component never reads another component's state; cross-component lookups
//! go through the narrow read-only query surface the storage component
//! exposes.  Recoverable, component-local conditions (such as a malformed
//! peer message) are absorbed here and never escalate.

use vstd::prelude::*;
use crate::effect::Effect;
use crate::event::{ConsensusEvent, EffectOutcome, NetworkEvent, StorageEvent};
use crate::rng::{chacha_stream, NodeRng};
use crate::types::{Block, BlockHeader, EraId};

verus! {

/// `x + 1`, saturating at the largest counter value.
pub open spec fn spec_sat_inc(x: u64) -> u64 {
    if x == u64::MAX {
        x
    } else {
        (x + 1) as u64
    }
}

/// Executable counterpart of [`spec_sat_inc`].
pub fn sat_inc(x: u64) -> (r: u64)
    ensures
        r == spec_sat_inc(x),
{
    if x == u64::MAX {
        x
    } else {
        x + 1
    }
}

/// Spec-level model of the networking component's state.
pub struct NetworkModel {
    pub peers: Seq<u64>,
    pub received: u64,
    pub dropped: u64,
    pub sent: u64,
}

/// State of the peer networking component.
#[derive(Clone, PartialEq, Debug)]
pub struct NetworkComponent {
    /// Known peers, by node id.
    pub peers: Vec<u64>,
    /// Well-formed messages received.
    pub received: u64,
    /// Malformed messages dropped (component-local, recoverable).
    pub dropped: u64,
    /// Message sends that completed.
    pub sent: u64,
}

impl View for NetworkComponent {
    type V = NetworkModel;

    open spec fn view(&self) -> NetworkModel {
        NetworkModel {
            peers: self.peers@,
            received: self.received,
            dropped: self.dropped,
            sent: self.sent,
        }
    }
}

impl NetworkComponent {
    pub fn new(peers: Vec<u64>) -> (r: NetworkComponent)
        ensures
            r.peers == peers,
            r.received == 0 && r.dropped == 0 && r.sent == 0,
    {
        NetworkComponent { peers, received: 0, dropped: 0, sent: 0 }
    }

    /// Whether handling `event` draws from the pseudo-random source.
    pub open spec fn spec_draws(pre: NetworkModel, event: NetworkEvent) -> bool {
        (event matches NetworkEvent::GossipRequested { .. }) && pre.peers.len() > 0
    }

    /// What handling `event` does, as a function of the state, the event and
    /// the pseudo-random value available to the handler.
    pub open spec fn spec_handle(pre: NetworkModel, event: NetworkEvent, nonce: u64) -> (
        NetworkModel,
        Seq<Effect>,
    ) {
        match event {
            NetworkEvent::MessageReceived { sender, payload } => {
                if payload == 0 {
                    // Malformed message: recoverable, absorbed locally.
                    (NetworkModel { dropped: spec_sat_inc(pre.dropped), ..pre }, seq![])
                } else {
                    (NetworkModel { received: spec_sat_inc(pre.received), ..pre }, seq![])
                }
            },
            NetworkEvent::GossipRequested { payload } => {
                if pre.peers.len() == 0 {
                    (pre, seq![])
                } else {
                    let idx = nonce as int % pre.peers.len() as int;
                    (
                        pre,
                        seq![
                            Effect::SendMessage { recipient: pre.peers[idx], payload, nonce },
                        ],
                    )
                }
            },
        }
    }

    /// Handles one of this component's own events.
    pub fn handle_event(&mut self, event: NetworkEvent, rng: &mut NodeRng) -> (r: Vec<Effect>)
        ensures
            ({
                let nonce = chacha_stream(old(rng).seed(), old(rng).drawn());
                let (post, effects) = Self::spec_handle(old(self)@, event, nonce);
                final(self)@ == post && r@ == effects
            }),
            final(rng).seed() == old(rng).seed(),
            final(rng).drawn() == old(rng).drawn() + (if Self::spec_draws(old(self)@, event) {
                1nat
            } else {
                0nat
            }),
    {
        match event {
            NetworkEvent::MessageReceived { sender: _, payload } => {
                if payload == 0 {
                    self.dropped = sat_inc(self.dropped);
                } else {
                    self.received = sat_inc(self.received);
                }
                Vec::new()
            },
            NetworkEvent::GossipRequested { payload } => {
                if self.peers.len() == 0 {
                    Vec::new()
                } else {
                    let nonce = rng.next_u64();
                    let idx = (nonce % (self.peers.len() as u64)) as usize;
                    assert(idx < self.peers@.len());
                    let recipient = self.peers[idx];
                    let mut effects: Vec<Effect> = Vec::new();
                    effects.push(Effect::SendMessage { recipient, payload, nonce });
                    effects
                }
            },
        }
    }

    /// Handles the completion of an effect this component requested.
    pub open spec fn spec_handle_outcome(pre: NetworkModel, outcome: EffectOutcome)
        -> NetworkModel {
        match outcome {
            EffectOutcome::MessageSent { .. } => NetworkModel {
                sent: spec_sat_inc(pre.sent),
                ..pre
            },
            _ => pre,
        }
    }

    /// Executable counterpart of [`Self::spec_handle_outcome`].
    pub fn handle_outcome(&mut self, outcome: EffectOutcome)
        ensures
            final(self)@ == Self::spec_handle_outcome(old(self)@, outcome),
    {
        match outcome {
            EffectOutcome::MessageSent { .. } => {
                self.sent = sat_inc(self.sent);
            },
            _ => {},
        }
    }
}

/// State of the consensus component.
#[derive(Clone, Copy, PartialEq, Eq, Structural, Debug)]
pub struct ConsensusComponent {
    /// The era consensus currently participates in.
    pub current_era: EraId,
    /// Timers requested so far.
    pub timers_requested: u64,
    /// Timers that fired so far.
    pub timers_fired: u64,
}

impl ConsensusComponent {
    pub fn new(current_era: EraId) -> (r: ConsensusComponent)
        ensures
            r.current_era == current_era,
            r.timers_requested == 0 && r.timers_fired == 0,
    {
        ConsensusComponent { current_era, timers_requested: 0, timers_fired: 0 }
    }

    /// What handling `event` does.
    pub open spec fn spec_handle(pre: ConsensusComponent, event: ConsensusEvent) -> (
        ConsensusComponent,
        Seq<Effect>,
    ) {
        match event {
            ConsensusEvent::TimerRequested { delay_ms } => (
                ConsensusComponent { timers_requested: spec_sat_inc(pre.timers_requested), ..pre },
                seq![Effect::ScheduleTimer { delay_ms }],
            ),
        }
    }

    /// Handles one of this component's own events.
    pub fn handle_event(&mut self, event: ConsensusEvent) -> (r: Vec<Effect>)
        ensures
            ({
                let (post, effects) = Self::spec_handle(*old(self), event);
                *final(self) == post && r@ == effects
            }),
    {
        match event {
            ConsensusEvent::TimerRequested { delay_ms } => {
                self.timers_requested = sat_inc(self.timers_requested);
                let mut effects: Vec<Effect> = Vec::new();
                effects.push(Effect::ScheduleTimer { delay_ms });
                effects
            },
        }
    }

    /// Handles the completion of an effect this component requested.
    pub open spec fn spec_handle_outcome(pre: ConsensusComponent, outcome: EffectOutcome)
        -> ConsensusComponent {
        match outcome {
            EffectOutcome::TimerFired => ConsensusComponent {
                timers_fired: spec_sat_inc(pre.timers_fired),
                ..pre
            },
            _ => pre,
        }
    }

    /// Executable counterpart of [`Self::spec_handle_outcome`].
    pub fn handle_outcome(&mut self, outcome: EffectOutcome)
        ensures
            *final(self) == Self::spec_handle_outcome(*old(self), outcome),
    {
        match outcome {
            EffectOutcome::TimerFired => {
                self.timers_fired = sat_inc(self.timers_fired);
            },
            _ => {},
        }
    }
}

/// Spec-level model of the storage component's state.
pub struct StorageModel {
    pub blocks: Seq<Block>,
    pub rejected: u64,
}

impl StorageModel {
    /// The chain is strictly height-ordered, and every height leaves room
    /// for a successor.
    pub open spec fn wf(&self) -> bool {
        &&& forall|i: int, j: int|
            0 <= i < j < self.blocks.len() ==> #[trigger] self.blocks[i].header.height
                < #[trigger] self.blocks[j].header.height
        &&& forall|i: int|
            0 <= i < self.blocks.len() ==> #[trigger] self.blocks[i].header.height < u64::MAX
    }

    /// Whether `block` may be appended: its height must exceed every stored
    /// height and leave room for a successor.
    pub open spec fn spec_accepts(&self, block: Block) -> bool {
        &&& self.blocks.len() == 0 || self.blocks.last().header.height < block.header.height
        &&& block.header.height < u64::MAX
    }
}

/// State of the block storage component: the height-ordered chain.
#[derive(Clone, PartialEq, Debug)]
pub struct StorageComponent {
    /// The persisted blocks, in chain order.
    pub blocks: Vec<Block>,
    /// Blocks rejected because they would break chain order (recoverable).
    pub rejected: u64,
}

impl View for StorageComponent {
    type V = StorageModel;

    open spec fn view(&self) -> StorageModel {
        StorageModel { blocks: self.blocks@, rejected: self.rejected }
    }
}

impl StorageComponent {
    /// The chain is strictly height-ordered.
    pub open spec fn wf(&self) -> bool {
        self@.wf()
    }

    pub fn new() -> (r: StorageComponent)
        ensures
            r.blocks@.len() == 0,
            r.rejected == 0,
            r.wf(),
    {
        StorageComponent { blocks: Vec::new(), rejected: 0 }
    }

    /// Builds a store already holding the given chain, as recovered from
    /// disk by the storage collaborator.
    pub fn with_blocks(blocks: Vec<Block>) -> (r: StorageComponent)
        requires
            forall|i: int, j: int|
                0 <= i < j < blocks@.len() ==> #[trigger] blocks@[i].header.height
                    < #[trigger] blocks@[j].header.height,
            forall|i: int| 0 <= i < blocks@.len() ==> #[trigger] blocks@[i].header.height
                < u64::MAX,
        ensures
            r.blocks == blocks,
            r.rejected == 0,
            r.wf(),
    {
        StorageComponent { blocks, rejected: 0 }
    }

    /// What handling `event` does.
    pub open spec fn spec_handle(pre: StorageModel, event: StorageEvent) -> (
        StorageModel,
        Seq<Effect>,
    ) {
        match event {
            StorageEvent::PutBlock { block } => {
                if pre.spec_accepts(block) {
                    (StorageModel { blocks: pre.blocks.push(block), ..pre }, seq![])
                } else {
                    (StorageModel { rejected: spec_sat_inc(pre.rejected), ..pre }, seq![])
                }
            },
        }
    }

    /// Executable counterpart of [`StorageModel::spec_accepts`]: whether a
    /// put of `block` would be accepted.
    pub fn accepts(&self, block: &Block) -> (r: bool)
        ensures
            r == self@.spec_accepts(*block),
    {
        let ordered: bool = if self.blocks.len() == 0 {
            true
        } else {
            self.blocks[self.blocks.len() - 1].header.height < block.header.height
        };
        ordered && block.header.height < u64::MAX
    }

    /// Handles one of this component's own events.  An out-of-order block is
    /// a recoverable condition: it is counted and dropped, never escalated.
    pub fn handle_event(&mut self, event: StorageEvent) -> (r: Vec<Effect>)
        requires
            old(self).wf(),
        ensures
            ({
                let (post, effects) = Self::spec_handle(old(self)@, event);
                final(self)@ == post && r@ == effects
            }),
            final(self).wf(),
    {
        match event {
            StorageEvent::PutBlock { block } => {
                let ordered: bool = if self.blocks.len() == 0 {
                    true
                } else {
                    self.blocks[self.blocks.len() - 1].header.height < block.header.height
                };
                let accepts = ordered && block.header.height < u64::MAX;
                if accepts {
                    self.blocks.push(block);
                } else {
                    self.rejected = sat_inc(self.rejected);
                }
                Vec::new()
            },
        }
    }

    // ---- The narrow read-only query surface (other components may read
    // ---- these published facts without routing through the event queue).

    /// Whether the chain is empty.
    pub fn is_empty(&self) -> (r: bool)
        ensures
            r == (self.blocks@.len() == 0),
    {
        self.blocks.len() == 0
    }

    /// The header of the first (lowest) block, if any.
    pub fn first_block_header(&self) -> (r: Option<BlockHeader>)
        ensures
            self.blocks@.len() == 0 ==> r is None,
            self.blocks@.len() > 0 ==> r == Some(self.blocks@[0].header),
    {
        if self.blocks.len() == 0 {
            None
        } else {
            Some(self.blocks[0].header)
        }
    }

    /// The header of the highest block, if any.
    pub fn highest_block_header(&self) -> (r: Option<BlockHeader>)
        ensures
            self.blocks@.len() == 0 ==> r is None,
            self.blocks@.len() > 0 ==> r == Some(self.blocks@.last().header),
    {
        if self.blocks.len() == 0 {
            None
        } else {
            Some(self.blocks[self.blocks.len() - 1].header)
        }
    }

    /// The earliest element of `s` whose era is at or after `era`, if any.
    pub open spec fn spec_first_at_or_after(s: Seq<Block>, era: EraId) -> Option<BlockHeader>
        decreases s.len(),
    {
        if s.len() == 0 {
            None
        } else if s[0].header.era_id.value >= era.value {
            Some(s[0].header)
        } else {
            Self::spec_first_at_or_after(s.drop_first(), era)
        }
    }

    /// The earliest stored header whose era is at or after `era`, if any.
    pub open spec fn spec_first_header_at_or_after_era(&self, era: EraId) -> Option<BlockHeader> {
        Self::spec_first_at_or_after(self.blocks@, era)
    }

    /// Executable counterpart of [`Self::spec_first_header_at_or_after_era`].
    pub fn first_header_at_or_after_era(&self, era: EraId) -> (r: Option<BlockHeader>)
        ensures
            r == self.spec_first_header_at_or_after_era(era),
    {
        let n = self.blocks.len();
        let mut j: usize = n;
        let mut acc: Option<BlockHeader> = None;
        while j > 0
            invariant
                0 <= j <= self.blocks@.len(),
                n == self.blocks@.len(),
                acc == Self::spec_first_at_or_after(self.blocks@.skip(j as int), era),
            decreases j,
        {
            j = j - 1;
            let h = self.blocks[j].header;
            proof {
                assert(self.blocks@.skip(j as int).drop_first() =~= self.blocks@.skip(
                    j as int + 1,
                ));
                assert(self.blocks@.skip(j as int)[0] == self.blocks@[j as int]);
            }
            if h.era_id.value >= era.value {
                acc = Some(h);
            }
        }
        proof {
            assert(self.blocks@.skip(0) =~= self.blocks@);
        }
        acc
    }

    /// The earliest element of `s` that is a switch block of era `era`.
    pub open spec fn spec_first_switch_of_era(s: Seq<Block>, era: EraId) -> Option<BlockHeader>
        decreases s.len(),
    {
        if s.len() == 0 {
            None
        } else if s[0].header.era_id == era && s[0].header.is_switch {
            Some(s[0].header)
        } else {
            Self::spec_first_switch_of_era(s.drop_first(), era)
        }
    }

    /// The switch block header of era `era`, if one is stored.
    pub open spec fn spec_switch_block_of_era(&self, era: EraId) -> Option<BlockHeader> {
        Self::spec_first_switch_of_era(self.blocks@, era)
    }

    /// Executable counterpart of [`Self::spec_switch_block_of_era`].
    pub fn switch_block_of_era(&self, era: EraId) -> (r: Option<BlockHeader>)
        ensures
            r == self.spec_switch_block_of_era(era),
    {
        let n = self.blocks.len();
        let mut j: usize = n;
        let mut acc: Option<BlockHeader> = None;
        while j > 0
            invariant
                0 <= j <= self.blocks@.len(),
                n == self.blocks@.len(),
                acc == Self::spec_first_switch_of_era(self.blocks@.skip(j as int), era),
            decreases j,
        {
            j = j - 1;
            let h = self.blocks[j].header;
            proof {
                assert(self.blocks@.skip(j as int).drop_first() =~= self.blocks@.skip(
                    j as int + 1,
                ));
                assert(self.blocks@.skip(j as int)[0] == self.blocks@[j as int]);
            }
            if h.era_id.value == era.value && h.is_switch {
                acc = Some(h);
            }
        }
        proof {
            assert(self.blocks@.skip(0) =~= self.blocks@);
        }
        acc
    }

    /// How many switch blocks of era `era` stand in `s`.
    pub open spec fn spec_switch_count(s: Seq<Block>, era: EraId) -> nat
        decreases s.len(),
    {
        if s.len() == 0 {
            0
        } else {
            (if s[0].header.era_id == era && s[0].header.is_switch {
                1nat
            } else {
                0nat
            }) + Self::spec_switch_count(s.drop_first(), era)
        }
    }

    /// How many switch blocks of era `era` are stored.
    pub open spec fn spec_switch_block_count(&self, era: EraId) -> nat {
        Self::spec_switch_count(self.blocks@, era)
    }

    /// Executable counterpart of [`Self::spec_switch_block_count`].
    pub fn switch_block_count(&self, era: EraId) -> (r: usize)
        ensures
            r == self.spec_switch_block_count(era),
    {
        let n = self.blocks.len();
        let mut j: usize = n;
        let mut count: usize = 0;
        while j > 0
            invariant
                0 <= j <= self.blocks@.len(),
                n == self.blocks@.len(),
                count == Self::spec_switch_count(self.blocks@.skip(j as int), era),
                count <= n - j,
            decreases j,
        {
            j = j - 1;
            let h = self.blocks[j].header;
            proof {
                assert(self.blocks@.skip(j as int).drop_first() =~= self.blocks@.skip(
                    j as int + 1,
                ));
                assert(self.blocks@.skip(j as int)[0] == self.blocks@[j as int]);
            }
            if h.era_id.value == era.value && h.is_switch {
                count = count + 1;
            }
        }
        proof {
            assert(self.blocks@.skip(0) =~= self.blocks@);
        }
        count
    }
}

/// State of the contract runtime component.
#[derive(Clone, Copy, PartialEq, Eq, Structural, Debug)]
pub struct ContractRuntimeComponent {
    /// The root hash of the global state last committed, if any.
    pub state_root: Option<u64>,
    /// Deploys executed so far.
    pub deploys_executed: u64,
}

impl ContractRuntimeComponent {
    pub fn new() -> (r: ContractRuntimeComponent)
        ensures
            r.state_root is None,
            r.deploys_executed == 0,
    {
        ContractRuntimeComponent { state_root: None, deploys_executed: 0 }
    }

    /// Handles the completion of an effect this component requested.
    pub open spec fn spec_handle_outcome(pre: ContractRuntimeComponent, outcome: EffectOutcome)
        -> ContractRuntimeComponent {
        match outcome {
            EffectOutcome::DeployExecuted { state_root } => ContractRuntimeComponent {
                state_root: Some(state_root),
                deploys_executed: spec_sat_inc(pre.deploys_executed),
            },
            EffectOutcome::SetupCommitted { block } => ContractRuntimeComponent {
                state_root: Some(block.header.state_root),
                ..pre
            },
            _ => pre,
        }
    }

    /// Executable counterpart of [`Self::spec_handle_outcome`].
    pub fn handle_outcome(&mut self, outcome: EffectOutcome)
        ensures
            *final(self) == Self::spec_handle_outcome(*old(self), outcome),
    {
        match outcome {
            EffectOutcome::DeployExecuted { state_root } => {
                self.state_root = Some(state_root);
                self.deploys_executed = sat_inc(self.deploys_executed);
            },
            EffectOutcome::SetupCommitted { block } => {
                self.state_root = Some(block.header.state_root);
            },
            _ => {},
        }
    }
}

} // verus!
