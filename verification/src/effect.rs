//! Effects: descriptions of requested asynchronous work.
//!
//! An effect is a one-shot request produced by a component: it is scheduled
//! at most once and produces exactly one completion event.  The runner tags
//! each effect with an id before handing it to the scheduler; the scheduler
//! answers with an `Event::EffectResult` carrying the same id (or, for a
//! `Deliver` effect, with the carried event itself).

use vstd::prelude::*;
use crate::event::{Event, EffectOutcome};
use crate::types::{Block, BlockHeader, ChainSetup, EraId};

verus! {

/// A requested unit of asynchronous work.
#[derive(Clone, Copy, PartialEq, Eq, Structural, Debug)]
pub enum Effect {
    /// Send a message to a peer; the nonce was drawn from the runner's
    /// pseudo-random source.
    SendMessage { recipient: u64, payload: u64, nonce: u64 },
    /// Arrange for a timer to fire after the given delay.
    ScheduleTimer { delay_ms: u64 },
    /// Ask the execution engine to commit the chain setup and produce the
    /// immediate block for it, at the given height and era.
    CommitSetup { setup: ChainSetup, height: u64, era_id: EraId },
    /// Deliver an event to another component through the queue.
    Deliver { event: Event },
}

/// An effect after the runner tagged it with its id.
#[derive(Clone, Copy, PartialEq, Eq, Structural, Debug)]
pub struct ScheduledEffect {
    pub id: u64,
    pub effect: Effect,
}

/// The completion event [`execute_effect`] produces for a scheduled effect.
pub open spec fn spec_execute_effect(e: ScheduledEffect) -> Event {
    match e.effect {
        Effect::SendMessage { recipient, payload, nonce } => Event::EffectResult {
            effect_id: e.id,
            outcome: EffectOutcome::MessageSent { recipient, nonce },
        },
        Effect::ScheduleTimer { delay_ms } => Event::EffectResult {
            effect_id: e.id,
            outcome: EffectOutcome::TimerFired,
        },
        Effect::CommitSetup { setup, height, era_id } => Event::EffectResult {
            effect_id: e.id,
            outcome: EffectOutcome::SetupCommitted {
                block: Block {
                    header: BlockHeader {
                        height,
                        era_id,
                        protocol_version: setup.spec_protocol_version(),
                        state_root: setup.spec_state_root(),
                        is_switch: true,
                    },
                },
            },
        },
        Effect::Deliver { event } => event,
    }
}

/// The deterministic scheduler: executes one effect synchronously and
/// returns the completion event to re-inject into the queue.  A production
/// deployment executes effects concurrently and delivers each completion in
/// the order of completion; either way a single effect's completion is
/// delivered exactly once, which is all the reactor relies on.
pub fn execute_effect(e: &ScheduledEffect) -> (r: Event)
    ensures
        r == spec_execute_effect(*e),
{
    match &e.effect {
        Effect::SendMessage { recipient, payload: _, nonce } => Event::EffectResult {
            effect_id: e.id,
            outcome: EffectOutcome::MessageSent { recipient: *recipient, nonce: *nonce },
        },
        Effect::ScheduleTimer { delay_ms: _ } => Event::EffectResult {
            effect_id: e.id,
            outcome: EffectOutcome::TimerFired,
        },
        Effect::CommitSetup { setup, height, era_id } => {
            let (protocol_version, state_root) = match setup {
                ChainSetup::Genesis(g) => (g.protocol_version, g.initial_state_root),
                ChainSetup::Upgrade(u) => (u.new_protocol_version, u.new_state_root),
            };
            Event::EffectResult {
                effect_id: e.id,
                outcome: EffectOutcome::SetupCommitted {
                    block: Block {
                        header: BlockHeader {
                            height: *height,
                            era_id: *era_id,
                            protocol_version,
                            state_root,
                            is_switch: true,
                        },
                    },
                },
            }
        },
        Effect::Deliver { event } => *event,
    }
}

} // verus!
