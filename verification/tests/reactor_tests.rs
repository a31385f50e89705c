use reactor_core::components::StorageComponent;
use reactor_core::effect::{execute_effect, Effect, ScheduledEffect};
use reactor_core::event::{
    ComponentKind, ConsensusEvent, ContractRuntimeEvent, ControlEvent, EffectOutcome, Event,
    NetworkEvent, StorageEvent,
};
use reactor_core::reactor::Reactor;
use reactor_core::rng::NodeRng;
use reactor_core::runner::Runner;
use reactor_core::types::{Block, BlockHeader, ChainSetup, EraId, GenesisConfig};

fn genesis_setup() -> ChainSetup {
    ChainSetup::Genesis(GenesisConfig { protocol_version: 1, initial_state_root: 42 })
}

fn header(height: u64, era: u64, is_switch: bool) -> BlockHeader {
    BlockHeader { height, era_id: EraId { value: era }, protocol_version: 1, state_root: 9, is_switch }
}

#[test]
fn rng_is_deterministic_per_seed() {
    let mut a = NodeRng::from_seed([7u8; 32]);
    let mut b = NodeRng::from_seed([7u8; 32]);
    for _ in 0..16 {
        assert_eq!(a.next_u64(), b.next_u64());
    }
}

#[test]
fn routing_is_static_and_total() {
    assert_eq!(
        Event::Network(NetworkEvent::GossipRequested { payload: 1 }).route(),
        Some(ComponentKind::Network)
    );
    assert_eq!(
        Event::Consensus(ConsensusEvent::TimerRequested { delay_ms: 5 }).route(),
        Some(ComponentKind::Consensus)
    );
    assert_eq!(
        Event::Storage(StorageEvent::PutBlock { block: Block::new(header(0, 0, true)) }).route(),
        Some(ComponentKind::Storage)
    );
    assert_eq!(
        Event::ContractRuntime(ContractRuntimeEvent::Commence).route(),
        Some(ComponentKind::ContractRuntime)
    );
    assert_eq!(
        Event::EffectResult { effect_id: 3, outcome: EffectOutcome::TimerFired }.route(),
        Some(ComponentKind::Consensus)
    );
    assert_eq!(Event::Control(ControlEvent::Stop).route(), None);
}

#[test]
fn executor_produces_one_completion_per_effect() {
    let send = ScheduledEffect {
        id: 4,
        effect: Effect::SendMessage { recipient: 9, payload: 11, nonce: 13 },
    };
    assert_eq!(
        execute_effect(&send),
        Event::EffectResult {
            effect_id: 4,
            outcome: EffectOutcome::MessageSent { recipient: 9, nonce: 13 }
        }
    );
    let timer = ScheduledEffect { id: 5, effect: Effect::ScheduleTimer { delay_ms: 100 } };
    assert_eq!(
        execute_effect(&timer),
        Event::EffectResult { effect_id: 5, outcome: EffectOutcome::TimerFired }
    );
    let commit = ScheduledEffect {
        id: 6,
        effect: Effect::CommitSetup { setup: genesis_setup(), height: 0, era_id: EraId { value: 0 } },
    };
    match execute_effect(&commit) {
        Event::EffectResult { effect_id: 6, outcome: EffectOutcome::SetupCommitted { block } } => {
            assert!(block.header.is_switch);
            assert_eq!(block.header.height, 0);
            assert_eq!(block.header.era_id, EraId { value: 0 });
            assert_eq!(block.header.state_root, 42);
            assert_eq!(block.header.protocol_version, 1);
        }
        other => panic!("unexpected completion: {:?}", other),
    }
    let inner = Event::Storage(StorageEvent::PutBlock { block: Block::new(header(0, 0, true)) });
    let deliver = ScheduledEffect { id: 7, effect: Effect::Deliver { event: inner } };
    assert_eq!(execute_effect(&deliver), inner);
}

#[test]
fn dispatch_order_equals_submission_order() {
    let mut rng = NodeRng::from_seed([1u8; 32]);
    let mut runner = Runner::new_initializer(genesis_setup(), StorageComponent::new(), vec![7]);
    runner.enqueue(Event::Network(NetworkEvent::GossipRequested { payload: 1 }));
    runner.enqueue(Event::Network(NetworkEvent::GossipRequested { payload: 2 }));

    // First the construction-time commencement event, then the two gossip
    // requests, in submission order.
    let first = runner.step(&mut rng).unwrap();
    assert!(matches!(first[0].effect, Effect::CommitSetup { .. }));
    let second = runner.step(&mut rng).unwrap();
    assert!(matches!(second[0].effect, Effect::SendMessage { payload: 1, .. }));
    let third = runner.step(&mut rng).unwrap();
    assert!(matches!(third[0].effect, Effect::SendMessage { payload: 2, .. }));
}

#[test]
fn replay_produces_identical_effects() {
    let events = [
        Event::Network(NetworkEvent::GossipRequested { payload: 10 }),
        Event::Network(NetworkEvent::MessageReceived { sender: 3, payload: 5 }),
        Event::Network(NetworkEvent::GossipRequested { payload: 20 }),
        Event::Consensus(ConsensusEvent::TimerRequested { delay_ms: 250 }),
    ];
    let run_once = || {
        let mut rng = NodeRng::from_seed([9u8; 32]);
        let mut runner =
            Runner::new_initializer(genesis_setup(), StorageComponent::new(), vec![5, 6, 7]);
        for e in events.iter() {
            runner.enqueue(*e);
        }
        let mut produced: Vec<ScheduledEffect> = Vec::new();
        while let Some(batch) = runner.step(&mut rng) {
            produced.extend(batch);
        }
        produced
    };
    let a = run_once();
    let b = run_once();
    assert!(!a.is_empty());
    assert_eq!(a, b);
}

#[test]
fn control_event_halts_the_runner() {
    let mut rng = NodeRng::from_seed([2u8; 32]);
    let mut runner = Runner::new_initializer(genesis_setup(), StorageComponent::new(), vec![]);
    runner.enqueue(Event::Control(ControlEvent::Stop));
    assert!(runner.step(&mut rng).is_some()); // commence
    assert!(runner.step(&mut rng).is_some()); // stop: dispatched, then halt
    assert!(runner.step(&mut rng).is_none()); // halted
    let initializer = runner.into_initializer();
    assert!(!initializer.stopped_successfully());
}

#[test]
fn storage_rejects_out_of_order_blocks() {
    let mut storage = StorageComponent::new();
    storage.handle_event(StorageEvent::PutBlock { block: Block::new(header(5, 0, false)) });
    storage.handle_event(StorageEvent::PutBlock { block: Block::new(header(3, 0, false)) });
    storage.handle_event(StorageEvent::PutBlock { block: Block::new(header(6, 1, true)) });
    assert_eq!(storage.blocks.len(), 2);
    assert_eq!(storage.rejected, 1);
    assert_eq!(storage.highest_block_header().unwrap().height, 6);
    assert_eq!(storage.first_block_header().unwrap().height, 5);
    assert_eq!(
        storage.switch_block_of_era(EraId { value: 1 }).unwrap().height,
        6
    );
    assert!(storage.switch_block_of_era(EraId { value: 0 }).is_none());
    assert_eq!(
        storage
            .first_header_at_or_after_era(EraId { value: 1 })
            .unwrap()
            .height,
        6
    );
    assert_eq!(storage.switch_block_count(EraId { value: 1 }), 1);
}

#[test]
fn malformed_peer_message_is_recoverable() {
    let mut rng = NodeRng::from_seed([3u8; 32]);
    let mut runner = Runner::new_initializer(genesis_setup(), StorageComponent::new(), vec![]);
    runner.enqueue(Event::Network(NetworkEvent::MessageReceived { sender: 1, payload: 0 }));
    runner.enqueue(Event::Network(NetworkEvent::MessageReceived { sender: 1, payload: 8 }));
    let _ = runner.run(&mut rng, 100);
    assert!(runner.fatal_error().is_none());
    match runner.into_inner() {
        Reactor::Initializer(r) => {
            assert_eq!(r.network.dropped, 1);
            assert_eq!(r.network.received, 1);
        }
        Reactor::Validator(_) => panic!("phase must still be the initializer"),
    }
}
