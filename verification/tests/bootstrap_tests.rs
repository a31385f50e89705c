use reactor_core::components::StorageComponent;
use reactor_core::error::Error;
use reactor_core::event::{ConsensusEvent, EffectOutcome, Event, NetworkEvent};
use reactor_core::reactor::Reactor;
use reactor_core::rng::NodeRng;
use reactor_core::runner::Runner;
use reactor_core::sequencer::{verify_chain_setup, BootstrapSequencer, BootstrapStatus};
use reactor_core::types::{
    Block, BlockHeader, ChainSetup, EraId, GenesisConfig, UpgradeConfig,
};

fn genesis_setup() -> ChainSetup {
    ChainSetup::Genesis(GenesisConfig { protocol_version: 1, initial_state_root: 42 })
}

fn upgrade_setup(activation: u64, is_emergency: bool) -> ChainSetup {
    ChainSetup::Upgrade(UpgradeConfig {
        activation_point: EraId { value: activation },
        is_emergency,
        new_protocol_version: 2,
        new_state_root: 77,
    })
}

fn header(height: u64, era: u64, is_switch: bool) -> BlockHeader {
    BlockHeader { height, era_id: EraId { value: era }, protocol_version: 1, state_root: 9, is_switch }
}

fn seeded_storage(headers: &[BlockHeader]) -> StorageComponent {
    StorageComponent::with_blocks(headers.iter().map(|h| Block::new(*h)).collect())
}

#[test]
fn genesis_rejected_on_pre_existing_blockchain() {
    let first = header(1, 0, false);
    let storage = seeded_storage(&[first, header(2, 0, true)]);
    let result = verify_chain_setup(&genesis_setup(), &storage);
    assert_eq!(
        result,
        Err(Error::CannotRunGenesisOnPreExistingBlockchain { first_block_header: first })
    );
    assert!(result.unwrap_err().is_fatal());
}

#[test]
fn genesis_accepted_on_empty_store() {
    let storage = StorageComponent::new();
    assert_eq!(verify_chain_setup(&genesis_setup(), &storage), Ok(()));
}

#[test]
fn non_emergency_upgrade_rejected_when_it_would_clobber() {
    let preexisting = header(5, 3, false);
    let storage = seeded_storage(&[header(4, 2, true), preexisting, header(6, 3, true)]);
    let result = verify_chain_setup(&upgrade_setup(3, false), &storage);
    assert_eq!(
        result,
        Err(Error::NonEmergencyUpgradeWillClobberExistingBlockChain {
            preexisting_block_header: preexisting,
        })
    );
}

#[test]
fn emergency_upgrade_may_clobber() {
    let storage = seeded_storage(&[header(4, 2, true), header(5, 3, false)]);
    assert_eq!(verify_chain_setup(&upgrade_setup(3, true), &storage), Ok(()));
}

#[test]
fn upgrade_rejected_without_switch_block_of_previous_era() {
    let storage = seeded_storage(&[header(0, 0, true)]);
    let result = verify_chain_setup(&upgrade_setup(5, false), &storage);
    assert_eq!(
        result,
        Err(Error::NoSuchSwitchBlockHeaderForUpgradeEra { upgrade_era_id: EraId { value: 5 } })
    );
}

#[test]
fn genesis_failure_surfaces_as_fatal_runner_error() {
    let mut rng = NodeRng::from_seed([4u8; 32]);
    let first = header(1, 0, false);
    let mut runner = Runner::new_initializer(genesis_setup(), seeded_storage(&[first]), vec![]);
    let steps = runner.run(&mut rng, 100);
    assert!(steps < 100);
    assert_eq!(
        runner.fatal_error(),
        &Some(Error::CannotRunGenesisOnPreExistingBlockchain { first_block_header: first })
    );
    assert!(!runner.into_initializer().stopped_successfully());
}

#[test]
fn non_switch_block_after_setup_is_an_invariant_violation() {
    let mut rng = NodeRng::from_seed([5u8; 32]);
    let mut runner = Runner::new_initializer(genesis_setup(), StorageComponent::new(), vec![]);
    // Dispatch the commencement; the commit effect goes out.
    let effects = runner.step(&mut rng).unwrap();
    assert_eq!(effects.len(), 1);
    // A faulty collaborator answers with a block that is not a switch block.
    let bad_block = Block::new(header(0, 0, false));
    runner.enqueue_completion(Event::EffectResult {
        effect_id: effects[0].id,
        outcome: EffectOutcome::SetupCommitted { block: bad_block },
    });
    assert!(runner.step(&mut rng).is_some());
    assert_eq!(
        runner.fatal_error(),
        &Some(Error::FailedToCreateSwitchBlockAfterGenesisOrUpgrade { new_bad_block: bad_block })
    );
    assert!(!runner.into_initializer().stopped_successfully());
}

#[test]
fn no_partial_promotion_on_failed_initialization() {
    let mut rng = NodeRng::from_seed([6u8; 32]);
    let mut runner =
        Runner::new_initializer(genesis_setup(), seeded_storage(&[header(1, 0, false)]), vec![]);
    let _ = runner.run(&mut rng, 100);
    let initializer = runner.into_initializer();
    assert!(!initializer.stopped_successfully());
    let mut sequencer = BootstrapSequencer::new();
    assert!(sequencer.promote(initializer).is_none());
    assert_eq!(sequencer.status, BootstrapStatus::InitFailed);
}

#[test]
fn handoff_happens_exactly_on_success() {
    let mut rng = NodeRng::from_seed([7u8; 32]);
    let mut runner = Runner::new_initializer(genesis_setup(), StorageComponent::new(), vec![]);
    let steps = runner.run(&mut rng, 100);
    assert!(steps < 100);
    let initializer = runner.into_initializer();
    assert!(initializer.stopped_successfully());
    let mut sequencer = BootstrapSequencer::new();
    let validator = sequencer.promote(initializer).unwrap();
    assert_eq!(sequencer.status, BootstrapStatus::Validating);
    assert_eq!(validator.storage.blocks.len(), 1);
}

#[test]
fn end_to_end_genesis_then_validation() {
    let mut rng = NodeRng::from_seed([8u8; 32]);
    let mut runner = Runner::new_initializer(genesis_setup(), StorageComponent::new(), vec![]);
    let steps = runner.run(&mut rng, 100);
    assert!(steps < 100);
    assert!(runner.fatal_error().is_none());

    let initializer = runner.into_initializer();
    assert!(initializer.stopped_successfully());
    assert_eq!(initializer.storage.switch_block_count(EraId { value: 0 }), 1);
    assert_eq!(initializer.storage.blocks.len(), 1);
    assert_eq!(initializer.storage.blocks[0].header.height, 0);

    let mut sequencer = BootstrapSequencer::new();
    let validator = sequencer.promote(initializer).unwrap();
    let mut vrunner = Runner::new_with_reactor(Reactor::Validator(validator));
    vrunner.enqueue(Event::Network(NetworkEvent::MessageReceived { sender: 2, payload: 3 }));
    vrunner.enqueue(Event::Consensus(ConsensusEvent::TimerRequested { delay_ms: 10 }));
    let vsteps = vrunner.run(&mut rng, 100);
    assert!(vsteps < 100);
    assert!(vrunner.fatal_error().is_none());
    match vrunner.into_inner() {
        Reactor::Validator(v) => {
            // The events were accepted, and genesis was not re-run: the
            // chain still holds exactly the one switch block.
            assert_eq!(v.network.received, 1);
            assert_eq!(v.consensus.timers_requested, 1);
            assert_eq!(v.consensus.timers_fired, 1);
            assert_eq!(v.storage.blocks.len(), 1);
            assert_eq!(v.storage.switch_block_count(EraId { value: 0 }), 1);
        }
        Reactor::Initializer(_) => panic!("phase must be the validator"),
    }
}

#[test]
fn upgrade_produces_switch_block_of_activation_era() {
    let mut rng = NodeRng::from_seed([10u8; 32]);
    let storage = seeded_storage(&[header(0, 0, true)]);
    let mut runner = Runner::new_initializer(upgrade_setup(1, false), storage, vec![]);
    let steps = runner.run(&mut rng, 100);
    assert!(steps < 100);
    assert!(runner.fatal_error().is_none());
    let initializer = runner.into_initializer();
    assert!(initializer.stopped_successfully());
    assert_eq!(initializer.storage.blocks.len(), 2);
    let new_block = initializer.storage.blocks[1];
    assert_eq!(new_block.header.height, 1);
    assert_eq!(new_block.header.era_id, EraId { value: 1 });
    assert!(new_block.header.is_switch);
    assert_eq!(new_block.header.protocol_version, 2);
    assert_eq!(new_block.header.state_root, 77);
}
