//! The bootstrap sequencer: the two-phase startup state machine and the
//! genesis/upgrade invariants it enforces at the phase boundary.
//!
//! The node boots by running an initializer runner to completion; only if
//! the initializer stopped successfully is a validator runner constructed
//! from it — never otherwise.  The chain-setup checks guard the two fatal
//! edge cases: genesis over a non-empty chain, and a non-emergency upgrade
//! that would clobber existing post-upgrade history.

use vstd::prelude::*;
use crate::components::{StorageComponent, StorageModel};
use crate::error::Error;
use crate::reactor::{InitializerReactor, ValidatorReactor};
use crate::types::{ChainSetup, EraId};

verus! {

/// What validating a chain setup against the stored chain yields.
///
/// - Genesis over a chain that already holds at least one block is rejected
///   with `CannotRunGenesisOnPreExistingBlockchain`, carrying the first
///   stored header.
/// - A non-emergency upgrade over a chain that already holds a block dated
///   at or after the activation point is rejected with
///   `NonEmergencyUpgradeWillClobberExistingBlockChain`, carrying the
///   earliest such header; an emergency upgrade skips this check.
/// - An upgrade whose predecessor era has no stored switch block is
///   rejected with `NoSuchSwitchBlockHeaderForUpgradeEra`, since there is
///   no block to apply the upgrade on top of.
pub open spec fn spec_verify_chain_setup(setup: ChainSetup, storage: StorageModel) -> Result<
    (),
    Error,
> {
    match setup {
        ChainSetup::Genesis(_) => {
            if storage.blocks.len() > 0 {
                Err(
                    Error::CannotRunGenesisOnPreExistingBlockchain {
                        first_block_header: storage.blocks[0].header,
                    },
                )
            } else {
                Ok(())
            }
        },
        ChainSetup::Upgrade(u) => {
            let clobbered = StorageComponent::spec_first_at_or_after(
                storage.blocks,
                u.activation_point,
            );
            if !u.is_emergency && clobbered is Some {
                Err(
                    Error::NonEmergencyUpgradeWillClobberExistingBlockChain {
                        preexisting_block_header: clobbered->0,
                    },
                )
            } else if u.activation_point.value == 0 || StorageComponent::spec_first_switch_of_era(
                storage.blocks,
                EraId { value: (u.activation_point.value - 1) as u64 },
            ) is None {
                Err(Error::NoSuchSwitchBlockHeaderForUpgradeEra { upgrade_era_id: u.activation_point })
            } else {
                Ok(())
            }
        },
    }
}

/// Executable counterpart of [`spec_verify_chain_setup`]: validates the
/// setup against the chain the storage component publishes, and on
/// rejection returns the fatal error carrying the offending data.
pub fn verify_chain_setup(setup: &ChainSetup, storage: &StorageComponent) -> (r: Result<
    (),
    Error,
>)
    ensures
        r == spec_verify_chain_setup(*setup, storage@),
{
    match setup {
        ChainSetup::Genesis(_) => {
            match storage.first_block_header() {
                Some(first_block_header) => Err(
                    Error::CannotRunGenesisOnPreExistingBlockchain { first_block_header },
                ),
                None => Ok(()),
            }
        },
        ChainSetup::Upgrade(u) => {
            let clobbered = if u.is_emergency {
                None
            } else {
                storage.first_header_at_or_after_era(u.activation_point)
            };
            match clobbered {
                Some(preexisting_block_header) => Err(
                    Error::NonEmergencyUpgradeWillClobberExistingBlockChain {
                        preexisting_block_header,
                    },
                ),
                None => {
                    if u.activation_point.value == 0 {
                        Err(
                            Error::NoSuchSwitchBlockHeaderForUpgradeEra {
                                upgrade_era_id: u.activation_point,
                            },
                        )
                    } else {
                        match storage.switch_block_of_era(
                            EraId { value: u.activation_point.value - 1 },
                        ) {
                            None => Err(
                                Error::NoSuchSwitchBlockHeaderForUpgradeEra {
                                    upgrade_era_id: u.activation_point,
                                },
                            ),
                            Some(_) => Ok(()),
                        }
                    }
                },
            }
        },
    }
}

/// The height at which the setup's immediate block is produced: the next
/// height of the stored chain.
pub open spec fn spec_setup_height(storage: StorageModel) -> u64
    recommends
        storage.wf(),
{
    if storage.blocks.len() == 0 {
        0
    } else {
        (storage.blocks.last().header.height + 1) as u64
    }
}

/// The era of the setup's immediate block: era zero for genesis, the
/// activation era for an upgrade.
pub open spec fn spec_setup_era(setup: ChainSetup) -> EraId {
    match setup {
        ChainSetup::Genesis(_) => EraId { value: 0 },
        ChainSetup::Upgrade(u) => u.activation_point,
    }
}

/// The states of the two-phase startup state machine.  `Validating` runs
/// indefinitely; `InitFailed` is terminal and fatal: the process exits
/// non-zero without ever validating.
#[derive(Clone, Copy, PartialEq, Eq, Structural, Debug)]
pub enum BootstrapStatus {
    Initializing,
    InitFailed,
    Validating,
}

/// The bootstrap sequencer: orchestrates the initializer phase to
/// completion, inspects its terminal state once, and — only on success —
/// constructs the validator phase from it.
pub struct BootstrapSequencer {
    pub status: BootstrapStatus,
}

impl BootstrapSequencer {
    pub fn new() -> (r: BootstrapSequencer)
        ensures
            r.status is Initializing,
    {
        BootstrapSequencer { status: BootstrapStatus::Initializing }
    }

    /// The handoff: consumes the finished initializer and promotes to the
    /// validator phase if and only if the initializer stopped successfully.
    /// On a failure terminal state no validator is ever constructed — a
    /// node must not validate against incompletely initialized chain state
    /// — and the sequencer moves to its fatal terminal status instead.
    ///
    /// The promotion is an in-process ownership transfer: the component
    /// states, the stored chain among them, are moved into the validator
    /// unchanged, so the chain setup is never re-run.
    pub fn promote(&mut self, initializer: InitializerReactor) -> (r: Option<ValidatorReactor>)
        requires
            old(self).status is Initializing,
            initializer@.wf(),
        ensures
            r is Some <==> initializer@.spec_stopped_successfully(),
            final(self).status is Validating <==> initializer@.spec_stopped_successfully(),
            final(self).status is InitFailed <==> !initializer@.spec_stopped_successfully(),
            r is Some ==> ({
                let v = r->0;
                &&& v@.network == initializer@.network
                &&& v@.consensus == initializer@.consensus
                &&& v@.storage == initializer@.storage
                &&& v@.contract_runtime == initializer@.contract_runtime
                &&& v@.protocol_version == initializer@.setup.spec_protocol_version()
                &&& !v@.stopped
                &&& v@.wf()
            }),
    {
        if initializer.stopped_successfully() {
            self.status = BootstrapStatus::Validating;
            Some(ValidatorReactor::new(initializer))
        } else {
            self.status = BootstrapStatus::InitFailed;
            None
        }
    }
}


} // verus!
