//! Cross-component error taxonomy of the reactor.
//!
//! Each component's internal failures are wrapped into a single
//! reactor-level error kind per component, preserving the original cause as
//! a description.  Invariant violations detected at the bootstrap boundary
//! are fatal and carry the offending data for diagnostics.

use vstd::prelude::*;
use crate::types::{Block, BlockHeader, EraId};

verus! {

/// Error type returned by the reactor.
#[derive(Clone, PartialEq, Debug)]
pub enum Error {
    /// Metrics-related error.
    Metrics(String),
    /// `Network` component error.
    Network(String),
    /// `SmallNetwork` component error.
    SmallNetwork(String),
    /// An error starting one of the HTTP servers.
    ListeningError(String),
    /// `Storage` component error.
    Storage(String),
    /// `Consensus` component error.
    Consensus(String),
    /// `ContractRuntime` component error.
    ContractRuntime(String),
    /// Failed to serialize or deserialize data.
    Serialization(String),
    /// Engine state error.
    EngineState(String),
    /// Block execution error.
    BlockExecutionError(String),
    /// Malformed binary encoding in persisted or wire data.
    BytesReprError(String),
    /// Cannot run genesis on pre-existing blockchain.
    CannotRunGenesisOnPreExistingBlockchain {
        /// The first block header of the pre-existing chain.
        first_block_header: BlockHeader,
    },
    /// No such switch block for upgrade era.
    NoSuchSwitchBlockHeaderForUpgradeEra {
        /// The upgrade era id.
        upgrade_era_id: EraId,
    },
    /// Non-emergency upgrade will clobber existing blockchain.
    NonEmergencyUpgradeWillClobberExistingBlockChain {
        /// A preexisting block header dated at or after the activation point.
        preexisting_block_header: BlockHeader,
    },
    /// Failed to create a switch block immediately after genesis or upgrade.
    FailedToCreateSwitchBlockAfterGenesisOrUpgrade {
        /// A newly produced block which should be a switch block but is not.
        new_bad_block: Block,
    },
}

impl Error {
    /// An invariant violation leaves no consistent state to continue from:
    /// it is fatal and never retried.
    pub open spec fn spec_is_invariant_violation(&self) -> bool {
        match *self {
            Error::CannotRunGenesisOnPreExistingBlockchain { .. } => true,
            Error::NoSuchSwitchBlockHeaderForUpgradeEra { .. } => true,
            Error::NonEmergencyUpgradeWillClobberExistingBlockChain { .. } => true,
            Error::FailedToCreateSwitchBlockAfterGenesisOrUpgrade { .. } => true,
            _ => false,
        }
    }

    /// Whether the error must terminate the runner.  Metrics setup errors
    /// are surfaced but non-fatal; everything else either leaves a
    /// component's state inconsistent or violates a cross-component
    /// invariant, and escalates.
    pub open spec fn spec_is_fatal(&self) -> bool {
        !(*self matches Error::Metrics(_))
    }

    /// Executable check matching [`Self::spec_is_invariant_violation`].
    pub fn is_invariant_violation(&self) -> (r: bool)
        ensures
            r == self.spec_is_invariant_violation(),
    {
        match self {
            Error::CannotRunGenesisOnPreExistingBlockchain { .. } => true,
            Error::NoSuchSwitchBlockHeaderForUpgradeEra { .. } => true,
            Error::NonEmergencyUpgradeWillClobberExistingBlockChain { .. } => true,
            Error::FailedToCreateSwitchBlockAfterGenesisOrUpgrade { .. } => true,
            _ => false,
        }
    }

    /// Executable check matching [`Self::spec_is_fatal`].
    pub fn is_fatal(&self) -> (r: bool)
        ensures
            r == self.spec_is_fatal(),
    {
        !(matches!(self, Error::Metrics(_)))
    }

    /// `kind: cause`, for reporting a failure with its causal chain.
    fn with_cause(kind: String, cause: &String) -> (r: String)
        ensures
            r@ == kind@ + ": "@ + cause@,
    {
        let mut s = kind;
        s.append(": ");
        s.append(cause.as_str());
        s
    }

    /// Full description of the error: the kind, and for a wrapped
    /// component, serialization or engine failure the underlying cause.
    pub fn description(&self) -> (r: String)
        ensures
            ({
                let kind = match self {
                    Error::Metrics(_) => "prometheus (metrics) error"@,
                    Error::Network(_) => "network error"@,
                    Error::SmallNetwork(_) => "small network error"@,
                    Error::ListeningError(_) => "http server listening error"@,
                    Error::Storage(_) => "storage error"@,
                    Error::Consensus(_) => "consensus error"@,
                    Error::ContractRuntime(_) => "contract runtime config error"@,
                    Error::Serialization(_) => "serialization"@,
                    Error::EngineState(_) => "engine state error"@,
                    Error::BlockExecutionError(_) => "block execution error"@,
                    Error::BytesReprError(_) => "bytesrepr error"@,
                    Error::CannotRunGenesisOnPreExistingBlockchain { .. } =>
                        "cannot run genesis on pre-existing blockchain"@,
                    Error::NoSuchSwitchBlockHeaderForUpgradeEra { .. } =>
                        "no such switch block for upgrade era"@,
                    Error::NonEmergencyUpgradeWillClobberExistingBlockChain { .. } =>
                        "non-emergency upgrade will clobber existing blockchain"@,
                    Error::FailedToCreateSwitchBlockAfterGenesisOrUpgrade { .. } =>
                        "failed to create a switch block immediately after genesis or upgrade"@,
                };
                match self {
                    Error::Metrics(c) => r@ == kind + ": "@ + c@,
                    Error::Network(c) => r@ == kind + ": "@ + c@,
                    Error::SmallNetwork(c) => r@ == kind + ": "@ + c@,
                    Error::ListeningError(c) => r@ == kind + ": "@ + c@,
                    Error::Storage(c) => r@ == kind + ": "@ + c@,
                    Error::Consensus(c) => r@ == kind + ": "@ + c@,
                    Error::ContractRuntime(c) => r@ == kind + ": "@ + c@,
                    Error::Serialization(c) => r@ == kind + ": "@ + c@,
                    Error::EngineState(c) => r@ == kind + ": "@ + c@,
                    Error::BlockExecutionError(c) => r@ == kind + ": "@ + c@,
                    Error::BytesReprError(c) => r@ == kind + ": "@ + c@,
                    _ => r@ == kind,
                }
            }),
    {
        match self {
            Error::Metrics(c) => Self::with_cause(self.kind_name(), c),
            Error::Network(c) => Self::with_cause(self.kind_name(), c),
            Error::SmallNetwork(c) => Self::with_cause(self.kind_name(), c),
            Error::ListeningError(c) => Self::with_cause(self.kind_name(), c),
            Error::Storage(c) => Self::with_cause(self.kind_name(), c),
            Error::Consensus(c) => Self::with_cause(self.kind_name(), c),
            Error::ContractRuntime(c) => Self::with_cause(self.kind_name(), c),
            Error::Serialization(c) => Self::with_cause(self.kind_name(), c),
            Error::EngineState(c) => Self::with_cause(self.kind_name(), c),
            Error::BlockExecutionError(c) => Self::with_cause(self.kind_name(), c),
            Error::BytesReprError(c) => Self::with_cause(self.kind_name(), c),
            _ => self.kind_name(),
        }
    }

    /// Short name of the error kind, for reporting.
    pub fn kind_name(&self) -> (r: String)
        ensures
            self matches Error::Metrics(_) ==> r@ == "prometheus (metrics) error"@,
            self matches Error::Network(_) ==> r@ == "network error"@,
            self matches Error::SmallNetwork(_) ==> r@ == "small network error"@,
            self matches Error::ListeningError(_) ==> r@ == "http server listening error"@,
            self matches Error::Storage(_) ==> r@ == "storage error"@,
            self matches Error::Consensus(_) ==> r@ == "consensus error"@,
            self matches Error::ContractRuntime(_) ==> r@ == "contract runtime config error"@,
            self matches Error::Serialization(_) ==> r@ == "serialization"@,
            self matches Error::EngineState(_) ==> r@ == "engine state error"@,
            self matches Error::BlockExecutionError(_) ==> r@ == "block execution error"@,
            self matches Error::BytesReprError(_) ==> r@ == "bytesrepr error"@,
            self matches Error::CannotRunGenesisOnPreExistingBlockchain { .. } ==> r@
                == "cannot run genesis on pre-existing blockchain"@,
            self matches Error::NoSuchSwitchBlockHeaderForUpgradeEra { .. } ==> r@
                == "no such switch block for upgrade era"@,
            self matches Error::NonEmergencyUpgradeWillClobberExistingBlockChain { .. } ==> r@
                == "non-emergency upgrade will clobber existing blockchain"@,
            self matches Error::FailedToCreateSwitchBlockAfterGenesisOrUpgrade { .. } ==> r@
                == "failed to create a switch block immediately after genesis or upgrade"@,
    {
        match self {
            Error::Metrics(_) => String::from_str("prometheus (metrics) error"),
            Error::Network(_) => String::from_str("network error"),
            Error::SmallNetwork(_) => String::from_str("small network error"),
            Error::ListeningError(_) => String::from_str("http server listening error"),
            Error::Storage(_) => String::from_str("storage error"),
            Error::Consensus(_) => String::from_str("consensus error"),
            Error::ContractRuntime(_) => String::from_str("contract runtime config error"),
            Error::Serialization(_) => String::from_str("serialization"),
            Error::EngineState(_) => String::from_str("engine state error"),
            Error::BlockExecutionError(_) => String::from_str("block execution error"),
            Error::BytesReprError(_) => String::from_str("bytesrepr error"),
            Error::CannotRunGenesisOnPreExistingBlockchain { .. } => String::from_str(
                "cannot run genesis on pre-existing blockchain",
            ),
            Error::NoSuchSwitchBlockHeaderForUpgradeEra { .. } => String::from_str(
                "no such switch block for upgrade era",
            ),
            Error::NonEmergencyUpgradeWillClobberExistingBlockChain { .. } => String::from_str(
                "non-emergency upgrade will clobber existing blockchain",
            ),
            Error::FailedToCreateSwitchBlockAfterGenesisOrUpgrade { .. } => String::from_str(
                "failed to create a switch block immediately after genesis or upgrade",
            ),
        }
    }
}

} // verus!
