//! Persisted consensus artifacts and the configuration of a chain setup.

use vstd::prelude::*;

verus! {

/// Identifier of a consensus era.  Every block belongs to exactly one era,
/// and each non-final era is terminated by exactly one switch block.
#[derive(Clone, Copy, PartialEq, Eq, Structural, Debug, Hash)]
pub struct EraId {
    pub value: u64,
}

impl EraId {
    pub fn new(value: u64) -> (r: EraId)
        ensures
            r.value == value,
    {
        EraId { value }
    }
}

/// Header of a persisted block.  A header is immutable once the block is
/// recorded; the `is_switch` flag marks the block that closes its era.
#[derive(Clone, Copy, PartialEq, Eq, Structural, Debug)]
pub struct BlockHeader {
    /// Height of the block in the chain; the chain is height-ordered.
    pub height: u64,
    /// Era the block belongs to.
    pub era_id: EraId,
    /// Protocol version under which the block was produced.
    pub protocol_version: u64,
    /// Root hash of the global state after executing the block.
    pub state_root: u64,
    /// Whether this block closes its era.
    pub is_switch: bool,
}

impl BlockHeader {
    /// Whether this header marks an era boundary.
    pub fn is_switch_block(&self) -> (r: bool)
        ensures
            r == self.is_switch,
    {
        self.is_switch
    }
}

/// A persisted block.  Exactly one header per block; never mutated after
/// being appended to storage.
#[derive(Clone, Copy, PartialEq, Eq, Structural, Debug)]
pub struct Block {
    pub header: BlockHeader,
}

impl Block {
    pub fn new(header: BlockHeader) -> (r: Block)
        ensures
            r.header == header,
    {
        Block { header }
    }

    pub fn header(&self) -> (r: &BlockHeader)
        ensures
            *r == self.header,
    {
        &self.header
    }
}

/// Configuration for running genesis on an empty chain.
#[derive(Clone, Copy, PartialEq, Eq, Structural, Debug)]
pub struct GenesisConfig {
    /// Protocol version the chain starts at.
    pub protocol_version: u64,
    /// Root hash of the global state produced by committing genesis.
    pub initial_state_root: u64,
}

/// Configuration for applying an upgrade over an existing chain.
#[derive(Clone, Copy, PartialEq, Eq, Structural, Debug)]
pub struct UpgradeConfig {
    /// Era at which the upgrade activates.
    pub activation_point: EraId,
    /// An emergency upgrade is permitted to apply even over existing
    /// post-upgrade chain history.
    pub is_emergency: bool,
    /// Protocol version after the upgrade.
    pub new_protocol_version: u64,
    /// Root hash of the global state produced by committing the upgrade.
    pub new_state_root: u64,
}

/// The chain-state work the initializer phase must perform.
#[derive(Clone, Copy, PartialEq, Eq, Structural, Debug)]
pub enum ChainSetup {
    Genesis(GenesisConfig),
    Upgrade(UpgradeConfig),
}

impl ChainSetup {
    /// Protocol version the setup leaves the chain at.
    pub open spec fn spec_protocol_version(&self) -> u64 {
        match *self {
            ChainSetup::Genesis(g) => g.protocol_version,
            ChainSetup::Upgrade(u) => u.new_protocol_version,
        }
    }

    /// Root hash of the global state the setup commits.
    pub open spec fn spec_state_root(&self) -> u64 {
        match *self {
            ChainSetup::Genesis(g) => g.initial_state_root,
            ChainSetup::Upgrade(u) => u.new_state_root,
        }
    }
}

} // verus!
