use vstd::prelude::*;
use crate::header::{StacksBlockHeader, StacksMicroblockHeader};
use crate::types::StacksTransaction;

verus! {

/// The chain tip that a new block builds on.
#[derive(Clone, Copy, Debug, PartialEq, Eq)]
pub struct StacksHeaderInfo {
    pub anchored_header: StacksBlockHeader,
    pub microblock_tail: Option<StacksMicroblockHeader>,
    pub block_height: u64,
    pub index_root: [u8; 32],
    pub burn_header_hash: [u8; 32],
}

/// An anchored block: header and transactions.
#[derive(Debug, PartialEq, Eq)]
pub struct StacksBlock {
    pub header: StacksBlockHeader,
    pub txs: Vec<StacksTransaction>,
}

/// A microblock: signed header and transactions.
#[derive(Debug, PartialEq, Eq)]
pub struct StacksMicroblock {
    pub header: StacksMicroblockHeader,
    pub txs: Vec<StacksTransaction>,
}

/// Who a matured reward is paid to: the miner, or a user who co-staked.
#[derive(Clone, Copy, Debug, PartialEq, Eq, Structural)]
pub enum RewardKind {
    Miner,
    User,
}

/// One matured reward.
#[derive(Debug, PartialEq, Eq)]
pub struct MinerReward {
    pub recipient: Vec<u8>,
    pub amount: u128,
    pub kind: RewardKind,
}

/// The rewards that mature in a block, in the order they are granted.
#[derive(Debug, PartialEq, Eq)]
pub struct MaturedRewards {
    pub entries: Vec<MinerReward>,
}

/// Why replaying the parent's microblocks failed: the offending microblock and
/// the virtual machine's error.
#[derive(Debug, PartialEq, Eq)]
pub struct MicroblockReplayError {
    pub offender: [u8; 32],
    pub message: String,
}

/// The identifiers under which a block is opened for mining: the parent's burn
/// header hash and block hash, and the two sentinel hashes of the new block.
#[derive(Clone, Copy, Debug, PartialEq, Eq)]
pub struct EpochKeys {
    pub parent_burn_header_hash: [u8; 32],
    pub parent_block: [u8; 32],
    pub new_burn_header_hash: [u8; 32],
    pub new_block: [u8; 32],
}

impl StacksBlock {
    /// The block's id.
    pub fn block_hash(&self) -> (r: [u8; 32])
        ensures
            r@ == crate::header::anchored_block_hash(self.header),
    {
        self.header.block_hash()
    }
}

impl StacksMicroblock {
    /// The microblock's id.
    pub fn block_hash(&self) -> (r: [u8; 32])
        ensures
            r@ == crate::header::microblock_hash(self.header),
    {
        self.header.block_hash()
    }
}

} // verus!
