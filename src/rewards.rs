use vstd::prelude::*;

verus! {

/// Blocks a miner reward must age before it can be spent.
pub const MINER_REWARD_MATURITY: u64 = 2;

/// Blocks over which a miner reward streams.
pub const MINER_REWARD_WINDOW: u64 = 5;

/// The height whose sortition winner is paid in a block at `block_height`, if any:
/// rewards lag `MINER_REWARD_MATURITY + MINER_REWARD_WINDOW` blocks behind, and
/// blocks below that lag pay nothing.
pub open spec fn matured_height_spec(block_height: u64) -> Option<u64> {
    if block_height < MINER_REWARD_MATURITY + MINER_REWARD_WINDOW {
        None
    } else {
        Some((block_height - MINER_REWARD_MATURITY - MINER_REWARD_WINDOW) as u64)
    }
}

/// The height whose sortition winner's reward matures in a block at `block_height`.
pub fn matured_reward_height(block_height: u64) -> (r: Option<u64>)
    ensures
        r == matured_height_spec(block_height),
{
    if block_height < MINER_REWARD_MATURITY + MINER_REWARD_WINDOW {
        None
    } else {
        Some(block_height - MINER_REWARD_MATURITY - MINER_REWARD_WINDOW)
    }
}

} // verus!
