//! The difficulty that the next block has to meet.

use crate::block::{Block, BlockView};
use vstd::prelude::*;

verus! {

/// The time, in seconds, that one block is meant to take.
pub const BLOCK_GENERATION_INTERVAL: u8 = 10;

/// The number of blocks after which the difficulty is set anew.
pub const DIFFICULTY_ADJUSTMENT_INTERVAL: u8 = 10;

/// The time, in seconds, that one adjustment interval is meant to take.
pub const TIME_EXPECTED: u8 = BLOCK_GENERATION_INTERVAL * DIFFICULTY_ADJUSTMENT_INTERVAL;

/// The difficulty is set anew after a tip whose index is a positive
/// multiple of the adjustment interval.
pub open spec fn retarget_due(tip: BlockView) -> bool {
    tip.index != 0 && tip.index % (DIFFICULTY_ADJUSTMENT_INTERVAL as nat) == 0
}

/// The difficulty set anew after `tip`, timed from `reference`, the block
/// one adjustment interval before it. The time taken is the tip's time
/// less that block's, as an integer that may be negative. Under half the
/// expected time the tip's difficulty goes up by one, over twice the
/// expected time it goes down by one, and it stays within 0 and 255.
pub open spec fn retargeted(reference: BlockView, tip: BlockView) -> nat {
    let taken = tip.timestamp - reference.timestamp;
    if taken < TIME_EXPECTED / 2 {
        if tip.difficulty < 255 {
            tip.difficulty + 1
        } else {
            tip.difficulty
        }
    } else if taken > TIME_EXPECTED * 2 {
        if tip.difficulty > 0 {
            (tip.difficulty - 1) as nat
        } else {
            tip.difficulty
        }
    } else {
        tip.difficulty
    }
}

/// The chain has a tip, and where the difficulty is to be set anew it also
/// holds the block one adjustment interval before the tip's index.
pub open spec fn difficulty_defined(chain: Seq<BlockView>) -> bool {
    &&& chain.len() > 0
    &&& retarget_due(chain.last()) ==> chain.last().index - DIFFICULTY_ADJUSTMENT_INTERVAL
        < chain.len()
}

/// The difficulty that the block after the tip has to meet.
pub open spec fn next_difficulty(chain: Seq<BlockView>) -> nat
    recommends
        difficulty_defined(chain),
{
    let tip = chain.last();
    if retarget_due(tip) {
        retargeted(chain[tip.index - DIFFICULTY_ADJUSTMENT_INTERVAL], tip)
    } else {
        tip.difficulty
    }
}

/// Whether the chain holds what `get_difficulty` reads.
pub fn has_difficulty(blockchain: &Vec<Block>) -> (defined: bool)
    ensures
        defined == difficulty_defined(blockchain.deep_view()),
{
    let len = blockchain.len();
    if len == 0 {
        return false;
    }
    let tip = &blockchain[len - 1];
    let interval = DIFFICULTY_ADJUSTMENT_INTERVAL as u64;
    if tip.index != 0 && tip.index % interval == 0 {
        tip.index - interval < len as u64
    } else {
        true
    }
}

/// The difficulty set anew for the block after `latest_block`: its own
/// difficulty, raised or lowered by the time it took since the block of
/// `blockchain` one adjustment interval before its index.
pub fn get_adjusted_difficulty(latest_block: &Block, blockchain: &Vec<Block>) -> (difficulty: u8)
    requires
        latest_block.index >= DIFFICULTY_ADJUSTMENT_INTERVAL,
        latest_block.index - DIFFICULTY_ADJUSTMENT_INTERVAL < blockchain.len(),
    ensures
        difficulty == retargeted(
            blockchain@[latest_block.index - DIFFICULTY_ADJUSTMENT_INTERVAL]@,
            latest_block@,
        ),
{
    let position = (latest_block.index - DIFFICULTY_ADJUSTMENT_INTERVAL as u64) as usize;
    let reference = &blockchain[position];
    let expected = TIME_EXPECTED as u64;
    let current = latest_block.difficulty;
    if latest_block.timestamp < reference.timestamp || latest_block.timestamp - reference.timestamp
        < expected / 2 {
        if current < u8::MAX {
            current + 1
        } else {
            current
        }
    } else if latest_block.timestamp - reference.timestamp > expected * 2 {
        if current > 0 {
            current - 1
        } else {
            current
        }
    } else {
        current
    }
}

/// The difficulty that the block after the chain's tip has to meet: the
/// tip's own, or, after a tip whose index is a positive multiple of the
/// adjustment interval, the one set anew.
pub fn get_difficulty(blockchain: Vec<Block>) -> (difficulty: u8)
    requires
        difficulty_defined(blockchain.deep_view()),
    ensures
        difficulty == next_difficulty(blockchain.deep_view()),
{
    let latest_block = &blockchain[blockchain.len() - 1];
    if latest_block.index % (DIFFICULTY_ADJUSTMENT_INTERVAL as u64) == 0 && latest_block.index != 0 {
        get_adjusted_difficulty(latest_block, &blockchain)
    } else {
        latest_block.difficulty
    }
}

} // verus!
