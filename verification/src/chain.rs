//! The operations on the one chain a node keeps: append, copy, replace by
//! a longer valid chain, and mine the next block.

use crate::block::{Block, BlockView};
use crate::clock::get_current_timestamp;
use crate::difficulty::{difficulty_defined, get_difficulty, has_difficulty, next_difficulty};
use crate::digest::is_hex_digest;
use crate::pow::{find_block, is_mined, nonce_works};
use crate::validation::{
    block_valid, chain_valid, is_valid_chain_at, is_valid_new_block, lemma_append_keeps_valid,
    link_valid, timestamp_plausible, ValidationError,
};
use vstd::prelude::*;

verus! {

/// What an append by a clock that reads `now` does: the block is added
/// exactly when the chain has a tip and the block is accepted after it,
/// and nothing else changes.
pub open spec fn appended_at(
    before: Seq<Block>,
    after: Seq<Block>,
    block: Block,
    now: nat,
    added: bool,
) -> bool {
    &&& added == (before.len() > 0 && block_valid(block@, before.last()@, now))
    &&& added ==> after == before.push(block)
    &&& !added ==> after == before
}

/// What a replacement by a clock that reads `now` does: the candidate
/// takes the chain's place exactly when it is valid and strictly longer.
pub open spec fn replaced_at(
    before: Seq<Block>,
    after: Seq<Block>,
    candidate: Vec<Block>,
    now: nat,
    replaced: bool,
) -> bool {
    &&& replaced == (chain_valid(candidate.deep_view(), now) && candidate@.len() > before.len())
    &&& replaced ==> after == candidate@
    &&& !replaced ==> after == before
}

/// Why a candidate chain does not replace the current one, by a clock that
/// reads `now`: first that it is not valid, then that it is not longer.
pub open spec fn replacement_fault(current_len: nat, candidate: Seq<BlockView>, now: nat) -> Option<
    ValidationError,
> {
    if !chain_valid(candidate, now) {
        Some(ValidationError::ChainInvalid)
    } else if candidate.len() <= current_len {
        Some(ValidationError::ChainTooShort)
    } else {
        None
    }
}

/// A block can be mined on the chain: it has what the difficulty rule
/// reads, and its tip's index has a successor in 64 bits.
pub open spec fn minable(chain: Seq<BlockView>) -> bool {
    difficulty_defined(chain) && chain.last().index < u64::MAX
}

/// `block` is the block mined on `chain` for the payload at the given
/// time: it follows the tip, carries the chain's next difficulty, and has
/// the least nonce whose hash meets it.
pub open spec fn mined_on(chain: Seq<BlockView>, data: Seq<char>, timestamp: nat, block: BlockView) -> bool {
    &&& block.index == chain.last().index + 1
    &&& block.previous_hash == chain.last().hash
    &&& block.timestamp == timestamp
    &&& block.data == data
    &&& block.difficulty == next_difficulty(chain)
    &&& is_mined(block)
}

/// No 64-bit nonce gives a block on `chain` for the payload at the given
/// time a hash that meets the chain's next difficulty.
pub open spec fn unminable_at(chain: Seq<BlockView>, data: Seq<char>, timestamp: nat) -> bool {
    forall|nonce: nat|
        nonce <= u64::MAX ==> !#[trigger] nonce_works(
            chain.last().index + 1,
            chain.last().hash,
            timestamp,
            data,
            next_difficulty(chain),
            nonce,
        )
}

/// Why no block is mined on `chain` and appended, once the clock is known
/// to be no hindrance: the chain is empty, or lacks what mining reads, or
/// no nonce works; what is left is the block's time.
pub open spec fn generation_fault(chain: Seq<BlockView>, data: Seq<char>, timestamp: nat) -> ValidationError {
    if chain.len() == 0 {
        ValidationError::EmptyChain
    } else if !minable(chain) {
        ValidationError::ChainInvalid
    } else if unminable_at(chain, data, timestamp) {
        ValidationError::InsufficientDifficulty
    } else {
        ValidationError::InvalidTimestamp
    }
}

/// What mining the next block does, for a block time `timestamp` and a
/// clock that reads `now`. On success the block is the one mined on the
/// chain, it is accepted after the tip, and it is appended. On failure the
/// chain is unchanged and the fault is the first of the four that
/// applies. Success is owed when the chain is minable, a nonce works and
/// the time is plausible. A valid chain stays valid.
pub open spec fn generated_at(
    before: Vec<Block>,
    after: Vec<Block>,
    data: Seq<char>,
    timestamp: nat,
    now: nat,
    outcome: Result<Block, ValidationError>,
) -> bool {
    &&& match outcome {
        Ok(block) => {
            &&& minable(before.deep_view())
            &&& mined_on(before.deep_view(), data, timestamp, block@)
            &&& block_valid(block@, before@.last()@, now)
            &&& after@ == before@.push(block)
        },
        Err(fault) => {
            &&& after@ == before@
            &&& fault == generation_fault(before.deep_view(), data, timestamp)
            &&& fault == ValidationError::InvalidTimestamp ==> !timestamp_plausible(
                timestamp,
                before@.last()@.timestamp,
                now,
            )
        },
    }
    &&& minable(before.deep_view()) && !unminable_at(before.deep_view(), data, timestamp)
        && timestamp_plausible(timestamp, before@.last()@.timestamp, now) ==> outcome is Ok
    &&& chain_valid(before.deep_view(), now) ==> chain_valid(after.deep_view(), now)
}

/// In a valid chain every block sits at its own index.
pub proof fn lemma_valid_chain_is_indexed(chain: Seq<BlockView>, now: nat, i: int)
    requires
        chain_valid(chain, now),
        0 <= i < chain.len(),
    ensures
        chain[i].index == i,
    decreases i,
{
    if i > 0 {
        lemma_valid_chain_is_indexed(chain, now, i - 1);
        assert(link_valid(chain, i, now));
    }
}

/// A block can always be mined on a valid chain whose length fits in 64
/// bits: the chain holds what the difficulty rule reads, and its tip's
/// index has a successor.
pub proof fn lemma_valid_chain_is_minable(chain: Seq<BlockView>, now: nat)
    requires
        chain_valid(chain, now),
        chain.len() <= u64::MAX,
    ensures
        minable(chain),
{
    lemma_valid_chain_is_indexed(chain, now, chain.len() - 1);
}

/// A replacement by a chain that is not longer changes nothing, valid or
/// not.
pub proof fn lemma_no_replacement_by_a_chain_not_longer(
    before: Seq<Block>,
    after: Seq<Block>,
    candidate: Vec<Block>,
    now: nat,
    replaced: bool,
)
    requires
        replaced_at(before, after, candidate, now, replaced),
        candidate@.len() <= before.len(),
    ensures
        !replaced,
        after == before,
{
}

/// A copy of the chain, block for block.
pub fn snapshot(blockchain: &Vec<Block>) -> (copy: Vec<Block>)
    ensures
        copy@ == blockchain@,
{
    let copy = blockchain.clone();
    assert(copy@ =~= blockchain@);
    copy
}

/// Appends `new_block` if the chain has a tip and the block is accepted
/// after it by a clock that reads `now`; otherwise leaves the chain as it
/// is. A valid chain stays valid.
pub fn add_block_at(blockchain: &mut Vec<Block>, new_block: Block, now: u64) -> (added: bool)
    ensures
        appended_at(old(blockchain)@, final(blockchain)@, new_block, now as nat, added),
        added ==> new_block@.is_sealed(),
        chain_valid(old(blockchain).deep_view(), now as nat) ==> chain_valid(
            final(blockchain).deep_view(),
            now as nat,
        ),
{
    let len = blockchain.len();
    if len == 0 {
        return false;
    }
    let ghost before = blockchain.deep_view();
    if !is_valid_new_block(&new_block, &blockchain[len - 1], now) {
        return false;
    }
    proof {
        assert(before.last() == blockchain@.last()@);
        if chain_valid(before, now as nat) {
            lemma_append_keeps_valid(before, new_block@, now as nat);
        }
    }
    blockchain.push(new_block);
    assert(blockchain.deep_view() =~= before.push(new_block@));
    true
}

/// Appends `new_block` if the chain has a tip and the block is accepted
/// after it by this machine's clock, read once; otherwise leaves the chain
/// as it is.
pub fn add_block(blockchain: &mut Vec<Block>, new_block: Block) -> (added: bool)
    ensures
        exists|now: u64|
            {
                &&& #[trigger] appended_at(
                    old(blockchain)@,
                    final(blockchain)@,
                    new_block,
                    now as nat,
                    added,
                )
                &&& chain_valid(old(blockchain).deep_view(), now as nat) ==> chain_valid(
                    final(blockchain).deep_view(),
                    now as nat,
                )
            },
        added ==> final(blockchain)@ == old(blockchain)@.push(new_block),
        added ==> new_block@.is_sealed(),
        !added ==> final(blockchain)@ == old(blockchain)@,
{
    let now = get_current_timestamp();
    add_block_at(blockchain, new_block, now)
}

/// Why `candidate` does not replace `current`, by a clock that reads
/// `now`; `None` when it does.
pub fn replacement_violation(current: &Vec<Block>, candidate: &Vec<Block>, now: u64) -> (fault:
    Option<ValidationError>)
    ensures
        fault == replacement_fault(current@.len(), candidate.deep_view(), now as nat),
{
    if !is_valid_chain_at(candidate, now) {
        Some(ValidationError::ChainInvalid)
    } else if candidate.len() <= current.len() {
        Some(ValidationError::ChainTooShort)
    } else {
        None
    }
}

/// Puts `new_blocks` in the chain's place if they are a valid chain, by a
/// clock that reads `now`, and strictly longer; otherwise leaves the chain
/// as it is.
pub fn replace_chain_at(blockchain: &mut Vec<Block>, new_blocks: &Vec<Block>, now: u64) -> (replaced:
    bool)
    ensures
        replaced_at(old(blockchain)@, final(blockchain)@, *new_blocks, now as nat, replaced),
        new_blocks@.len() <= old(blockchain)@.len() ==> !replaced,
{
    match replacement_violation(blockchain, new_blocks, now) {
        Some(_) => false,
        None => {
            *blockchain = snapshot(new_blocks);
            true
        },
    }
}

/// Puts `new_blocks` in the chain's place if they are a valid chain, by
/// this machine's clock read once, and strictly longer; otherwise leaves
/// the chain as it is.
pub fn replace_chain(blockchain: &mut Vec<Block>, new_blocks: &Vec<Block>) -> (replaced: bool)
    ensures
        exists|now: u64| #[trigger]
            replaced_at(old(blockchain)@, final(blockchain)@, *new_blocks, now as nat, replaced),
        new_blocks@.len() <= old(blockchain)@.len() ==> !replaced,
        replaced ==> final(blockchain)@ == new_blocks@,
        !replaced ==> final(blockchain)@ == old(blockchain)@,
{
    let now = get_current_timestamp();
    replace_chain_at(blockchain, new_blocks, now)
}

/// Mines the block that follows the chain's tip, stamped `timestamp`: the
/// difficulty is the chain's next one, and the nonce the least whose hash
/// meets it. The chain is only read.
pub fn mine_candidate(blockchain: &Vec<Block>, block_data: String, timestamp: u64) -> (mined:
    Result<Block, ValidationError>)
    ensures
        match mined {
            Ok(block) => minable(blockchain.deep_view()) && mined_on(
                blockchain.deep_view(),
                block_data@,
                timestamp as nat,
                block@,
            ) && is_hex_digest(block.hash@),
            Err(ValidationError::EmptyChain) => blockchain@.len() == 0,
            Err(ValidationError::ChainInvalid) => blockchain@.len() > 0 && !minable(
                blockchain.deep_view(),
            ),
            Err(ValidationError::InsufficientDifficulty) => minable(blockchain.deep_view())
                && unminable_at(blockchain.deep_view(), block_data@, timestamp as nat),
            Err(_) => false,
        },
        minable(blockchain.deep_view()) && next_difficulty(blockchain.deep_view()) == 0
            ==> mined is Ok && mined->Ok_0.nonce == 0,
{
    let len = blockchain.len();
    if len == 0 {
        return Err(ValidationError::EmptyChain);
    }
    if !has_difficulty(blockchain) || blockchain[len - 1].index == u64::MAX {
        return Err(ValidationError::ChainInvalid);
    }
    let difficulty = get_difficulty(snapshot(blockchain));
    let previous_block = &blockchain[len - 1];
    let template = previous_block.extend(&block_data, difficulty, timestamp);
    match find_block(
        template.index,
        template.previous_hash,
        template.timestamp,
        template.data,
        template.difficulty,
    ) {
        Some(block) => Ok(block),
        None => Err(ValidationError::InsufficientDifficulty),
    }
}

/// Mines the block that follows the chain's tip, stamped `timestamp`, and
/// appends it if it is accepted by a clock that reads `now`. On any error
/// the chain is as it was.
pub fn generate_next_block_at(
    blockchain: &mut Vec<Block>,
    block_data: String,
    timestamp: u64,
    now: u64,
) -> (outcome: Result<Block, ValidationError>)
    ensures
        generated_at(
            *old(blockchain),
            *final(blockchain),
            block_data@,
            timestamp as nat,
            now as nat,
            outcome,
        ),
        outcome is Ok ==> is_hex_digest(outcome->Ok_0.hash@),
{
    let block = match mine_candidate(blockchain, block_data, timestamp) {
        Ok(block) => block,
        Err(fault) => {
            return Err(fault);
        },
    };
    proof {
        let chain = blockchain.deep_view();
        assert(chain.last() == blockchain@.last()@);
        assert(nonce_works(
            chain.last().index + 1,
            chain.last().hash,
            timestamp as nat,
            block_data@,
            next_difficulty(chain),
            block@.nonce,
        ));
    }
    if add_block_at(blockchain, block.clone(), now) {
        Ok(block)
    } else {
        Err(ValidationError::InvalidTimestamp)
    }
}

/// Mines the block that follows the chain's tip and appends it if it is
/// accepted. This machine's clock is read twice before the search, once
/// for the block's time and once for the validation. On any error the
/// chain is as it was.
pub fn generate_next_block(blockchain: &mut Vec<Block>, block_data: String) -> (outcome: Result<
    Block,
    ValidationError,
>)
    ensures
        exists|timestamp: u64, now: u64| #[trigger]
            generated_at(
                *old(blockchain),
                *final(blockchain),
                block_data@,
                timestamp as nat,
                now as nat,
                outcome,
            ),
        match outcome {
            Ok(block) => {
                &&& minable(old(blockchain).deep_view())
                &&& final(blockchain)@ == old(blockchain)@.push(block)
                &&& is_hex_digest(block.hash@)
            },
            Err(fault) => {
                &&& final(blockchain)@ == old(blockchain)@
                &&& fault == ValidationError::EmptyChain <==> old(blockchain)@.len() == 0
                &&& fault == ValidationError::ChainInvalid <==> old(blockchain)@.len() > 0
                    && !minable(old(blockchain).deep_view())
                &&& fault == ValidationError::EmptyChain || fault == ValidationError::ChainInvalid
                    || fault == ValidationError::InsufficientDifficulty || fault
                    == ValidationError::InvalidTimestamp
            },
        },
{
    let timestamp = get_current_timestamp();
    let now = get_current_timestamp();
    generate_next_block_at(blockchain, block_data, timestamp, now)
}

} // verus!
