//! The rules by which a block is accepted after its predecessor, and a
//! chain as a whole.

use crate::block::{calculate_hash_for_block, genesis, get_genesis_block, Block, BlockView};
use crate::clock::get_current_timestamp;
use crate::pow::{hash_matches_difficulty, meets_difficulty};
use vstd::prelude::*;

verus! {

/// How far, in seconds, a block's time may lie before its predecessor's or
/// ahead of the validator's clock.
pub const TIMESTAMP_SLACK: u64 = 60;

/// What can be wrong with a block or a chain.
#[derive(Clone, Copy, Debug, PartialEq, Eq, Structural)]
pub enum ValidationError {
    /// The index is not the predecessor's plus one.
    InvalidIndex,
    /// The previous hash is not the predecessor's hash.
    InvalidPreviousHash,
    /// The time lies too far before the predecessor's or ahead of the clock.
    InvalidTimestamp,
    /// The recorded hash is not the hash of the content.
    InvalidHashContent,
    /// The hash does not meet the recorded difficulty.
    InsufficientDifficulty,
    /// A replacement chain is not longer than the current one.
    ChainTooShort,
    /// A chain does not start at the first block or holds a rejected block.
    ChainInvalid,
    /// A chain holds no block, so it has no tip.
    EmptyChain,
}

impl ValidationError {
    /// Whether the finding rejects what it was found in. A hash that misses
    /// its recorded difficulty is reported and does not reject: the
    /// difficulty is advisory in validation.
    pub open spec fn spec_rejects(self) -> bool {
        self != ValidationError::InsufficientDifficulty
    }

    /// Whether the finding rejects what it was found in.
    #[verifier::when_used_as_spec(spec_rejects)]
    pub fn rejects(self) -> (fatal: bool)
        ensures
            fatal == self.spec_rejects(),
    {
        match self {
            ValidationError::InsufficientDifficulty => false,
            _ => true,
        }
    }
}

/// A block's time is later than its predecessor's less the slack, and
/// earlier than the clock's plus the slack.
pub open spec fn timestamp_plausible(candidate: nat, predecessor: nat, now: nat) -> bool {
    predecessor - TIMESTAMP_SLACK < candidate && candidate - TIMESTAMP_SLACK < now
}

/// The first of the five rules, in their fixed order, that `candidate`
/// breaks as successor of `predecessor` at clock time `now`.
pub open spec fn first_violation(candidate: BlockView, predecessor: BlockView, now: nat) -> Option<
    ValidationError,
> {
    if candidate.index != predecessor.index + 1 {
        Some(ValidationError::InvalidIndex)
    } else if candidate.previous_hash != predecessor.hash {
        Some(ValidationError::InvalidPreviousHash)
    } else if !timestamp_plausible(candidate.timestamp, predecessor.timestamp, now) {
        Some(ValidationError::InvalidTimestamp)
    } else if !candidate.is_sealed() {
        Some(ValidationError::InvalidHashContent)
    } else if !meets_difficulty(candidate.hash, candidate.difficulty) {
        Some(ValidationError::InsufficientDifficulty)
    } else {
        None
    }
}

/// `candidate` is accepted as successor of `predecessor` at clock time
/// `now`: index, link, time and content hash are right.
pub open spec fn block_valid(candidate: BlockView, predecessor: BlockView, now: nat) -> bool {
    &&& candidate.index == predecessor.index + 1
    &&& candidate.previous_hash == predecessor.hash
    &&& timestamp_plausible(candidate.timestamp, predecessor.timestamp, now)
    &&& candidate.is_sealed()
}

/// Block `i` of `chain` is accepted after block `i - 1`.
pub open spec fn link_valid(chain: Seq<BlockView>, i: int, now: nat) -> bool {
    block_valid(chain[i], chain[i - 1], now)
}

/// A chain is valid at clock time `now`: it starts with the fixed first
/// block, and each later block is accepted after the one before it.
pub open spec fn chain_valid(chain: Seq<BlockView>, now: nat) -> bool {
    &&& chain.len() > 0
    &&& chain[0] == genesis()
    &&& forall|i: int| 1 <= i < chain.len() ==> #[trigger] link_valid(chain, i, now)
}

/// A block is accepted exactly when no rule that rejects is broken.
pub proof fn lemma_valid_iff_no_rejection(candidate: BlockView, predecessor: BlockView, now: nat)
    ensures
        block_valid(candidate, predecessor, now) <==> match first_violation(
            candidate,
            predecessor,
            now,
        ) {
            Some(violation) => !violation.spec_rejects(),
            None => true,
        },
{
}

/// A block whose previous hash is not its predecessor's hash is not
/// accepted, whatever its other fields and the clock.
pub proof fn lemma_wrong_link_rejected(candidate: BlockView, predecessor: BlockView, now: nat)
    requires
        candidate.previous_hash != predecessor.hash,
    ensures
        !block_valid(candidate, predecessor, now),
{
}

/// The recorded hash of an accepted block is the content hash of its six
/// other fields.
pub proof fn lemma_accepted_block_is_sealed(candidate: BlockView, predecessor: BlockView, now: nat)
    requires
        block_valid(candidate, predecessor, now),
    ensures
        candidate.hash == crate::digest::content_hash(
            candidate.index,
            candidate.previous_hash,
            candidate.timestamp,
            candidate.data,
            candidate.difficulty,
            candidate.nonce,
        ),
{
}

/// Appending an accepted block to a valid chain gives a valid chain.
pub proof fn lemma_append_keeps_valid(chain: Seq<BlockView>, block: BlockView, now: nat)
    requires
        chain_valid(chain, now),
        block_valid(block, chain.last(), now),
    ensures
        chain_valid(chain.push(block), now),
{
    let longer = chain.push(block);
    assert forall|i: int| 1 <= i < longer.len() implies #[trigger] link_valid(longer, i, now) by {
        if i < chain.len() {
            assert(link_valid(chain, i, now));
        }
    }
}

/// A chain that is valid at one clock time is valid at every later one.
pub proof fn lemma_valid_later(chain: Seq<BlockView>, now: nat, later: nat)
    requires
        chain_valid(chain, now),
        now <= later,
    ensures
        chain_valid(chain, later),
{
    assert forall|i: int| 1 <= i < chain.len() implies #[trigger] link_valid(chain, i, later) by {
        assert(link_valid(chain, i, now));
    }
}

/// Whether the block's time is plausible after its predecessor's, by a
/// clock that reads `now`.
pub fn is_valid_timestamp(new_block: &Block, previous_block: &Block, now: u64) -> (ok: bool)
    ensures
        ok == timestamp_plausible(
            new_block.timestamp as nat,
            previous_block.timestamp as nat,
            now as nat,
        ),
{
    let after_previous = previous_block.timestamp < TIMESTAMP_SLACK || previous_block.timestamp
        - TIMESTAMP_SLACK < new_block.timestamp;
    let not_ahead = new_block.timestamp < TIMESTAMP_SLACK || new_block.timestamp - TIMESTAMP_SLACK
        < now;
    after_previous && not_ahead
}

/// What is wrong with the block's hash, if anything: first that it is not
/// the content hash, then that it misses the recorded difficulty.
pub fn hash_violation(block: &Block) -> (violation: Option<ValidationError>)
    ensures
        violation == if !block@.is_sealed() {
            Some(ValidationError::InvalidHashContent)
        } else if !meets_difficulty(block@.hash, block@.difficulty) {
            Some(ValidationError::InsufficientDifficulty)
        } else {
            None
        },
{
    let block_hash = calculate_hash_for_block(block);
    if !(block_hash == block.hash) {
        Some(ValidationError::InvalidHashContent)
    } else if !hash_matches_difficulty(&block_hash, block.difficulty) {
        Some(ValidationError::InsufficientDifficulty)
    } else {
        None
    }
}

/// Whether the block's hash is accepted: it is the content hash. Missing
/// the recorded difficulty does not reject.
pub fn has_valid_hash(block: &Block) -> (ok: bool)
    ensures
        ok == block@.is_sealed(),
{
    match hash_violation(block) {
        Some(violation) => !violation.rejects(),
        None => true,
    }
}

/// The first rule that `new_block` breaks as successor of
/// `previous_block`, by a clock that reads `now`; `None` when it breaks
/// none.
pub fn block_violation(new_block: &Block, previous_block: &Block, now: u64) -> (violation: Option<
    ValidationError,
>)
    ensures
        violation == first_violation(new_block@, previous_block@, now as nat),
{
    if previous_block.index == u64::MAX || previous_block.index + 1 != new_block.index {
        Some(ValidationError::InvalidIndex)
    } else if !(previous_block.hash == new_block.previous_hash) {
        Some(ValidationError::InvalidPreviousHash)
    } else if !is_valid_timestamp(new_block, previous_block, now) {
        Some(ValidationError::InvalidTimestamp)
    } else {
        hash_violation(new_block)
    }
}

/// Whether `new_block` is accepted as successor of `previous_block`, by a
/// clock that reads `now`.
pub fn is_valid_new_block(new_block: &Block, previous_block: &Block, now: u64) -> (ok: bool)
    ensures
        ok == block_valid(new_block@, previous_block@, now as nat),
{
    match block_violation(new_block, previous_block, now) {
        Some(violation) => !violation.rejects(),
        None => true,
    }
}

/// Whether `new_block` is accepted as successor of `previous_block` by
/// this machine's clock, read once.
pub fn is_block_valid(new_block: Block, previous_block: Block) -> (ok: bool)
    ensures
        exists|now: u64| ok == #[trigger] block_valid(new_block@, previous_block@, now as nat),
        new_block@.index != previous_block@.index + 1 ==> !ok,
        new_block@.previous_hash != previous_block@.hash ==> !ok,
        !new_block@.is_sealed() ==> !ok,
{
    let now = get_current_timestamp();
    is_valid_new_block(&new_block, &previous_block, now)
}

/// Whether the chain is valid by a clock that reads `now`.
pub fn is_valid_chain_at(blockchain: &Vec<Block>, now: u64) -> (ok: bool)
    ensures
        ok == chain_valid(blockchain.deep_view(), now as nat),
{
    if blockchain.len() == 0 {
        return false;
    }
    if get_genesis_block() != blockchain[0] {
        return false;
    }
    let ghost chain = blockchain.deep_view();
    let mut i: usize = 1;
    while i < blockchain.len()
        invariant
            1 <= i <= blockchain.len(),
            chain == blockchain.deep_view(),
            chain[0] == genesis(),
            forall|j: int| 1 <= j < i ==> #[trigger] link_valid(chain, j, now as nat),
        decreases blockchain.len() - i,
    {
        if !is_valid_new_block(&blockchain[i], &blockchain[i - 1], now) {
            assert(!link_valid(chain, i as int, now as nat));
            return false;
        }
        i = i + 1;
    }
    true
}

/// Whether the chain is valid by this machine's clock, read once.
pub fn is_valid_chain(blockchain: &Vec<Block>) -> (ok: bool)
    ensures
        exists|now: u64| ok == #[trigger] chain_valid(blockchain.deep_view(), now as nat),
        blockchain.len() == 0 ==> !ok,
{
    let now = get_current_timestamp();
    is_valid_chain_at(blockchain, now)
}

} // verus!
