//! The block record, its mathematical view, and the fixed first block.

use crate::clock::get_current_timestamp;
use crate::digest::{calculate_hash, content_hash, is_hex_digest, preimage};
use vstd::prelude::*;
use vstd::std_specs::cmp::PartialEqSpecImpl;

verus! {

/// One link of the chain. `hash` is meant to be the content hash of the
/// other six fields; a block whose `hash` is not is never accepted into a
/// chain.
#[derive(Debug)]
pub struct Block {
    pub index: u64,
    pub hash: String,
    pub previous_hash: String,
    pub timestamp: u64,
    pub data: String,
    pub difficulty: u8,
    pub nonce: u64,
}

/// What a block says, as plain mathematics.
pub struct BlockView {
    pub index: nat,
    pub hash: Seq<char>,
    pub previous_hash: Seq<char>,
    pub timestamp: nat,
    pub data: Seq<char>,
    pub difficulty: nat,
    pub nonce: nat,
}

impl BlockView {
    /// The text that is hashed for this block.
    pub open spec fn preimage(self) -> Seq<char> {
        preimage(
            self.index,
            self.previous_hash,
            self.timestamp,
            self.data,
            self.difficulty,
            self.nonce,
        )
    }

    /// The hash that the six other fields determine.
    pub open spec fn content_hash(self) -> Seq<char> {
        content_hash(
            self.index,
            self.previous_hash,
            self.timestamp,
            self.data,
            self.difficulty,
            self.nonce,
        )
    }

    /// The recorded hash is the one the content determines.
    pub open spec fn is_sealed(self) -> bool {
        self.hash == self.content_hash()
    }

    /// The block that follows `self` with the given payload, target and
    /// time, before any nonce search: nonce 0, sealed.
    pub open spec fn extension(self, data: Seq<char>, difficulty: nat, timestamp: nat) -> BlockView {
        BlockView {
            index: self.index + 1,
            hash: content_hash(self.index + 1, self.hash, timestamp, data, difficulty, 0),
            previous_hash: self.hash,
            timestamp,
            data,
            difficulty,
            nonce: 0,
        }
    }
}

impl View for Block {
    type V = BlockView;

    open spec fn view(&self) -> BlockView {
        BlockView {
            index: self.index as nat,
            hash: self.hash@,
            previous_hash: self.previous_hash@,
            timestamp: self.timestamp as nat,
            data: self.data@,
            difficulty: self.difficulty as nat,
            nonce: self.nonce as nat,
        }
    }
}

impl DeepView for Block {
    type V = BlockView;

    open spec fn deep_view(&self) -> BlockView {
        self@
    }
}

impl Clone for Block {
    fn clone(&self) -> (copy: Self)
        ensures
            copy == *self,
    {
        Block {
            index: self.index,
            hash: self.hash.clone(),
            previous_hash: self.previous_hash.clone(),
            timestamp: self.timestamp,
            data: self.data.clone(),
            difficulty: self.difficulty,
            nonce: self.nonce,
        }
    }

    fn clone_from(&mut self, source: &Self)
        ensures
            *final(self) == *source,
    {
        *self = source.clone()
    }
}

impl PartialEq for Block {
    /// Two blocks are equal when all seven fields are.
    fn eq(&self, other: &Block) -> (equal: bool) {
        self.index == other.index && self.hash == other.hash && self.previous_hash
            == other.previous_hash && self.timestamp == other.timestamp && self.data == other.data
            && self.difficulty == other.difficulty && self.nonce == other.nonce
    }
}

impl PartialEqSpecImpl for Block {
    open spec fn obeys_eq_spec() -> bool {
        true
    }

    open spec fn eq_spec(&self, other: &Block) -> bool {
        self@ == other@
    }
}

/// The hash of the first block: a fixed text, not a digest of its content.
pub const GENESIS_HASH: &'static str =
    "000000000000000000000000000000000000000000000000000000000000000";

/// The payload of the first block.
pub const GENESIS_DATA: &'static str = "my genesis block!!";

/// The time recorded in the first block, in seconds since the Unix epoch.
pub const GENESIS_TIMESTAMP: u64 = 1741545545;

/// The first block that every valid chain shares.
pub open spec fn genesis() -> BlockView {
    BlockView {
        index: 0,
        hash: GENESIS_HASH@,
        previous_hash: Seq::empty(),
        timestamp: GENESIS_TIMESTAMP as nat,
        data: GENESIS_DATA@,
        difficulty: 0,
        nonce: 0,
    }
}

/// Builds the first block.
pub fn get_genesis_block() -> (block: Block)
    ensures
        block@ == genesis(),
{
    Block {
        index: 0,
        hash: String::from_str(GENESIS_HASH),
        previous_hash: String::new(),
        timestamp: GENESIS_TIMESTAMP,
        data: String::from_str(GENESIS_DATA),
        difficulty: 0,
        nonce: 0,
    }
}

/// The content hash of a block's six other fields, whatever its `hash`
/// field holds.
pub fn calculate_hash_for_block(block: &Block) -> (hash: String)
    ensures
        hash@ == block@.content_hash(),
        is_hex_digest(hash@),
{
    calculate_hash(
        block.index,
        block.previous_hash.clone(),
        block.timestamp,
        &block.data,
        block.difficulty,
        block.nonce,
    )
}

/// Whether the recorded hash is the one the content determines.
pub fn hash_matches_block_content(block: &Block) -> (sealed: bool)
    ensures
        sealed == block@.is_sealed(),
{
    let block_hash = calculate_hash_for_block(block);
    block_hash == block.hash
}

/// What can be extended by one block.
pub trait IBlock {
    /// The block that `self` stands for.
    spec fn as_block(&self) -> BlockView;

    /// The block that follows `self` with the given payload and target,
    /// stamped with this machine's clock, before any nonce search.
    fn next_block(&self, block_data: &String, difficulty: u8) -> (next: Block)
        requires
            self.as_block().index < u64::MAX,
        ensures
            exists|timestamp: u64|
                next@ == #[trigger] self.as_block().extension(
                    block_data@,
                    difficulty as nat,
                    timestamp as nat,
                ),
            is_hex_digest(next.hash@),
    ;
}

impl Block {
    /// The block that follows `self` with the given payload, target and
    /// time, before any nonce search: nonce 0, and the hash of that content.
    pub fn extend(&self, block_data: &String, difficulty: u8, timestamp: u64) -> (next: Block)
        requires
            self.index < u64::MAX,
        ensures
            next@ == self@.extension(block_data@, difficulty as nat, timestamp as nat),
            is_hex_digest(next.hash@),
    {
        let next_index: u64 = self.index + 1;
        let next_hash = calculate_hash(
            next_index,
            self.hash.clone(),
            timestamp,
            block_data,
            difficulty,
            0,
        );
        Block {
            index: next_index,
            hash: next_hash,
            previous_hash: self.hash.clone(),
            timestamp,
            data: block_data.clone(),
            difficulty,
            nonce: 0,
        }
    }
}

impl IBlock for Block {
    open spec fn as_block(&self) -> BlockView {
        self@
    }

    fn next_block(&self, block_data: &String, difficulty: u8) -> (next: Block) {
        let next_timestamp: u64 = get_current_timestamp();
        self.extend(block_data, difficulty, next_timestamp)
    }
}

} // verus!
