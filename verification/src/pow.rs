//! Proof of work: the difficulty test on a hash, and the nonce search.

use crate::block::{Block, BlockView};
use crate::digest::{
    calculate_hash, content_hash, hex_value, is_hex, is_hex_char, is_hex_digest,
};
use vstd::prelude::*;
use vstd::string::StringSliceAdditionalSpecFns;

verus! {

/// Binary digit `position` (0 is the most significant) of the four-digit
/// binary numeral of `value`.
pub open spec fn nibble_bit(value: nat, position: int) -> nat {
    if position == 0 {
        value / 8 % 2
    } else if position == 1 {
        value / 4 % 2
    } else if position == 2 {
        value / 2 % 2
    } else {
        value % 2
    }
}

/// Binary digit `k` of the binary expansion of a hexadecimal text, four
/// binary digits for each character, in reading order.
pub open spec fn binary_digit(hash: Seq<char>, k: int) -> nat
    recommends
        0 <= k < 4 * hash.len(),
{
    nibble_bit(hex_value(hash[k / 4]), k % 4)
}

/// The binary expansion of `hash` begins with at least `difficulty` zeros.
pub open spec fn meets_difficulty(hash: Seq<char>, difficulty: nat) -> bool {
    &&& difficulty <= 4 * hash.len()
    &&& forall|k: int| 0 <= k < difficulty ==> #[trigger] binary_digit(hash, k) == 0
}

/// A hash that meets a difficulty meets every lower one.
pub proof fn lemma_difficulty_monotonic(hash: Seq<char>, difficulty: nat, lower: nat)
    requires
        meets_difficulty(hash, difficulty),
        lower <= difficulty,
    ensures
        meets_difficulty(hash, lower),
{
}

/// Every hash meets difficulty 0.
pub proof fn lemma_difficulty_zero(hash: Seq<char>)
    ensures
        meets_difficulty(hash, 0),
{
}

fn hex_digit_value(byte: u8) -> (value: u8)
    requires
        is_hex_char(byte as char),
    ensures
        value == hex_value(byte as char),
        value < 16,
{
    if byte >= 48 && byte <= 57 {
        byte - 48
    } else if byte >= 97 && byte <= 102 {
        byte - 87
    } else {
        byte - 55
    }
}

/// Whether the binary expansion of `hash` (four binary digits for each
/// hexadecimal character) begins with at least `difficulty` zeros.
pub fn hash_matches_difficulty(hash: &String, difficulty: u8) -> (ok: bool)
    requires
        is_hex(hash@),
    ensures
        ok == meets_difficulty(hash@, difficulty as nat),
{
    let bytes = hash.as_str().as_bytes();
    proof {
        assert(vstd::utf8::is_ascii_chars(hash@));
        vstd::utf8::is_ascii_chars_encode_utf8(hash@);
        assert(bytes@.len() == hash@.len());
        assert forall|i: int| 0 <= i < hash@.len() implies (#[trigger] bytes@[i]) as char
            == hash@[i] by {
            assert(is_hex_char(hash@[i]));
        }
    }
    let whole: usize = (difficulty / 4) as usize;
    let rest: u8 = difficulty % 4;
    let needed: usize = if rest > 0 {
        whole + 1
    } else {
        whole
    };
    if bytes.len() < needed {
        return false;
    }
    let mut i: usize = 0;
    while i < whole
        invariant
            i <= whole,
            whole == difficulty as nat / 4,
            whole <= bytes@.len(),
            bytes@.len() == hash@.len(),
            is_hex(hash@),
            forall|j: int| 0 <= j < hash@.len() ==> (#[trigger] bytes@[j]) as char == hash@[j],
            forall|k: int| 0 <= k < 4 * i ==> #[trigger] binary_digit(hash@, k) == 0,
        decreases whole - i,
    {
        let value = hex_digit_value(bytes[i]);
        if value != 0 {
            proof {
                let base = 4 * i as int;
                assert(binary_digit(hash@, base) != 0 || binary_digit(hash@, base + 1) != 0
                    || binary_digit(hash@, base + 2) != 0 || binary_digit(hash@, base + 3) != 0);
            }
            return false;
        }
        proof {
            assert forall|k: int| 0 <= k < 4 * (i + 1) implies #[trigger] binary_digit(hash@, k)
                == 0 by {
                if k >= 4 * i {
                    assert(k / 4 == i as int);
                }
            }
        }
        i = i + 1;
    }
    if rest == 0 {
        true
    } else {
        let value = hex_digit_value(bytes[whole]);
        let limit: u8 = if rest == 1 {
            8
        } else if rest == 2 {
            4
        } else {
            2
        };
        proof {
            let base = 4 * whole as int;
            if value < limit {
                assert forall|k: int| 0 <= k < difficulty as nat implies #[trigger] binary_digit(
                    hash@,
                    k,
                ) == 0 by {
                    if k >= base {
                        assert(k / 4 == whole as int);
                    }
                }
            } else {
                assert(binary_digit(hash@, base) != 0 || (rest >= 2 && binary_digit(
                    hash@,
                    base + 1,
                ) != 0) || (rest >= 3 && binary_digit(hash@, base + 2) != 0));
            }
        }
        value < limit
    }
}

/// With this nonce the content hash of the other five fields meets the
/// target.
pub open spec fn nonce_works(
    index: nat,
    previous_hash: Seq<char>,
    timestamp: nat,
    data: Seq<char>,
    difficulty: nat,
    nonce: nat,
) -> bool {
    meets_difficulty(
        content_hash(index, previous_hash, timestamp, data, difficulty, nonce),
        difficulty,
    )
}

/// What the nonce search produces: a block whose hash is its content hash
/// and meets its own difficulty, with the least nonce for which that holds.
pub open spec fn is_mined(block: BlockView) -> bool {
    &&& block.is_sealed()
    &&& meets_difficulty(block.hash, block.difficulty)
    &&& forall|nonce: nat|
        nonce < block.nonce ==> !#[trigger] nonce_works(
            block.index,
            block.previous_hash,
            block.timestamp,
            block.data,
            block.difficulty,
            nonce,
        )
}

/// Searches the nonces 0, 1, 2, ... in order for the first whose content
/// hash meets `difficulty`, and returns the block with that nonce and hash.
/// `None` only when no 64-bit nonce works.
pub fn find_block(
    index: u64,
    previous_hash: String,
    timestamp: u64,
    data: String,
    difficulty: u8,
) -> (found: Option<Block>)
    ensures
        match found {
            Some(block) => {
                &&& block.index == index
                &&& block.previous_hash@ == previous_hash@
                &&& block.timestamp == timestamp
                &&& block.data@ == data@
                &&& block.difficulty == difficulty
                &&& is_mined(block@)
                &&& is_hex_digest(block.hash@)
            },
            None => forall|nonce: nat|
                nonce <= u64::MAX ==> !#[trigger] nonce_works(
                    index as nat,
                    previous_hash@,
                    timestamp as nat,
                    data@,
                    difficulty as nat,
                    nonce,
                ),
        },
        difficulty == 0 ==> found is Some && found->0.nonce == 0,
{
    let mut nonce: u64 = 0;
    loop
        invariant
            forall|n: nat|
                n < nonce ==> !#[trigger] nonce_works(
                    index as nat,
                    previous_hash@,
                    timestamp as nat,
                    data@,
                    difficulty as nat,
                    n,
                ),
        decreases u64::MAX - nonce,
    {
        let hash = calculate_hash(
            index,
            previous_hash.clone(),
            timestamp,
            &data,
            difficulty,
            nonce,
        );
        if hash_matches_difficulty(&hash, difficulty) {
            proof {
                if difficulty == 0 && nonce > 0 {
                    assert(nonce_works(
                        index as nat,
                        previous_hash@,
                        timestamp as nat,
                        data@,
                        difficulty as nat,
                        0,
                    ));
                }
            }
            return Some(Block { index, hash, previous_hash, timestamp, data, difficulty, nonce });
        }
        if nonce == u64::MAX {
            return None;
        }
        nonce = nonce + 1;
    }
}

} // verus!
