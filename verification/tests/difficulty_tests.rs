use powchain::block::Block;
use powchain::difficulty::{
    get_adjusted_difficulty, get_difficulty, has_difficulty, BLOCK_GENERATION_INTERVAL,
    DIFFICULTY_ADJUSTMENT_INTERVAL, TIME_EXPECTED,
};

fn plain(index: u64, timestamp: u64, difficulty: u8) -> Block {
    Block {
        index,
        hash: String::new(),
        previous_hash: String::new(),
        timestamp,
        data: String::new(),
        difficulty,
        nonce: 0,
    }
}

/// Blocks 0..=10, the first at time `start` with difficulty `first`, the
/// others with difficulty `later`, and the last at time `end`.
fn eleven(start: u64, end: u64, first: u8, later: u8) -> Vec<Block> {
    let mut chain = vec![plain(0, start, first)];
    for i in 1..10 {
        chain.push(plain(i, start, later));
    }
    chain.push(plain(10, end, later));
    chain
}

#[test]
fn intervals_are_ten_blocks_of_ten_seconds() {
    assert_eq!(BLOCK_GENERATION_INTERVAL, 10);
    assert_eq!(DIFFICULTY_ADJUSTMENT_INTERVAL, 10);
    assert_eq!(TIME_EXPECTED, 100);
}

#[test]
fn difficulty_of_a_lone_first_block_is_its_own() {
    assert_eq!(get_difficulty(vec![plain(0, 1000, 0)]), 0);
    assert_eq!(get_difficulty(vec![plain(0, 1000, 6)]), 6);
}

#[test]
fn difficulty_between_adjustments_is_the_tips() {
    let chain = vec![plain(0, 1000, 0), plain(1, 1001, 3), plain(2, 1002, 5)];
    assert_eq!(get_difficulty(chain), 5);
    let mut chain = eleven(1000, 1010, 2, 4);
    chain.push(plain(11, 1011, 9));
    assert_eq!(get_difficulty(chain), 9);
}

#[test]
fn ten_blocks_in_under_half_the_expected_time_raise_the_difficulty() {
    let chain = eleven(1000, 1040, 3, 3);
    assert_eq!(get_difficulty(chain), 4);
}

#[test]
fn retarget_starts_from_the_tips_difficulty() {
    let chain = eleven(1000, 1040, 3, 7);
    assert_eq!(get_difficulty(chain), 8);
    let chain = eleven(1000, 1300, 3, 7);
    assert_eq!(get_difficulty(chain), 6);
    let chain = eleven(1000, 1100, 3, 7);
    assert_eq!(get_difficulty(chain), 7);
}

#[test]
fn half_the_expected_time_is_the_first_that_keeps_the_difficulty() {
    assert_eq!(get_difficulty(eleven(1000, 1049, 3, 3)), 4);
    assert_eq!(get_difficulty(eleven(1000, 1050, 3, 3)), 3);
}

#[test]
fn twice_the_expected_time_is_the_last_that_keeps_the_difficulty() {
    assert_eq!(get_difficulty(eleven(1000, 1200, 3, 3)), 3);
    assert_eq!(get_difficulty(eleven(1000, 1201, 3, 3)), 2);
}

#[test]
fn difficulty_never_goes_below_zero() {
    assert_eq!(get_difficulty(eleven(1000, 5000, 0, 0)), 0);
}

#[test]
fn difficulty_never_goes_above_the_largest() {
    assert_eq!(get_difficulty(eleven(1000, 1001, 255, 255)), 255);
    assert_eq!(get_difficulty(eleven(1000, 1001, 254, 254)), 255);
}

#[test]
fn a_tip_older_than_the_reference_block_counts_as_fast() {
    assert_eq!(get_difficulty(eleven(1000, 900, 3, 3)), 4);
    assert_eq!(get_difficulty(eleven(u64::MAX, 0, 3, 3)), 4);
}

#[test]
fn a_long_time_is_not_cut_to_eight_bits() {
    assert_eq!(get_difficulty(eleven(1000, 1000 + 256 + 10, 3, 3)), 2);
    assert_eq!(get_difficulty(eleven(0, u64::MAX, 3, 3)), 2);
}

#[test]
fn retarget_times_from_the_block_ten_indices_before_the_tip() {
    let mut chain = Vec::new();
    for i in 0..=20u64 {
        chain.push(plain(i, 1000 + 10 * i, 5));
    }
    assert_eq!(get_difficulty(chain.clone()), 5);
    chain[10] = plain(10, 1190, 8);
    assert_eq!(get_difficulty(chain.clone()), 6);
    assert_eq!(get_adjusted_difficulty(&chain[20], &chain), 6);
    chain[10] = plain(10, 900, 8);
    assert_eq!(get_adjusted_difficulty(&chain[20], &chain), 4);
    chain[11] = plain(11, 0, 8);
    chain[9] = plain(9, 5000, 8);
    assert_eq!(get_adjusted_difficulty(&chain[20], &chain), 4);
}

#[test]
fn difficulty_can_rise_at_every_adjustment() {
    let mut chain = Vec::new();
    for i in 0..=10u64 {
        chain.push(plain(i, 1000 + i, 0));
    }
    assert_eq!(get_difficulty(chain.clone()), 1);
    for i in 11..=20u64 {
        chain.push(plain(i, 1000 + i, 1));
    }
    assert_eq!(get_difficulty(chain.clone()), 2);
    for i in 21..=30u64 {
        chain.push(plain(i, 1000 + i, 2));
    }
    assert_eq!(get_difficulty(chain), 3);
}

#[test]
fn has_difficulty_tells_when_the_rule_can_be_read() {
    assert!(!has_difficulty(&Vec::new()));
    assert!(has_difficulty(&vec![plain(0, 1, 0)]));
    assert!(has_difficulty(&vec![plain(7, 1, 0)]));
    assert!(has_difficulty(&vec![plain(10, 1, 0)]));
    assert!(has_difficulty(&vec![plain(15, 1, 0)]));
    assert!(!has_difficulty(&vec![plain(20, 1, 0)]));
    assert!(has_difficulty(&eleven(1, 2, 0, 0)));
    assert!(!has_difficulty(&vec![plain(0, 1, 0), plain(30, 1, 0)]));
    assert!(has_difficulty(&vec![plain(0, 1, 0), plain(11, 1, 0)]));
}
