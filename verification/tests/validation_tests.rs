use powchain::block::{get_genesis_block, Block, GENESIS_TIMESTAMP};
use powchain::pow::find_block;
use powchain::validation::{
    block_violation, has_valid_hash, hash_violation, is_block_valid, is_valid_chain,
    is_valid_chain_at, is_valid_new_block, is_valid_timestamp, ValidationError, TIMESTAMP_SLACK,
};

fn text(s: &str) -> String {
    String::from(s)
}

const T1: u64 = GENESIS_TIMESTAMP + 10;
const NOW: u64 = GENESIS_TIMESTAMP + 1000;

fn second() -> Block {
    get_genesis_block().extend(&text("hello"), 0, T1)
}

fn stamped(timestamp: u64) -> Block {
    let mut b = get_genesis_block();
    b.timestamp = timestamp;
    b
}

#[test]
fn slack_is_sixty_seconds() {
    assert_eq!(TIMESTAMP_SLACK, 60);
}

#[test]
fn only_a_missed_difficulty_does_not_reject() {
    assert!(ValidationError::InvalidIndex.rejects());
    assert!(ValidationError::InvalidPreviousHash.rejects());
    assert!(ValidationError::InvalidTimestamp.rejects());
    assert!(ValidationError::InvalidHashContent.rejects());
    assert!(!ValidationError::InsufficientDifficulty.rejects());
    assert!(ValidationError::ChainTooShort.rejects());
    assert!(ValidationError::ChainInvalid.rejects());
    assert!(ValidationError::EmptyChain.rejects());
}

#[test]
fn timestamp_may_lie_less_than_the_slack_before_the_predecessor() {
    assert!(is_valid_timestamp(&stamped(1000), &stamped(1059), 5000));
    assert!(!is_valid_timestamp(&stamped(1000), &stamped(1060), 5000));
    assert!(is_valid_timestamp(&stamped(1000), &stamped(10), 5000));
}

#[test]
fn timestamp_may_lie_less_than_the_slack_ahead_of_the_clock() {
    assert!(is_valid_timestamp(&stamped(1059), &stamped(1000), 1000));
    assert!(!is_valid_timestamp(&stamped(1060), &stamped(1000), 1000));
    assert!(is_valid_timestamp(&stamped(1000), &stamped(1000), 941));
    assert!(!is_valid_timestamp(&stamped(1000), &stamped(1000), 940));
}

#[test]
fn timestamp_check_near_zero_does_not_wrap() {
    assert!(is_valid_timestamp(&stamped(0), &stamped(59), 1));
    assert!(!is_valid_timestamp(&stamped(0), &stamped(60), 1));
    assert!(is_valid_timestamp(&stamped(59), &stamped(0), 0));
    assert!(!is_valid_timestamp(&stamped(60), &stamped(0), 0));
    assert!(is_valid_timestamp(&stamped(5), &stamped(5), 0));
}

#[test]
fn timestamp_check_near_the_largest_time_does_not_wrap() {
    assert!(is_valid_timestamp(&stamped(u64::MAX), &stamped(u64::MAX), u64::MAX));
    assert!(!is_valid_timestamp(&stamped(u64::MAX), &stamped(0), u64::MAX - 60));
    assert!(is_valid_timestamp(&stamped(u64::MAX), &stamped(0), u64::MAX - 59));
}

#[test]
fn a_well_made_successor_is_accepted() {
    let g = get_genesis_block();
    assert_eq!(block_violation(&second(), &g, NOW), None);
    assert!(is_valid_new_block(&second(), &g, NOW));
    assert!(is_block_valid(second(), g));
}

#[test]
fn wrong_index_is_invalid_index() {
    let g = get_genesis_block();
    let mut b = second();
    b.index = 2;
    assert_eq!(block_violation(&b, &g, NOW), Some(ValidationError::InvalidIndex));
    assert!(!is_valid_new_block(&b, &g, NOW));
    b.index = 0;
    assert_eq!(block_violation(&b, &g, NOW), Some(ValidationError::InvalidIndex));
}

#[test]
fn no_index_follows_the_largest() {
    let mut last = get_genesis_block();
    last.index = u64::MAX;
    let mut b = second();
    b.index = 0;
    assert_eq!(block_violation(&b, &last, NOW), Some(ValidationError::InvalidIndex));
    b.index = u64::MAX;
    assert_eq!(block_violation(&b, &last, NOW), Some(ValidationError::InvalidIndex));
}

#[test]
fn wrong_previous_hash_is_rejected_whatever_else_holds() {
    let g = get_genesis_block();
    let mut predecessor = get_genesis_block();
    predecessor.hash = text("0000000000000000000000000000000000000000000000000000000000000000");
    let b = second();
    assert!(is_valid_new_block(&b, &g, NOW));
    assert_eq!(
        block_violation(&b, &predecessor, NOW),
        Some(ValidationError::InvalidPreviousHash)
    );
    assert!(!is_valid_new_block(&b, &predecessor, NOW));
    assert!(!is_block_valid(b, predecessor));
}

#[test]
fn index_is_checked_before_the_previous_hash() {
    let mut predecessor = get_genesis_block();
    predecessor.hash = text("ab");
    let mut b = second();
    b.index = 5;
    assert_eq!(block_violation(&b, &predecessor, NOW), Some(ValidationError::InvalidIndex));
}

#[test]
fn implausible_time_is_invalid_timestamp() {
    let g = get_genesis_block();
    let early = g.extend(&text("hello"), 0, GENESIS_TIMESTAMP - 60);
    assert_eq!(block_violation(&early, &g, NOW), Some(ValidationError::InvalidTimestamp));
    let just_in = g.extend(&text("hello"), 0, GENESIS_TIMESTAMP - 59);
    assert_eq!(block_violation(&just_in, &g, NOW), None);
    let ahead = g.extend(&text("hello"), 0, NOW + 60);
    assert_eq!(block_violation(&ahead, &g, NOW), Some(ValidationError::InvalidTimestamp));
    assert!(!is_valid_new_block(&ahead, &g, NOW));
    let just_ahead = g.extend(&text("hello"), 0, NOW + 59);
    assert_eq!(block_violation(&just_ahead, &g, NOW), None);
}

#[test]
fn time_is_checked_before_the_hash() {
    let g = get_genesis_block();
    let mut b = g.extend(&text("hello"), 0, NOW + 60);
    b.data = text("changed");
    assert_eq!(block_violation(&b, &g, NOW), Some(ValidationError::InvalidTimestamp));
}

#[test]
fn changed_content_is_invalid_hash_content() {
    let g = get_genesis_block();
    let mut b = second();
    b.data = text("changed");
    assert_eq!(block_violation(&b, &g, NOW), Some(ValidationError::InvalidHashContent));
    assert_eq!(hash_violation(&b), Some(ValidationError::InvalidHashContent));
    assert!(!has_valid_hash(&b));
    assert!(!is_valid_new_block(&b, &g, NOW));
    assert!(!is_block_valid(b, g));
}

#[test]
fn missed_difficulty_is_reported_and_does_not_reject() {
    let g = get_genesis_block();
    let b = g.extend(&text("hello"), 200, T1);
    assert_eq!(block_violation(&b, &g, NOW), Some(ValidationError::InsufficientDifficulty));
    assert_eq!(hash_violation(&b), Some(ValidationError::InsufficientDifficulty));
    assert!(has_valid_hash(&b));
    assert!(is_valid_new_block(&b, &g, NOW));
}

#[test]
fn mined_block_has_no_violation() {
    let g = get_genesis_block();
    let b = find_block(1, g.hash.clone(), T1, text("hello"), 6).unwrap();
    assert_eq!(hash_violation(&b), None);
    assert!(has_valid_hash(&b));
    assert_eq!(block_violation(&b, &g, NOW), None);
}

#[test]
fn empty_chain_is_invalid() {
    assert!(!is_valid_chain_at(&Vec::new(), NOW));
    assert!(!is_valid_chain(&Vec::new()));
}

#[test]
fn chain_of_the_first_block_alone_is_valid() {
    assert!(is_valid_chain_at(&vec![get_genesis_block()], NOW));
    assert!(is_valid_chain_at(&vec![get_genesis_block()], 0));
    assert!(is_valid_chain(&vec![get_genesis_block()]));
}

#[test]
fn chain_with_another_first_block_is_invalid() {
    let mut g = get_genesis_block();
    g.data = text("my genesis block!");
    assert!(!is_valid_chain_at(&vec![g], NOW));
    let mut g = get_genesis_block();
    g.nonce = 1;
    assert!(!is_valid_chain_at(&vec![g], NOW));
    assert!(!is_valid_chain_at(&vec![second()], NOW));
}

#[test]
fn chain_is_valid_when_every_link_is() {
    let g = get_genesis_block();
    let b1 = second();
    let b2 = b1.extend(&text("world"), 0, T1 + 10);
    let chain = vec![g, b1, b2];
    assert!(is_valid_chain_at(&chain, NOW));
    assert!(is_valid_chain(&chain));
}

#[test]
fn chain_with_one_bad_link_is_invalid() {
    let g = get_genesis_block();
    let b1 = second();
    let b2 = b1.extend(&text("world"), 0, T1 + 10);
    let mut bad = b2.clone();
    bad.data = text("w0rld");
    assert!(!is_valid_chain_at(&vec![g.clone(), b1.clone(), bad], NOW));
    assert!(!is_valid_chain_at(&vec![g.clone(), b2.clone()], NOW));
    assert!(!is_valid_chain_at(&vec![g.clone(), b1.clone(), b1.clone()], NOW));
    let mut tampered = b1.clone();
    tampered.timestamp = T1 + 1;
    assert!(!is_valid_chain_at(&vec![g, tampered, b2], NOW));
}

#[test]
fn chain_validity_depends_on_the_clock() {
    let chain = vec![get_genesis_block(), second()];
    assert!(!is_valid_chain_at(&chain, T1 - 60));
    assert!(is_valid_chain_at(&chain, T1 - 59));
    assert!(is_valid_chain_at(&chain, T1 + 1_000_000));
}
