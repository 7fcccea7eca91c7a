use blockchain::block::Block;
use blockchain::chain::Blockchain;
use blockchain::clock::{seconds_since_epoch, ClockError};
use std::time::{Duration, UNIX_EPOCH};

const GENESIS_AT_1700000000: &str =
    "595c9ce9e57268b9de43e26fbea7ff37ac48d7963711e05106d52515e55f5d5a";
const FIRST_AT_1700000001: &str =
    "a69042c7a0f3fde0355a75a72f890b2f7b400e27104ce9f0370c91d515ba04aa";

#[test]
fn block_from_a_good_reading_is_stamped_with_it() {
    let block = Block::stamped(1, Ok(1700000000), "hello".to_string(), "0".to_string()).unwrap();
    assert_eq!(block.index, 1);
    assert_eq!(block.timestamp, 1700000000);
    assert_eq!(block.data, "hello");
    assert_eq!(block.previous_hash, "0");
    assert_eq!(
        block.hash,
        "11f1044b4d6deed42190305661a6960e12e5caae9259b9457f391799a9d8a2be"
    );
}

#[test]
fn block_from_a_failed_reading_is_not_made() {
    let made = Block::stamped(
        1,
        Err(ClockError::BeforeEpoch),
        "hello".to_string(),
        "0".to_string(),
    );
    assert_eq!(made.err(), Some(ClockError::BeforeEpoch));
}

#[test]
fn block_from_a_clock_before_the_epoch_is_not_made() {
    let moment = UNIX_EPOCH - Duration::from_secs(1);
    let reading = seconds_since_epoch(moment.duration_since(UNIX_EPOCH));
    let made = Block::stamped(0, reading, "Genesis Block".to_string(), "0".to_string());
    assert_eq!(made.err(), Some(ClockError::BeforeEpoch));
}

#[test]
fn chain_from_a_good_reading_starts_at_that_moment() {
    let chain = Blockchain::new_stamped(Ok(1700000000)).unwrap();
    assert_eq!(chain.chain.len(), 1);
    assert_eq!(chain.chain[0].index, 0);
    assert_eq!(chain.chain[0].timestamp, 1700000000);
    assert_eq!(chain.chain[0].previous_hash, "0");
    assert_eq!(chain.chain[0].hash, GENESIS_AT_1700000000);
    assert!(chain.is_chain_valid());
}

#[test]
fn chain_from_a_failed_reading_is_not_made() {
    let made = Blockchain::new_stamped(Err(ClockError::BeforeEpoch));
    assert_eq!(made.err(), Some(ClockError::BeforeEpoch));
}

#[test]
fn genesis_from_a_reading() {
    let mut chain = Blockchain { chain: Vec::new() };
    assert_eq!(
        chain.create_genesis_block_stamped(Err(ClockError::BeforeEpoch)),
        Err(ClockError::BeforeEpoch)
    );
    assert!(chain.chain.is_empty());
    assert_eq!(chain.create_genesis_block_stamped(Ok(1700000000)), Ok(()));
    assert_eq!(chain.chain.len(), 1);
    assert_eq!(chain.chain[0].hash, GENESIS_AT_1700000000);
}

#[test]
fn append_from_a_good_reading() {
    let mut chain = Blockchain::new_at(1700000000);
    let done = chain.add_block_stamped("First block after genesis".to_string(), Ok(1700000001));
    assert_eq!(done, Ok(()));
    assert_eq!(chain.chain.len(), 2);
    assert_eq!(chain.chain[1].index, 1);
    assert_eq!(chain.chain[1].timestamp, 1700000001);
    assert_eq!(chain.chain[1].previous_hash, GENESIS_AT_1700000000);
    assert_eq!(chain.chain[1].hash, FIRST_AT_1700000001);
    assert!(chain.is_chain_valid());
}

#[test]
fn append_from_a_failed_reading_leaves_the_chain_alone() {
    let mut chain = Blockchain::new_at(1700000000);
    chain.add_block_at("First block after genesis".to_string(), 1700000001);
    let done = chain.add_block_stamped("lost".to_string(), Err(ClockError::BeforeEpoch));
    assert_eq!(done, Err(ClockError::BeforeEpoch));
    assert_eq!(chain.chain.len(), 2);
    assert_eq!(chain.chain[0].hash, GENESIS_AT_1700000000);
    assert_eq!(chain.chain[1].hash, FIRST_AT_1700000001);
    assert_eq!(chain.chain[1].data, "First block after genesis");
    assert!(chain.is_chain_valid());
}

#[test]
fn append_from_a_measured_span() {
    let moment = UNIX_EPOCH + Duration::new(1700000001, 500_000_000);
    let reading = seconds_since_epoch(moment.duration_since(UNIX_EPOCH));
    let mut chain = Blockchain::new_at(1700000000);
    assert_eq!(
        chain.add_block_stamped("First block after genesis".to_string(), reading),
        Ok(())
    );
    assert_eq!(chain.chain[1].timestamp, 1700000001);
    assert_eq!(chain.chain[1].hash, FIRST_AT_1700000001);
}
