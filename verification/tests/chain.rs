use blockchain::block::Block;
use blockchain::chain::Blockchain;

const GENESIS_HASH: &str = "595c9ce9e57268b9de43e26fbea7ff37ac48d7963711e05106d52515e55f5d5a";
const FIRST_HASH: &str = "a69042c7a0f3fde0355a75a72f890b2f7b400e27104ce9f0370c91d515ba04aa";
const SECOND_HASH: &str = "74b543f03c7ab1db4d1f9d076c03864999158cca2ab3b46d5264da86c7f4ed3c";
const THIRD_HASH: &str = "27f570c94c60a8a8f179674b80adde67fb68eec15ce2ef9501276676f13af4a3";

fn four_blocks() -> Blockchain {
    let mut chain = Blockchain::new_at(1700000000);
    chain.add_block_at("First block after genesis".to_string(), 1700000001);
    chain.add_block_at("Second block after genesis".to_string(), 1700000002);
    chain.add_block_at("Third block after genesis".to_string(), 1700000003);
    chain
}

#[test]
fn fresh_chain_holds_only_the_genesis_block() {
    let chain = Blockchain::new().unwrap();
    assert_eq!(chain.chain.len(), 1);
    assert_eq!(chain.chain[0].index, 0);
    assert_eq!(chain.chain[0].previous_hash, "0");
    assert_eq!(chain.chain[0].data, "Genesis Block");
    assert_eq!(chain.chain[0].hash, chain.chain[0].calculate_hash());
    assert!(chain.is_chain_valid());
}

#[test]
fn genesis_at_a_known_moment() {
    let chain = Blockchain::new_at(1700000000);
    assert_eq!(chain.chain.len(), 1);
    assert_eq!(chain.chain[0].index, 0);
    assert_eq!(chain.chain[0].timestamp, 1700000000);
    assert_eq!(chain.chain[0].data, "Genesis Block");
    assert_eq!(chain.chain[0].previous_hash, "0");
    assert_eq!(chain.chain[0].hash, GENESIS_HASH);
    assert!(chain.is_chain_valid());
}

#[test]
fn create_genesis_block_pushes_one_block() {
    let mut chain = Blockchain { chain: Vec::new() };
    chain.create_genesis_block().unwrap();
    assert_eq!(chain.chain.len(), 1);
    assert_eq!(chain.chain[0].index, 0);
    assert_eq!(chain.chain[0].previous_hash, "0");
    assert_eq!(chain.chain[0].data, "Genesis Block");

    let mut at = Blockchain { chain: Vec::new() };
    at.create_genesis_block_at(1700000000);
    assert_eq!(at.chain.len(), 1);
    assert_eq!(at.chain[0].hash, GENESIS_HASH);
}

#[test]
fn appends_give_exact_blocks() {
    let chain = four_blocks();
    assert_eq!(chain.chain.len(), 4);
    let expected = [GENESIS_HASH, FIRST_HASH, SECOND_HASH, THIRD_HASH];
    for (place, block) in chain.chain.iter().enumerate() {
        assert_eq!(block.index, place as u64);
        assert_eq!(block.timestamp, 1700000000 + place as u64);
        assert_eq!(block.hash, expected[place]);
    }
    assert_eq!(chain.chain[1].data, "First block after genesis");
    assert_eq!(chain.chain[1].previous_hash, GENESIS_HASH);
    assert_eq!(chain.chain[2].previous_hash, FIRST_HASH);
    assert_eq!(chain.chain[3].previous_hash, SECOND_HASH);
    assert!(chain.is_chain_valid());
}

#[test]
fn append_leaves_earlier_blocks_alone() {
    let mut chain = Blockchain::new_at(1700000000);
    chain.add_block_at("First block after genesis".to_string(), 1700000001);
    let before: Vec<Block> = chain.chain.clone();
    chain.add_block("more".to_string()).unwrap();
    assert_eq!(chain.chain.len(), before.len() + 1);
    for (kept, was) in chain.chain.iter().zip(before.iter()) {
        assert_eq!(kept.index, was.index);
        assert_eq!(kept.timestamp, was.timestamp);
        assert_eq!(kept.data, was.data);
        assert_eq!(kept.previous_hash, was.previous_hash);
        assert_eq!(kept.hash, was.hash);
    }
}

#[test]
fn length_and_positions_grow_with_each_append() {
    let mut chain = Blockchain::new().unwrap();
    for n in 1..=25usize {
        chain.add_block(format!("entry {}", n)).unwrap();
        assert_eq!(chain.chain.len(), 1 + n);
        for i in 1..=n {
            assert_eq!(chain.chain[i].index, i as u64);
        }
    }
    assert_eq!(chain.chain[25].data, "entry 25");
}

#[test]
fn every_block_names_the_hash_before_it() {
    let mut chain = Blockchain::new().unwrap();
    for n in 0..10 {
        chain.add_block(format!("entry {}", n)).unwrap();
        for i in 1..chain.chain.len() {
            assert_eq!(chain.chain[i].previous_hash, chain.chain[i - 1].hash);
            assert_eq!(chain.chain[i].hash, chain.chain[i].calculate_hash());
        }
        assert!(chain.is_chain_valid());
    }
}

#[test]
fn appended_block_has_empty_payload_when_given_one() {
    let mut chain = Blockchain::new_at(5);
    chain.add_block_at(String::new(), 6);
    assert_eq!(chain.chain[1].data, "");
    assert_eq!(chain.chain[1].index, 1);
    assert!(chain.is_chain_valid());
}

#[test]
fn end_to_end_scenario() {
    let mut chain = Blockchain::new().unwrap();
    chain.add_block("First block after genesis".to_string()).unwrap();
    chain.add_block("Second block after genesis".to_string()).unwrap();
    chain.add_block("Third block after genesis".to_string()).unwrap();
    assert_eq!(chain.chain.len(), 4);
    assert_eq!(chain.chain[3].index, 3);
    assert!(chain.is_chain_valid());

    chain.chain[2].data = "Something else entirely".to_string();
    assert!(!chain.is_chain_valid());
}

#[test]
fn changed_payload_is_found_in_every_later_block() {
    for i in 1..4 {
        let mut chain = four_blocks();
        chain.chain[i].data.push('!');
        assert!(!chain.is_chain_valid());
    }
}

#[test]
fn changed_hash_is_found_in_every_block() {
    for i in 0..4 {
        let mut chain = four_blocks();
        chain.chain[i].hash = GENESIS_HASH.replace('5', "6");
        assert!(!chain.is_chain_valid());
    }
}

#[test]
fn changed_link_is_found_in_every_later_block() {
    for i in 1..4 {
        let mut chain = four_blocks();
        chain.chain[i].previous_hash = "unrelated".to_string();
        assert!(!chain.is_chain_valid());
    }
}

#[test]
fn changed_link_is_found_even_when_resealed() {
    let mut chain = four_blocks();
    chain.chain[2].previous_hash = "unrelated".to_string();
    chain.chain[2].hash = chain.chain[2].calculate_hash();
    assert!(!chain.is_chain_valid());
}

#[test]
fn changed_index_or_time_is_found() {
    let mut chain = four_blocks();
    chain.chain[1].index = 7;
    assert!(!chain.is_chain_valid());

    let mut chain = four_blocks();
    chain.chain[3].timestamp = 1;
    assert!(!chain.is_chain_valid());
}

#[test]
fn swapped_blocks_are_found() {
    let mut chain = four_blocks();
    chain.chain.swap(1, 2);
    assert!(!chain.is_chain_valid());
}

#[test]
fn genesis_payload_is_not_examined() {
    let mut chain = four_blocks();
    chain.chain[0].data = "Another beginning".to_string();
    assert!(chain.is_chain_valid());
}

#[test]
fn single_block_is_valid_whatever_it_holds() {
    let mut chain = Blockchain::new_at(1700000000);
    assert!(chain.is_chain_valid());
    chain.chain[0].hash = "not a digest".to_string();
    assert!(chain.is_chain_valid());
}

#[test]
fn empty_chain_is_valid() {
    let chain = Blockchain { chain: Vec::new() };
    assert!(chain.is_chain_valid());
}

#[test]
fn validation_gives_the_same_answer_each_time() {
    let chain = four_blocks();
    let before: Vec<Block> = chain.chain.clone();
    for _ in 0..5 {
        assert!(chain.is_chain_valid());
    }
    assert_eq!(chain.chain.len(), before.len());
    for (kept, was) in chain.chain.iter().zip(before.iter()) {
        assert_eq!(kept.index, was.index);
        assert_eq!(kept.timestamp, was.timestamp);
        assert_eq!(kept.data, was.data);
        assert_eq!(kept.previous_hash, was.previous_hash);
        assert_eq!(kept.hash, was.hash);
    }

    let mut broken = four_blocks();
    broken.chain[2].data = "x".to_string();
    for _ in 0..5 {
        assert!(!broken.is_chain_valid());
    }
    assert_eq!(broken.chain[2].data, "x");
    assert_eq!(broken.chain[2].hash, SECOND_HASH);
}

#[test]
fn append_follows_the_last_block_as_it_stands() {
    let mut chain = Blockchain::new_at(1700000000);
    chain.chain[0].index = 41;
    chain.chain[0].hash = "anchor".to_string();
    chain.add_block_at("next".to_string(), 8);
    assert_eq!(chain.chain[1].index, 42);
    assert_eq!(chain.chain[1].previous_hash, "anchor");
    assert_eq!(chain.chain[1].hash, chain.chain[1].calculate_hash());
}

#[test]
fn debug_rendering_shows_every_field() {
    let chain = Blockchain::new_at(1700000000);
    let text = format!("{:?}", chain);
    assert!(text.contains("Blockchain"));
    assert!(text.contains("index: 0"));
    assert!(text.contains("timestamp: 1700000000"));
    assert!(text.contains("Genesis Block"));
    assert!(text.contains(GENESIS_HASH));
}
