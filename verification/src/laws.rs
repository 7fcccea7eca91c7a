//! What holds of every chain, whatever was appended to it and whenever.

use vstd::prelude::*;

use crate::block::BlockView;
use crate::chain::{
    appended, follows_at, genesis_block, grown, intact_at, linked_at, untouched, valid,
    well_formed, Entry,
};
use crate::encoding::lemma_hex_lower_injective;
use crate::hashing::{collide, differ_in_one_field_at_most, lemma_preimage_tells_one_field};

verus! {

/// A chain that holds a genesis block and nothing else has one block, at
/// index zero and behind the link `"0"`, and is valid.
pub proof fn law_genesis(timestamp: nat)
    ensures
        ({
            let blocks = seq![genesis_block(timestamp)];
            &&& blocks.len() == 1
            &&& blocks[0].index == 0
            &&& blocks[0].previous_hash == "0"@
            &&& untouched(blocks)
            &&& valid(blocks)
        }),
{
}

/// In a well-formed chain every block's index is its place in the chain.
pub proof fn law_index_is_place(blocks: Seq<BlockView>, i: int)
    requires
        well_formed(blocks),
        0 <= i < blocks.len(),
    ensures
        blocks[i].index == i,
    decreases i,
{
    if i > 0 {
        law_index_is_place(blocks, i - 1);
        assert(follows_at(blocks, i));
    }
}

/// An untouched chain is valid.
pub proof fn law_untouched_is_valid(blocks: Seq<BlockView>)
    requires
        untouched(blocks),
    ensures
        valid(blocks),
{
    assert forall|i: int|
        #![trigger intact_at(blocks, i)]
        #![trigger linked_at(blocks, i)]
        1 <= i < blocks.len() implies intact_at(blocks, i) && linked_at(blocks, i) by {
        assert(intact_at(blocks, i));
        assert(follows_at(blocks, i));
    }
}

/// Appending adds one block at the end and leaves the blocks before it as
/// they were. The new block is sealed, takes the index after that of the
/// block before it and names that block's hash. So appending keeps a
/// well-formed chain well-formed, an untouched chain untouched and a
/// valid chain valid.
pub proof fn law_append_keeps_shape(blocks: Seq<BlockView>, data: Seq<char>, timestamp: nat)
    requires
        blocks.len() > 0,
    ensures
        ({
            let longer = appended(blocks, data, timestamp);
            &&& longer.len() == blocks.len() + 1
            &&& longer.drop_last() == blocks
            &&& longer.last().data == data
            &&& longer.last().timestamp == timestamp
            &&& longer.last().index == blocks.last().index + 1
            &&& intact_at(longer, longer.len() - 1)
            &&& linked_at(longer, longer.len() - 1)
            &&& well_formed(blocks) ==> well_formed(longer)
            &&& untouched(blocks) ==> untouched(longer)
            &&& valid(blocks) ==> valid(longer)
        }),
{
    let longer = appended(blocks, data, timestamp);
    let end = longer.len() - 1;
    assert(longer.drop_last() =~= blocks);
    assert(intact_at(longer, end));
    assert(linked_at(longer, end));
    if well_formed(blocks) {
        assert forall|i: int| 1 <= i < longer.len() implies #[trigger] follows_at(longer, i) by {
            if i < end {
                assert(follows_at(blocks, i));
            }
        }
    }
    if untouched(blocks) {
        assert forall|i: int| 0 <= i < longer.len() implies intact_at(longer, i) by {
            if i < end {
                assert(intact_at(blocks, i));
            }
        }
    }
    if valid(blocks) {
        assert forall|i: int|
            #![trigger intact_at(longer, i)]
            #![trigger linked_at(longer, i)]
            1 <= i < longer.len() implies intact_at(longer, i) && linked_at(longer, i) by {
            if i < end {
                assert(intact_at(blocks, i));
                assert(linked_at(blocks, i));
            }
        }
    }
}

/// A chain grown from an untouched chain is untouched, and longer by the
/// number of entries appended.
pub proof fn law_growth_keeps_shape(blocks: Seq<BlockView>, entries: Seq<Entry>)
    requires
        untouched(blocks),
    ensures
        untouched(grown(blocks, entries)),
        grown(blocks, entries).len() == blocks.len() + entries.len(),
    decreases entries.len(),
{
    if entries.len() > 0 {
        let before = grown(blocks, entries.drop_last());
        law_growth_keeps_shape(blocks, entries.drop_last());
        law_append_keeps_shape(before, entries.last().data, entries.last().timestamp);
    }
}

/// After any number of appends to a fresh chain, the chain holds one block
/// more than was appended, and the block at each place has that place as
/// its index.
pub proof fn law_appends_count_and_number(genesis_time: nat, entries: Seq<Entry>)
    ensures
        ({
            let blocks = grown(seq![genesis_block(genesis_time)], entries);
            &&& blocks.len() == 1 + entries.len()
            &&& forall|i: int| 0 <= i <= entries.len() ==> (#[trigger] blocks[i]).index == i
        }),
{
    let blocks = grown(seq![genesis_block(genesis_time)], entries);
    law_genesis(genesis_time);
    law_growth_keeps_shape(seq![genesis_block(genesis_time)], entries);
    assert forall|i: int| 0 <= i <= entries.len() implies (#[trigger] blocks[i]).index == i by {
        law_index_is_place(blocks, i);
    }
}

/// After any number of appends to a fresh chain, every block after the
/// first names the hash of the block before it, every block is intact,
/// and so the chain is valid.
pub proof fn law_appends_keep_links(genesis_time: nat, entries: Seq<Entry>)
    ensures
        ({
            let blocks = grown(seq![genesis_block(genesis_time)], entries);
            &&& forall|i: int|
                1 <= i < blocks.len() ==> (#[trigger] blocks[i]).previous_hash == blocks[i
                    - 1].hash
            &&& forall|i: int| 0 <= i < blocks.len() ==> (#[trigger] blocks[i]).sealed()
            &&& valid(blocks)
        }),
{
    let blocks = grown(seq![genesis_block(genesis_time)], entries);
    law_genesis(genesis_time);
    law_growth_keeps_shape(seq![genesis_block(genesis_time)], entries);
    law_untouched_is_valid(blocks);
    assert forall|i: int| 1 <= i < blocks.len() implies (#[trigger] blocks[i]).previous_hash
        == blocks[i - 1].hash by {
        assert(follows_at(blocks, i));
    }
    assert forall|i: int| 0 <= i < blocks.len() implies (#[trigger] blocks[i]).sealed() by {
        assert(intact_at(blocks, i));
    }
}

/// Two sealed blocks with the same index, timestamp, data and previous
/// hash have the same hash.
pub proof fn law_digest_is_deterministic(first: BlockView, second: BlockView)
    requires
        first.sealed(),
        second.sealed(),
        first.index == second.index,
        first.timestamp == second.timestamp,
        first.data == second.data,
        first.previous_hash == second.previous_hash,
    ensures
        first.hash == second.hash,
        first == second,
{
}

/// Two sealed blocks that differ in exactly one of index, timestamp, data
/// and previous hash have different hashes, unless SHA-256 gives the same
/// output for the two different byte strings that are hashed for them.
pub proof fn law_one_changed_field_changes_digest(first: BlockView, second: BlockView)
    requires
        first.sealed(),
        second.sealed(),
        differ_in_one_field_at_most(
            first.index,
            first.timestamp,
            first.data,
            first.previous_hash,
            second.index,
            second.timestamp,
            second.data,
            second.previous_hash,
        ),
        first.index != second.index || first.timestamp != second.timestamp || first.data
            != second.data || first.previous_hash != second.previous_hash,
        !collide(first.hashed_bytes(), second.hashed_bytes()),
    ensures
        first.hash != second.hash,
{
    if first.hash == second.hash {
        lemma_hex_lower_injective(
            crate::hashing::sha256(first.hashed_bytes()),
            crate::hashing::sha256(second.hashed_bytes()),
        );
        lemma_preimage_tells_one_field(
            first.index,
            first.timestamp,
            first.data,
            first.previous_hash,
            second.index,
            second.timestamp,
            second.data,
            second.previous_hash,
        );
    }
}

/// Writing other data into any block after the first, with its stored
/// hash left as it is, makes a valid chain invalid, unless SHA-256 gives
/// the same output for the bytes hashed before and after the change.
///
/// The first block is left out: nothing examines its data.
pub proof fn law_changed_data_is_found(blocks: Seq<BlockView>, i: int, data: Seq<char>)
    requires
        valid(blocks),
        1 <= i < blocks.len(),
        data != blocks[i].data,
        !collide(blocks[i].hashed_bytes(), blocks[i].with_data(data).hashed_bytes()),
    ensures
        !valid(blocks.update(i, blocks[i].with_data(data))),
{
    let changed = blocks[i].with_data(data);
    let after = blocks.update(i, changed);
    assert(intact_at(blocks, i));
    if intact_at(after, i) {
        lemma_hex_lower_injective(
            crate::hashing::sha256(blocks[i].hashed_bytes()),
            crate::hashing::sha256(changed.hashed_bytes()),
        );
        lemma_preimage_tells_one_field(
            blocks[i].index,
            blocks[i].timestamp,
            blocks[i].data,
            blocks[i].previous_hash,
            changed.index,
            changed.timestamp,
            changed.data,
            changed.previous_hash,
        );
    }
    assert(!intact_at(after, i));
}

/// Writing another hash into any block of a valid chain of two or more
/// blocks makes the chain invalid: a later block no longer carries its
/// own digest, and the first block is no longer what the second names.
pub proof fn law_changed_hash_is_found(blocks: Seq<BlockView>, i: int, hash: Seq<char>)
    requires
        valid(blocks),
        blocks.len() >= 2,
        0 <= i < blocks.len(),
        hash != blocks[i].hash,
    ensures
        !valid(blocks.update(i, blocks[i].with_hash(hash))),
{
    let after = blocks.update(i, blocks[i].with_hash(hash));
    if i >= 1 {
        assert(intact_at(blocks, i));
        assert(!intact_at(after, i));
    } else {
        assert(linked_at(blocks, 1));
        assert(!linked_at(after, 1));
    }
}

/// Writing another previous hash into any block after the first makes a
/// valid chain invalid.
pub proof fn law_changed_link_is_found(blocks: Seq<BlockView>, i: int, previous_hash: Seq<char>)
    requires
        valid(blocks),
        1 <= i < blocks.len(),
        previous_hash != blocks[i].previous_hash,
    ensures
        !valid(blocks.update(i, blocks[i].with_previous_hash(previous_hash))),
{
    let after = blocks.update(i, blocks[i].with_previous_hash(previous_hash));
    assert(linked_at(blocks, i));
    assert(!linked_at(after, i));
}

} // verus!
