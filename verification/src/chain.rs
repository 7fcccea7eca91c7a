//! The chain: blocks in the order in which they were appended.

use vstd::prelude::*;
use vstd::string::StringExecFns;

use crate::block::{Block, BlockView};
use crate::clock::{unix_seconds, ClockError};

verus! {

/// The genesis block created at the moment `timestamp`: index zero, the
/// fixed label as its payload, and `"0"` where later blocks hold the hash
/// of their predecessor.
pub open spec fn genesis_block(timestamp: nat) -> BlockView {
    BlockView::seal(0, timestamp, "Genesis Block"@, "0"@)
}

/// The block that follows `last` with the payload `data`, created at the
/// moment `timestamp`.
pub open spec fn next_block(last: BlockView, data: Seq<char>, timestamp: nat) -> BlockView {
    BlockView::seal(last.index + 1, timestamp, data, last.hash)
}

/// The chain `blocks` after one more block with the payload `data` has
/// been appended at the moment `timestamp`.
pub open spec fn appended(
    blocks: Seq<BlockView>,
    data: Seq<char>,
    timestamp: nat,
) -> Seq<BlockView>
    recommends
        blocks.len() > 0,
{
    blocks.push(next_block(blocks.last(), data, timestamp))
}

/// The block at `i` still carries the digest of its own fields.
pub open spec fn intact_at(blocks: Seq<BlockView>, i: int) -> bool
    recommends
        0 <= i < blocks.len(),
{
    blocks[i].sealed()
}

/// The block at `i` names the hash of the block before it.
pub open spec fn linked_at(blocks: Seq<BlockView>, i: int) -> bool
    recommends
        1 <= i < blocks.len(),
{
    blocks[i].previous_hash == blocks[i - 1].hash
}

/// The block at `i` continues the chain: it has the index after that of
/// the block before it and names that block's hash.
pub open spec fn follows_at(blocks: Seq<BlockView>, i: int) -> bool
    recommends
        1 <= i < blocks.len(),
{
    blocks[i].index == blocks[i - 1].index + 1 && linked_at(blocks, i)
}

/// Every block after the first is intact and linked to the block before
/// it. The first block is the anchor and is not examined by itself.
pub open spec fn valid(blocks: Seq<BlockView>) -> bool {
    forall|i: int|
        #![trigger intact_at(blocks, i)]
        #![trigger linked_at(blocks, i)]
        1 <= i < blocks.len() ==> intact_at(blocks, i) && linked_at(blocks, i)
}

/// The shape that every chain has which was made by [`Blockchain::new`]
/// and grown by [`Blockchain::add_block`]: it is not empty, it starts at
/// index zero behind the link `"0"`, and each later block continues it.
pub open spec fn well_formed(blocks: Seq<BlockView>) -> bool {
    &&& blocks.len() > 0
    &&& blocks[0].index == 0
    &&& blocks[0].previous_hash == "0"@
    &&& forall|i: int| 1 <= i < blocks.len() ==> #[trigger] follows_at(blocks, i)
}

/// A well-formed chain in which every block, the first included, still
/// carries the digest of its own fields: what construction and appending
/// give while nobody writes to a block.
pub open spec fn untouched(blocks: Seq<BlockView>) -> bool {
    &&& well_formed(blocks)
    &&& forall|i: int| 0 <= i < blocks.len() ==> #[trigger] intact_at(blocks, i)
}

/// A payload together with the moment at which it is appended.
pub struct Entry {
    pub data: Seq<char>,
    pub timestamp: nat,
}

/// The chain `blocks` after the entries were appended to it one by one,
/// the first entry first.
pub open spec fn grown(blocks: Seq<BlockView>, entries: Seq<Entry>) -> Seq<BlockView>
    decreases entries.len(),
{
    if entries.len() == 0 {
        blocks
    } else {
        appended(grown(blocks, entries.drop_last()), entries.last().data, entries.last().timestamp)
    }
}

/// An append-only sequence of blocks, each linked to the one before it by
/// that block's hash.
#[derive(Debug)]
pub struct Blockchain {
    /// The blocks, oldest first.
    pub chain: Vec<Block>,
}

impl View for Blockchain {
    type V = Seq<BlockView>;

    open spec fn view(&self) -> Seq<BlockView> {
        Seq::new(self.chain@.len(), |i: int| self.chain@[i]@)
    }
}

impl Blockchain {
    /// Makes the chain that holds the genesis block created at the moment
    /// `timestamp`, and nothing else.
    pub fn new_at(timestamp: u64) -> (made: Blockchain)
        ensures
            made@ == seq![genesis_block(timestamp as nat)],
            made@.len() == 1,
            made@[0].index == 0,
            made@[0].previous_hash == "0"@,
            made@[0].hash.len() == 64,
            untouched(made@),
            valid(made@),
    {
        let mut made = Blockchain { chain: Vec::new() };
        made.create_genesis_block_at(timestamp);
        assert(made@ =~= seq![genesis_block(timestamp as nat)]);
        made
    }

    /// Makes the chain that holds the genesis block from a reading of the
    /// clock, and nothing else: created at the moment read, or no chain
    /// and the reading's error where the clock could not be read.
    pub fn new_stamped(reading: Result<u64, ClockError>) -> (made: Result<Blockchain, ClockError>)
        ensures
            reading matches Ok(timestamp) ==> made matches Ok(fresh) && {
                &&& fresh@ == seq![genesis_block(timestamp as nat)]
                &&& fresh@[0].hash.len() == 64
                &&& untouched(fresh@)
                &&& valid(fresh@)
            },
            reading matches Err(error) ==> made matches Err(same) && same == error,
    {
        let mut made = Blockchain { chain: Vec::new() };
        match made.create_genesis_block_stamped(reading) {
            Ok(()) => {
                assert(made@ =~= seq![genesis_block(made@[0].timestamp)]);
                Ok(made)
            },
            Err(error) => Err(error),
        }
    }

    /// Makes the chain that holds a genesis block created now, and nothing
    /// else. Fails only when the clock cannot be read.
    pub fn new() -> (made: Result<Blockchain, ClockError>)
        ensures
            made matches Ok(fresh) ==> {
                &&& fresh@ == seq![genesis_block(fresh@[0].timestamp)]
                &&& fresh@.len() == 1
                &&& fresh@[0].index == 0
                &&& fresh@[0].previous_hash == "0"@
                &&& fresh@[0].hash.len() == 64
                &&& untouched(fresh@)
                &&& valid(fresh@)
            },
    {
        Blockchain::new_stamped(unix_seconds())
    }

    /// Puts a genesis block created at the moment `timestamp` at the end
    /// of the chain.
    pub fn create_genesis_block_at(&mut self, timestamp: u64)
        ensures
            final(self)@ == old(self)@.push(genesis_block(timestamp as nat)),
            final(self)@.last().hash.len() == 64,
    {
        let label = String::from_str("Genesis Block");
        let anchor = String::from_str("0");
        let genesis = Block::with_timestamp(0, timestamp, label, anchor);
        self.chain.push(genesis);
        assert(self@ =~= old(self)@.push(genesis_block(timestamp as nat)));
    }

    /// Puts the genesis block from a reading of the clock at the end of
    /// the chain. Where the clock could not be read, the chain stays as it
    /// is and the reading's error is handed on.
    pub fn create_genesis_block_stamped(&mut self, reading: Result<u64, ClockError>) -> (done:
        Result<(), ClockError>)
        ensures
            reading matches Ok(timestamp) ==> done is Ok && final(self)@ == old(self)@.push(
                genesis_block(timestamp as nat),
            ) && final(self)@.last().hash.len() == 64,
            reading matches Err(error) ==> done matches Err(same) && same == error && final(self)@
                == old(self)@,
    {
        match reading {
            Ok(timestamp) => {
                self.create_genesis_block_at(timestamp);
                Ok(())
            },
            Err(error) => Err(error),
        }
    }

    /// Puts a genesis block created now at the end of the chain. When the
    /// clock cannot be read, the chain stays as it is.
    pub fn create_genesis_block(&mut self) -> (done: Result<(), ClockError>)
        ensures
            done is Ok ==> final(self)@ == old(self)@.push(
                genesis_block(final(self)@.last().timestamp),
            ) && final(self)@.last().hash.len() == 64,
            done is Err ==> final(self)@ == old(self)@,
    {
        self.create_genesis_block_stamped(unix_seconds())
    }

    /// Appends a block with the payload `data`, created at the moment
    /// `timestamp`: it takes the index after that of the last block and
    /// names the last block's hash.
    pub fn add_block_at(&mut self, data: String, timestamp: u64)
        requires
            old(self)@.len() > 0,
            old(self)@.last().index < u64::MAX,
        ensures
            final(self)@ == appended(old(self)@, data@, timestamp as nat),
            final(self)@.last().hash.len() == 64,
    {
        let last = &self.chain[self.chain.len() - 1];
        let block = Block::with_timestamp(last.index + 1, timestamp, data, last.hash.clone());
        self.chain.push(block);
        assert(self@ =~= appended(old(self)@, data@, timestamp as nat));
    }

    /// Appends a block with the payload `data` from a reading of the
    /// clock. Where the clock could not be read, the chain stays as it is
    /// and the reading's error is handed on.
    pub fn add_block_stamped(&mut self, data: String, reading: Result<u64, ClockError>) -> (done:
        Result<(), ClockError>)
        requires
            old(self)@.len() > 0,
            old(self)@.last().index < u64::MAX,
        ensures
            reading matches Ok(timestamp) ==> done is Ok && final(self)@ == appended(
                old(self)@,
                data@,
                timestamp as nat,
            ) && final(self)@.last().hash.len() == 64,
            reading matches Err(error) ==> done matches Err(same) && same == error && final(self)@
                == old(self)@,
    {
        match reading {
            Ok(timestamp) => {
                self.add_block_at(data, timestamp);
                Ok(())
            },
            Err(error) => Err(error),
        }
    }

    /// Appends a block with the payload `data`, created now. When the
    /// clock cannot be read, the chain stays as it is.
    pub fn add_block(&mut self, data: String) -> (done: Result<(), ClockError>)
        requires
            old(self)@.len() > 0,
            old(self)@.last().index < u64::MAX,
        ensures
            done is Ok ==> final(self)@ == appended(
                old(self)@,
                data@,
                final(self)@.last().timestamp,
            ) && final(self)@.last().hash.len() == 64,
            done is Err ==> final(self)@ == old(self)@,
    {
        self.add_block_stamped(data, unix_seconds())
    }

    /// Tells whether every block after the first still carries the digest
    /// of its own fields and names the hash of the block before it. The
    /// blocks are examined from the second onwards, and for each the
    /// digest is compared before the link. The chain is only read: the
    /// answer depends on nothing but the blocks, so asking again gives the
    /// same answer.
    pub fn is_chain_valid(&self) -> (answer: bool)
        ensures
            answer == valid(self@),
    {
        let mut i: usize = 1;
        while i < self.chain.len()
            invariant
                1 <= i,
                forall|k: int|
                    #![trigger intact_at(self@, k)]
                    #![trigger linked_at(self@, k)]
                    1 <= k < i && k < self@.len() ==> intact_at(self@, k) && linked_at(self@, k),
            decreases self.chain.len() - i,
        {
            let current = &self.chain[i];
            let previous = &self.chain[i - 1];
            if current.hash != current.calculate_hash() {
                assert(!intact_at(self@, i as int));
                return false;
            }
            if current.previous_hash != previous.hash {
                assert(!linked_at(self@, i as int));
                return false;
            }
            i = i + 1;
        }
        true
    }
}

} // verus!
