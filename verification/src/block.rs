//! One entry of the chain.

use vstd::prelude::*;

use crate::clock::{unix_seconds, ClockError};
use crate::hashing::{block_digest, digest_hex, preimage};

verus! {

/// One entry of the chain: a payload with its place, its time of creation,
/// the digest of the entry before it, and its own digest.
///
/// The fields are open to reading and writing. A block made by
/// [`Block::new`] or [`Block::with_timestamp`] is sealed: its `hash` is the
/// digest of its other four fields. Writing to a field afterwards breaks
/// the seal unless the hash is computed again.
#[derive(Clone, Debug)]
pub struct Block {
    /// Place in the chain, counted from zero.
    pub index: u64,
    /// Time of creation, in seconds since the Unix epoch.
    pub timestamp: u64,
    /// The payload.
    pub data: String,
    /// The `hash` of the block before this one.
    pub previous_hash: String,
    /// The digest of the four fields above, as of construction.
    pub hash: String,
}

/// What a block holds, as mathematical values.
pub struct BlockView {
    pub index: nat,
    pub timestamp: nat,
    pub data: Seq<char>,
    pub previous_hash: Seq<char>,
    pub hash: Seq<char>,
}

impl BlockView {
    /// The bytes that are hashed for this block.
    pub open spec fn hashed_bytes(self) -> Seq<u8> {
        preimage(self.index, self.timestamp, self.data, self.previous_hash)
    }

    /// This block with other data, all else as it is.
    pub open spec fn with_data(self, data: Seq<char>) -> BlockView {
        BlockView { data, ..self }
    }

    /// This block with another previous hash, all else as it is.
    pub open spec fn with_previous_hash(self, previous_hash: Seq<char>) -> BlockView {
        BlockView { previous_hash, ..self }
    }

    /// This block with another stored hash, all else as it is.
    pub open spec fn with_hash(self, hash: Seq<char>) -> BlockView {
        BlockView { hash, ..self }
    }

    /// The digest of the four fields other than `hash`.
    pub open spec fn digest(self) -> Seq<char> {
        block_digest(self.index, self.timestamp, self.data, self.previous_hash)
    }

    /// The stored hash is the digest of the other fields.
    pub open spec fn sealed(self) -> bool {
        self.hash == self.digest()
    }

    /// The sealed block with the given four fields.
    pub open spec fn seal(
        index: nat,
        timestamp: nat,
        data: Seq<char>,
        previous_hash: Seq<char>,
    ) -> BlockView {
        BlockView {
            index,
            timestamp,
            data,
            previous_hash,
            hash: block_digest(index, timestamp, data, previous_hash),
        }
    }
}

impl View for Block {
    type V = BlockView;

    open spec fn view(&self) -> BlockView {
        BlockView {
            index: self.index as nat,
            timestamp: self.timestamp as nat,
            data: self.data@,
            previous_hash: self.previous_hash@,
            hash: self.hash@,
        }
    }
}

impl Block {
    /// Makes the sealed block with the given fields, created at the
    /// moment `timestamp`.
    pub fn with_timestamp(index: u64, timestamp: u64, data: String, previous_hash: String) -> (block:
        Block)
        ensures
            block@ == BlockView::seal(index as nat, timestamp as nat, data@, previous_hash@),
            block@.hash.len() == 64,
    {
        let hash = digest_hex(index, timestamp, data.as_str(), previous_hash.as_str());
        Block { index, timestamp, data, previous_hash, hash }
    }

    /// Makes the sealed block with the given fields from a reading of the
    /// clock: created at the moment read, or no block and the reading's
    /// error where the clock could not be read.
    pub fn stamped(
        index: u64,
        reading: Result<u64, ClockError>,
        data: String,
        previous_hash: String,
    ) -> (made: Result<Block, ClockError>)
        ensures
            reading matches Ok(timestamp) ==> made matches Ok(block) && block@ == BlockView::seal(
                index as nat,
                timestamp as nat,
                data@,
                previous_hash@,
            ) && block@.hash.len() == 64,
            reading matches Err(error) ==> made matches Err(same) && same == error,
    {
        match reading {
            Ok(timestamp) => Ok(Block::with_timestamp(index, timestamp, data, previous_hash)),
            Err(error) => Err(error),
        }
    }

    /// Makes a sealed block with the given fields, created now. Fails only
    /// when the clock cannot be read; which moment the block carries is up
    /// to the clock.
    pub fn new(index: u64, data: String, previous_hash: String) -> (made: Result<Block, ClockError>)
        ensures
            made matches Ok(block) ==> {
                &&& block@ == BlockView::seal(
                    index as nat,
                    block@.timestamp,
                    data@,
                    previous_hash@,
                )
                &&& block@.hash.len() == 64
            },
    {
        Block::stamped(index, unix_seconds(), data, previous_hash)
    }

    /// Computes the digest of the block's fields as they are now. The
    /// block is left as it is, its stored hash included.
    pub fn calculate_hash(&self) -> (digest: String)
        ensures
            digest@ == self@.digest(),
            digest@.len() == 64,
    {
        digest_hex(self.index, self.timestamp, self.data.as_str(), self.previous_hash.as_str())
    }
}

} // verus!
