//! The digest of a block: SHA-256 over the rendered fields, shown in
//! lower-case hexadecimal.

use sha2::{Digest, Sha256};
use vstd::prelude::*;
use vstd::string::StrSliceExecFns;
use vstd::utf8::{encode_utf8, encode_utf8_decode_utf8};

use crate::encoding::{decimal, hex_encode, hex_lower, lemma_decimal_injective, push_decimal};

verus! {

/// The SHA-256 digest of `message`. The function itself is not defined in
/// this crate: it stands for what the `sha2` crate computes.
pub uninterp spec fn sha256(message: Seq<u8>) -> Seq<u8>;

/// Calls `sha2::Sha256::digest` on `message` and copies the output array
/// into a vector.
///
/// Taken on trust: the bytes returned are the SHA-256 digest of `message`,
/// a function of the message alone, and there are 32 of them (the output
/// array of `Sha256` has the fixed size `U32`).
#[verifier::external_body]
fn sha256_bytes(message: &[u8]) -> (out: Vec<u8>)
    ensures
        out@ == sha256(message@),
        out@.len() == 32,
{
    Sha256::digest(message).to_vec()
}

/// The bytes that are hashed for a block: the decimal renderings of its
/// index and its timestamp, then the UTF-8 bytes of its data and of the
/// previous hash, in that order and with nothing in between.
pub open spec fn preimage(
    index: nat,
    timestamp: nat,
    data: Seq<char>,
    previous_hash: Seq<char>,
) -> Seq<u8> {
    decimal(index) + decimal(timestamp) + encode_utf8(data) + encode_utf8(previous_hash)
}

/// The digest of a block with the given fields, as hexadecimal text.
pub open spec fn block_digest(
    index: nat,
    timestamp: nat,
    data: Seq<char>,
    previous_hash: Seq<char>,
) -> Seq<char> {
    hex_lower(sha256(preimage(index, timestamp, data, previous_hash)))
}

/// SHA-256 gives the same output for two different messages.
pub open spec fn collide(first: Seq<u8>, second: Seq<u8>) -> bool {
    first != second && sha256(first) == sha256(second)
}

/// Assembles the bytes that are hashed for a block.
pub fn preimage_bytes(index: u64, timestamp: u64, data: &str, previous_hash: &str) -> (bytes:
    Vec<u8>)
    ensures
        bytes@ == preimage(index as nat, timestamp as nat, data@, previous_hash@),
{
    let mut bytes: Vec<u8> = Vec::new();
    push_decimal(&mut bytes, index);
    push_decimal(&mut bytes, timestamp);
    let mut data_bytes = data.as_bytes_vec();
    bytes.append(&mut data_bytes);
    let mut link_bytes = previous_hash.as_bytes_vec();
    bytes.append(&mut link_bytes);
    assert(bytes@ =~= preimage(index as nat, timestamp as nat, data@, previous_hash@));
    bytes
}

/// Computes the digest of a block with the given fields: 64 hexadecimal
/// digits.
pub fn digest_hex(index: u64, timestamp: u64, data: &str, previous_hash: &str) -> (digest: String)
    ensures
        digest@ == block_digest(index as nat, timestamp as nat, data@, previous_hash@),
        digest@.len() == 64,
{
    let bytes = preimage_bytes(index, timestamp, data, previous_hash);
    let raw = sha256_bytes(bytes.as_slice());
    hex_encode(raw.as_slice())
}

/// Byte strings that are equal after the same tail was put behind each
/// are equal.
proof fn lemma_cancel_tail(a: Seq<u8>, b: Seq<u8>, tail: Seq<u8>)
    requires
        a + tail == b + tail,
    ensures
        a == b,
{
    assert((a + tail).len() == a.len() + tail.len());
    assert((b + tail).len() == b.len() + tail.len());
    assert forall|k: int| 0 <= k < a.len() implies a[k] == b[k] by {
        assert((a + tail)[k] == a[k]);
        assert((b + tail)[k] == b[k]);
    }
    assert(a =~= b);
}

/// Byte strings that are equal after the same head was put before each
/// are equal.
proof fn lemma_cancel_head(head: Seq<u8>, a: Seq<u8>, b: Seq<u8>)
    requires
        head + a == head + b,
    ensures
        a == b,
{
    assert((head + a).len() == head.len() + a.len());
    assert((head + b).len() == head.len() + b.len());
    assert forall|k: int| 0 <= k < a.len() implies a[k] == b[k] by {
        assert((head + a)[head.len() + k] == a[k]);
        assert((head + b)[head.len() + k] == b[k]);
    }
    assert(a =~= b);
}

/// Texts with the same UTF-8 bytes are the same text.
proof fn lemma_utf8_injective(a: Seq<char>, b: Seq<char>)
    requires
        encode_utf8(a) == encode_utf8(b),
    ensures
        a == b,
{
    encode_utf8_decode_utf8(a);
    encode_utf8_decode_utf8(b);
}

/// The two groups of fields agree in at least three of the four places.
pub open spec fn differ_in_one_field_at_most(
    index: nat,
    timestamp: nat,
    data: Seq<char>,
    previous_hash: Seq<char>,
    other_index: nat,
    other_timestamp: nat,
    other_data: Seq<char>,
    other_previous_hash: Seq<char>,
) -> bool {
    ||| timestamp == other_timestamp && data == other_data && previous_hash == other_previous_hash
    ||| index == other_index && data == other_data && previous_hash == other_previous_hash
    ||| index == other_index && timestamp == other_timestamp && previous_hash
        == other_previous_hash
    ||| index == other_index && timestamp == other_timestamp && data == other_data
}

/// A change to one field alone changes the bytes that are hashed: two
/// groups of fields that agree in three places and give the same bytes
/// agree in the fourth place too.
///
/// This does not hold of changes to several fields at once, since the
/// renderings stand side by side with nothing in between: index 1 with
/// timestamp 23 gives the same bytes as index 12 with timestamp 3.
pub proof fn lemma_preimage_tells_one_field(
    index: nat,
    timestamp: nat,
    data: Seq<char>,
    previous_hash: Seq<char>,
    other_index: nat,
    other_timestamp: nat,
    other_data: Seq<char>,
    other_previous_hash: Seq<char>,
)
    requires
        differ_in_one_field_at_most(
            index,
            timestamp,
            data,
            previous_hash,
            other_index,
            other_timestamp,
            other_data,
            other_previous_hash,
        ),
        preimage(index, timestamp, data, previous_hash) == preimage(
            other_index,
            other_timestamp,
            other_data,
            other_previous_hash,
        ),
    ensures
        index == other_index,
        timestamp == other_timestamp,
        data == other_data,
        previous_hash == other_previous_hash,
{
    let i1 = decimal(index);
    let i2 = decimal(other_index);
    let t1 = decimal(timestamp);
    let t2 = decimal(other_timestamp);
    let d1 = encode_utf8(data);
    let d2 = encode_utf8(other_data);
    let p1 = encode_utf8(previous_hash);
    let p2 = encode_utf8(other_previous_hash);
    assert(i1 + t1 + d1 + p1 == i2 + t2 + d2 + p2);
    if previous_hash == other_previous_hash {
        lemma_cancel_tail(i1 + t1 + d1, i2 + t2 + d2, p1);
        if data == other_data {
            lemma_cancel_tail(i1 + t1, i2 + t2, d1);
            if timestamp == other_timestamp {
                lemma_cancel_tail(i1, i2, t1);
                lemma_decimal_injective(index, other_index);
            } else {
                lemma_cancel_head(i1, t1, t2);
                lemma_decimal_injective(timestamp, other_timestamp);
            }
        } else {
            lemma_cancel_head(i1 + t1, d1, d2);
            lemma_utf8_injective(data, other_data);
        }
    } else {
        lemma_cancel_head(i1 + t1 + d1, p1, p2);
        lemma_utf8_injective(previous_hash, other_previous_hash);
    }
}

} // verus!
