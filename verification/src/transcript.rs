//! The Fiat-Shamir transcript: the byte string that binds the session
//! identifier, the participant identifier and an ordered list of group
//! elements, and the challenge value derived from its SHA-256 digest.
use crate::group::point_ser;
use crate::math::{be_int, group_order};
use sha2::Digest;
use vstd::prelude::*;
use vstd::utf8::encode_utf8;

verus! {

/// The 32-byte SHA-256 digest of a byte string: a function of the bytes
/// alone, named rather than spelled out.
pub uninterp spec fn sha256_of(data: Seq<u8>) -> Seq<u8>;

/// Relies on sha2's `Sha256` through the `Digest` trait's one-shot
/// `digest`: the SHA-256 digest, 32 bytes, a function of the input alone.
#[verifier::external_body]
pub(crate) fn sha256(data: &[u8]) -> (r: Vec<u8>)
    ensures
        r@ == sha256_of(data@),
        r@.len() == 32,
{
    sha2::Sha256::digest(data).to_vec()
}

/// The two's-complement value of a 32-bit signed integer: what its
/// fixed-width big-endian encoding spells.
pub open spec fn pid_unsigned(participant_id: i32) -> nat {
    if participant_id >= 0 {
        participant_id as nat
    } else {
        (participant_id + 0x1_0000_0000) as nat
    }
}

/// The four bytes of a 32-bit value, most significant first.
pub open spec fn be32_bytes(u: nat) -> Seq<u8> {
    seq![
        (u / 0x1000000 % 0x100) as u8,
        (u / 0x10000 % 0x100) as u8,
        (u / 0x100 % 0x100) as u8,
        (u % 0x100) as u8,
    ]
}

/// The fixed-width big-endian encoding of the participant identifier.
pub open spec fn participant_bytes(participant_id: i32) -> Seq<u8> {
    be32_bytes(pid_unsigned(participant_id))
}

/// The uncompressed serializations of group elements with the given model
/// values, concatenated in order.
pub open spec fn points_bytes(vals: Seq<nat>) -> Seq<u8>
    decreases vals.len(),
{
    if vals.len() == 0 {
        Seq::empty()
    } else {
        points_bytes(vals.drop_last()) + point_ser(vals.last())
    }
}

/// The transcript: the UTF-8 bytes of the session identifier, then the
/// fixed-width big-endian participant identifier, then each group element's
/// uncompressed serialization, in the given order.
pub open spec fn transcript_bytes(sid: Seq<char>, participant_id: i32, vals: Seq<nat>) -> Seq<u8> {
    encode_utf8(sid) + participant_bytes(participant_id) + points_bytes(vals)
}

/// The challenge: the SHA-256 digest of the transcript, read as a
/// big-endian unsigned integer and reduced modulo the group order.
pub open spec fn challenge_value(sid: Seq<char>, participant_id: i32, vals: Seq<nat>) -> nat {
    be_int(sha256_of(transcript_bytes(sid, participant_id, vals))) % group_order()
}

/// Appends the fixed-width big-endian encoding of the participant
/// identifier to the transcript being built.
pub(crate) fn push_participant_bytes(transcript: &mut Vec<u8>, participant_id: i32)
    ensures
        final(transcript)@ == old(transcript)@ + participant_bytes(participant_id),
{
    let u: u32 = if participant_id >= 0 {
        participant_id as u32
    } else {
        ((participant_id as i64) + 0x1_0000_0000i64) as u32
    };
    proof {
        assert(u == pid_unsigned(participant_id));
    }
    transcript.push((u / 0x1000000 % 0x100) as u8);
    transcript.push((u / 0x10000 % 0x100) as u8);
    transcript.push((u / 0x100 % 0x100) as u8);
    transcript.push((u % 0x100) as u8);
    proof {
        assert(transcript@ =~= old(transcript)@ + participant_bytes(participant_id));
    }
}

} // verus!
