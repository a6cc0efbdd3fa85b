//! Replies, as the bytes that the kernel gets.
use crate::wire::{self, ByteOrder};
use vstd::prelude::*;

verus! {

/// Size of the header that every reply starts with.
pub const OUT_HEADER_SIZE: usize = 16;

/// The header of a reply: its whole length, an error or zero, and the identifier of the
/// request that it answers.
pub open spec fn out_header(o: ByteOrder, len: nat, error: int, unique: u64) -> Seq<u8> {
    wire::uint_bytes(o, len, 4) + wire::uint_bytes(o, wire::pattern32(error), 4)
        + wire::uint_bytes(o, unique as nat, 8)
}

/// A reply: a header, then `payload`.
pub open spec fn reply_bytes(o: ByteOrder, unique: u64, error: int, payload: Seq<u8>) -> Seq<u8> {
    out_header(o, OUT_HEADER_SIZE as nat + payload.len(), error, unique) + payload
}

/// The reply that refuses a request with the error `errno`.
pub open spec fn error_bytes(o: ByteOrder, unique: u64, errno: int) -> Seq<u8> {
    reply_bytes(o, unique, -errno, seq![])
}

/// Makes a reply to the request `unique`.
pub fn frame_reply(o: ByteOrder, unique: u64, error: i32, payload: &[u8]) -> (r: Vec<u8>)
    requires
        OUT_HEADER_SIZE + payload@.len() <= u32::MAX,
    ensures
        r@ == reply_bytes(o, unique, error as int, payload@),
{
    let mut out: Vec<u8> = Vec::new();
    wire::push_uint(o, &mut out, (OUT_HEADER_SIZE + payload.len()) as u64, 4);
    wire::push_i32(o, &mut out, error);
    wire::push_uint(o, &mut out, unique, 8);
    out.extend_from_slice(payload);
    assert(out@ =~= reply_bytes(o, unique, error as int, payload@));
    out
}

/// Makes the reply that refuses the request `unique` with `errno`.
pub fn error_reply(o: ByteOrder, unique: u64, errno: i32) -> (r: Vec<u8>)
    requires
        errno != i32::MIN,
    ensures
        r@ == error_bytes(o, unique, errno as int),
{
    frame_reply(o, unique, -errno, &[])
}

/// A header has sixteen bytes, whatever it carries.
pub proof fn lemma_out_header_len(o: ByteOrder, len: nat, error: int, unique: u64)
    ensures
        out_header(o, len, error, unique).len() == 16,
{
    wire::lemma_uint_bytes_len(o, len, 4);
    wire::lemma_uint_bytes_len(o, wire::pattern32(error), 4);
    wire::lemma_uint_bytes_len(o, unique as nat, 8);
}

/// The kernel reads back from a reply its length, its error and the request it answers, and
/// finds the payload behind the header.
pub proof fn law_reply_reads_back(o: ByteOrder, unique: u64, error: i32, payload: Seq<u8>)
    requires
        16 + payload.len() <= u32::MAX,
    ensures
        ({
            let reply = reply_bytes(o, unique, error as int, payload);
            &&& reply.len() == 16 + payload.len()
            &&& wire::u32_at(o, reply, 0) == 16 + payload.len()
            &&& wire::i32_at(o, reply, 4) == error
            &&& wire::u64_at(o, reply, 8) == unique
            &&& reply.skip(16) == payload
        }),
{
    let reply = reply_bytes(o, unique, error as int, payload);
    let len = OUT_HEADER_SIZE as nat + payload.len();
    wire::lemma_pow256_values();
    wire::lemma_uint_round_trip(o, len, 4);
    wire::lemma_uint_round_trip(o, wire::pattern32(error as int), 4);
    wire::lemma_uint_round_trip(o, unique as nat, 8);
    reveal(wire::u32_at);
    reveal(wire::i32_at);
    reveal(wire::u64_at);
    assert(reply.subrange(0, 4) =~= wire::uint_bytes(o, len, 4));
    assert(reply.subrange(4, 8) =~= wire::uint_bytes(o, wire::pattern32(error as int), 4));
    assert(reply.subrange(8, 16) =~= wire::uint_bytes(o, unique as nat, 8));
    assert(reply.skip(OUT_HEADER_SIZE as int) =~= payload);
}

/// A refused request is answered with a bare header that carries its own identifier and the
/// negated error number.
pub proof fn law_error_reply_reads_back(o: ByteOrder, unique: u64, errno: i32)
    requires
        errno != i32::MIN,
    ensures
        ({
            let reply = error_bytes(o, unique, errno as int);
            &&& reply.len() == 16
            &&& wire::u32_at(o, reply, 0) == 16
            &&& wire::i32_at(o, reply, 4) == -errno
            &&& wire::u64_at(o, reply, 8) == unique
        }),
{
    law_reply_reads_back(o, unique, (-errno) as i32, seq![]);
}

} // verus!
