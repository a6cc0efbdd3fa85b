//! FUSE requests: a header, and the operation that it announces, read from raw bytes.
use crate::operation::{self, Op, OpView};
use crate::platform::Os;
use crate::wire::{self, ByteOrder};
use vstd::prelude::*;
use vstd::slice::slice_subrange;

verus! {

/// Size of the header that every request starts with.
pub const IN_HEADER_SIZE: usize = 40;

/// The header of a request.
#[derive(Debug, Clone, Copy, PartialEq, Eq, Structural)]
pub struct InHeader {
    /// Length of the whole request, header included.
    pub len: u32,
    /// Number of the requested operation.
    pub opcode: u32,
    /// Identifier that the reply has to carry.
    pub unique: u64,
    /// Inode that the operation is about.
    pub nodeid: u64,
    /// User that caused the request.
    pub uid: u32,
    /// Group of that user.
    pub gid: u32,
    /// Process that caused the request.
    pub pid: u32,
}

/// The header stored in the first bytes of `s`.
pub open spec fn in_header_of(o: ByteOrder, s: Seq<u8>) -> InHeader {
    InHeader {
        len: wire::u32_at(o, s, 0),
        opcode: wire::u32_at(o, s, 4),
        unique: wire::u64_at(o, s, 8),
        nodeid: wire::u64_at(o, s, 16),
        uid: wire::u32_at(o, s, 24),
        gid: wire::u32_at(o, s, 28),
        pid: wire::u32_at(o, s, 32),
    }
}

/// Whether `s` starts with a whole request: a header, and as many bytes as it announces.
pub open spec fn is_request(o: ByteOrder, s: Seq<u8>) -> bool {
    &&& s.len() >= IN_HEADER_SIZE
    &&& IN_HEADER_SIZE <= in_header_of(o, s).len <= s.len()
}

/// The bytes of a request after its header.
pub open spec fn body_of(o: ByteOrder, s: Seq<u8>) -> Seq<u8> {
    s.subrange(IN_HEADER_SIZE as int, in_header_of(o, s).len as int)
}

/// The bytes of a header. The last four are unused.
pub open spec fn in_header_bytes(o: ByteOrder, h: InHeader) -> Seq<u8> {
    wire::uint_bytes(o, h.len as nat, 4) + wire::uint_bytes(o, h.opcode as nat, 4)
        + wire::uint_bytes(o, h.unique as nat, 8) + wire::uint_bytes(o, h.nodeid as nat, 8)
        + wire::uint_bytes(o, h.uid as nat, 4) + wire::uint_bytes(o, h.gid as nat, 4)
        + wire::uint_bytes(o, h.pid as nat, 4) + wire::uint_bytes(o, 0, 4)
}

/// A request is read back as it was written, and what follows it in the buffer plays no part.
pub proof fn law_request_reads_back(o: ByteOrder, h: InHeader, body: Seq<u8>, rest: Seq<u8>)
    requires
        h.len == IN_HEADER_SIZE + body.len(),
    ensures
        ({
            let s = in_header_bytes(o, h) + body + rest;
            &&& is_request(o, s)
            &&& in_header_of(o, s) == h
            &&& body_of(o, s) == body
        }),
{
    let s = in_header_bytes(o, h) + body + rest;
    wire::lemma_pow256_values();
    wire::lemma_uint_round_trip(o, h.len as nat, 4);
    wire::lemma_uint_round_trip(o, h.opcode as nat, 4);
    wire::lemma_uint_round_trip(o, h.unique as nat, 8);
    wire::lemma_uint_round_trip(o, h.nodeid as nat, 8);
    wire::lemma_uint_round_trip(o, h.uid as nat, 4);
    wire::lemma_uint_round_trip(o, h.gid as nat, 4);
    wire::lemma_uint_round_trip(o, h.pid as nat, 4);
    wire::lemma_uint_round_trip(o, 0, 4);
    reveal(wire::u32_at);
    reveal(wire::u64_at);
    assert(s.subrange(0, 4) =~= wire::uint_bytes(o, h.len as nat, 4));
    assert(s.subrange(4, 8) =~= wire::uint_bytes(o, h.opcode as nat, 4));
    assert(s.subrange(8, 16) =~= wire::uint_bytes(o, h.unique as nat, 8));
    assert(s.subrange(16, 24) =~= wire::uint_bytes(o, h.nodeid as nat, 8));
    assert(s.subrange(24, 28) =~= wire::uint_bytes(o, h.uid as nat, 4));
    assert(s.subrange(28, 32) =~= wire::uint_bytes(o, h.gid as nat, 4));
    assert(s.subrange(32, 36) =~= wire::uint_bytes(o, h.pid as nat, 4));
    assert(body_of(o, s) =~= body);
}

/// A request is read back from bytes laid out as the kernel lays them out: its length, the
/// operation, its identifier, the inode, the user, the group and the process, then four bytes
/// that may be anything, then the body. What follows the request plays no part.
pub proof fn law_laid_out_requests_read_back(
    o: ByteOrder,
    h: InHeader,
    unused: Seq<u8>,
    body: Seq<u8>,
    rest: Seq<u8>,
)
    requires
        unused.len() == 4,
        h.len == 40 + body.len(),
    ensures
        ({
            let s = wire::uint_bytes(o, h.len as nat, 4) + wire::uint_bytes(o, h.opcode as nat, 4)
                + wire::uint_bytes(o, h.unique as nat, 8) + wire::uint_bytes(o, h.nodeid as nat, 8)
                + wire::uint_bytes(o, h.uid as nat, 4) + wire::uint_bytes(o, h.gid as nat, 4)
                + wire::uint_bytes(o, h.pid as nat, 4) + unused + body + rest;
            &&& is_request(o, s)
            &&& in_header_of(o, s) == h
            &&& body_of(o, s) == body
        }),
{
    let s = wire::uint_bytes(o, h.len as nat, 4) + wire::uint_bytes(o, h.opcode as nat, 4)
        + wire::uint_bytes(o, h.unique as nat, 8) + wire::uint_bytes(o, h.nodeid as nat, 8)
        + wire::uint_bytes(o, h.uid as nat, 4) + wire::uint_bytes(o, h.gid as nat, 4)
        + wire::uint_bytes(o, h.pid as nat, 4) + unused + body + rest;
    wire::lemma_uint_bytes_len(o, h.len as nat, 4);
    wire::lemma_uint_bytes_len(o, h.opcode as nat, 4);
    wire::lemma_uint_bytes_len(o, h.unique as nat, 8);
    wire::lemma_uint_bytes_len(o, h.nodeid as nat, 8);
    wire::lemma_uint_bytes_len(o, h.uid as nat, 4);
    wire::lemma_uint_bytes_len(o, h.gid as nat, 4);
    wire::lemma_uint_bytes_len(o, h.pid as nat, 4);
    assert(s.subrange(0, 4) =~= wire::uint_bytes(o, h.len as nat, 4));
    assert(s.subrange(4, 8) =~= wire::uint_bytes(o, h.opcode as nat, 4));
    assert(s.subrange(8, 16) =~= wire::uint_bytes(o, h.unique as nat, 8));
    assert(s.subrange(16, 24) =~= wire::uint_bytes(o, h.nodeid as nat, 8));
    assert(s.subrange(24, 28) =~= wire::uint_bytes(o, h.uid as nat, 4));
    assert(s.subrange(28, 32) =~= wire::uint_bytes(o, h.gid as nat, 4));
    assert(s.subrange(32, 36) =~= wire::uint_bytes(o, h.pid as nat, 4));
    wire::lemma_u32_at(o, s, 0, h.len);
    wire::lemma_u32_at(o, s, 4, h.opcode);
    wire::lemma_u64_at(o, s, 8, h.unique);
    wire::lemma_u64_at(o, s, 16, h.nodeid);
    wire::lemma_u32_at(o, s, 24, h.uid);
    wire::lemma_u32_at(o, s, 28, h.gid);
    wire::lemma_u32_at(o, s, 32, h.pid);
    assert(body_of(o, s) =~= body);
}

/// Bytes start with a request exactly if there are forty at least, and the first four tell a
/// length of forty at least that does not go past the end; the rest of that length is the body.
pub proof fn law_what_a_request_is(o: ByteOrder, s: Seq<u8>)
    ensures
        is_request(o, s) <==> s.len() >= 40 && 40 <= wire::u32_at(o, s, 0) <= s.len(),
        is_request(o, s) ==> body_of(o, s) == s.subrange(40, wire::u32_at(o, s, 0) as int),
        in_header_of(o, s).len == wire::u32_at(o, s, 0),
        in_header_of(o, s).opcode == wire::u32_at(o, s, 4),
        in_header_of(o, s).unique == wire::u64_at(o, s, 8),
        in_header_of(o, s).nodeid == wire::u64_at(o, s, 16),
        in_header_of(o, s).uid == wire::u32_at(o, s, 24),
        in_header_of(o, s).gid == wire::u32_at(o, s, 28),
        in_header_of(o, s).pid == wire::u32_at(o, s, 32),
{
}

/// A request that is read from bytes has the header that they start with, and the body behind
/// it.
pub proof fn law_requests_are_read_from_their_bytes(
    request: AnyRequest<'_>,
    o: ByteOrder,
    s: Seq<u8>,
)
    ensures
        request.is_read_from(o, s) <==> {
            &&& s.len() >= 40
            &&& 40 <= wire::u32_at(o, s, 0) <= s.len()
            &&& request.order() == o
            &&& request.header().len == wire::u32_at(o, s, 0)
            &&& request.header().opcode == wire::u32_at(o, s, 4)
            &&& request.header().unique == wire::u64_at(o, s, 8)
            &&& request.header().nodeid == wire::u64_at(o, s, 16)
            &&& request.header().uid == wire::u32_at(o, s, 24)
            &&& request.header().gid == wire::u32_at(o, s, 28)
            &&& request.header().pid == wire::u32_at(o, s, 32)
            &&& request.body() == s.subrange(40, wire::u32_at(o, s, 0) as int)
        },
{
}

/// A request whose header has been read.
pub struct AnyRequest<'a> {
    order: ByteOrder,
    header: InHeader,
    data: &'a [u8],
}

impl<'a> AnyRequest<'a> {
    /// The byte order in which the request is read.
    pub closed spec fn order(self) -> ByteOrder {
        self.order
    }

    /// The header.
    pub closed spec fn header(self) -> InHeader {
        self.header
    }

    /// The bytes after the header.
    pub closed spec fn body(self) -> Seq<u8> {
        self.data@
    }

    /// Whether this is the request that `s` starts with.
    pub open spec fn is_read_from(self, o: ByteOrder, s: Seq<u8>) -> bool {
        &&& is_request(o, s)
        &&& self.order() == o
        &&& self.header() == in_header_of(o, s)
        &&& self.body() == body_of(o, s)
    }

    /// Reads the request that `data` starts with; `None` if it does not start with one.
    pub fn parse(order: ByteOrder, data: &'a [u8]) -> (r: Option<AnyRequest<'a>>)
        ensures
            r is Some <==> is_request(order, data@),
            r matches Some(request) ==> request.is_read_from(order, data@),
    {
        if data.len() < IN_HEADER_SIZE {
            return None;
        }
        let header = InHeader {
            len: wire::read_u32(order, data, 0),
            opcode: wire::read_u32(order, data, 4),
            unique: wire::read_u64(order, data, 8),
            nodeid: wire::read_u64(order, data, 16),
            uid: wire::read_u32(order, data, 24),
            gid: wire::read_u32(order, data, 28),
            pid: wire::read_u32(order, data, 32),
        };
        let end: usize = header.len as usize;
        if end < IN_HEADER_SIZE || data.len() < end {
            return None;
        }
        Some(AnyRequest { order, header, data: slice_subrange(data, IN_HEADER_SIZE, end) })
    }

    /// The identifier that the reply has to carry.
    pub fn unique(&self) -> (r: u64)
        ensures
            r == self.header().unique,
    {
        self.header.unique
    }

    /// The inode that the operation is about.
    pub fn nodeid(&self) -> (r: u64)
        ensures
            r == self.header().nodeid,
    {
        self.header.nodeid
    }

    /// The user that caused the request.
    pub fn uid(&self) -> (r: u32)
        ensures
            r == self.header().uid,
    {
        self.header.uid
    }

    /// The group of the user that caused the request.
    pub fn gid(&self) -> (r: u32)
        ensures
            r == self.header().gid,
    {
        self.header.gid
    }

    /// The process that caused the request.
    pub fn pid(&self) -> (r: u32)
        ensures
            r == self.header().pid,
    {
        self.header.pid
    }

    /// Reads the operation of a kernel of the system `os`, and its arguments; `None` if the
    /// operation is unknown or arguments are missing.
    pub fn operation(&self, os: Os) -> (r: Option<Op<'a>>)
        ensures
            operation::op_view(r) == operation::operation_of(
                os,
                self.order(),
                self.header().opcode,
                self.body(),
            ),
    {
        operation::read_operation(os, self.order, self.header.opcode, self.data)
    }
}

} // verus!
