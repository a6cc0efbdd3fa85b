//! Decisions of a session that talks to the kernel through io_uring.
//!
//! There is one queue per worker, with a number of entries. An entry is registered with the
//! kernel once; from then on a reply to one request and the fetch of the next one are a
//! single command.
use crate::async_session::{self, ReaderEvent, ReaderPhase, ReaderStep, SessionEvent};
pub use crate::async_session::{NoMount, SharedSessionState};
use crate::platform::{Errnos, Os, Platform};
use crate::session::{self, MountOption, SessionACL, MAX_WRITE_SIZE};
use crate::wire::{self, ByteOrder};
use io_uring::squeue::Entry128;
use vstd::prelude::*;

verus! {

/// Size of the area of a request for the header of the request or the reply.
pub const FUSE_URING_IN_OUT_HEADER_SZ: usize = 128;

/// Size of the area of a request for the header of the operation.
pub const FUSE_URING_OP_IN_OUT_SZ: usize = 128;

/// Size of the area of a request for the metadata of its entry.
pub const FUSE_URING_ENT_IN_OUT_SZ: usize = 32;

/// Size of the whole header of a request.
pub const FUSE_URING_REQ_HEADER_SZ: usize = FUSE_URING_IN_OUT_HEADER_SZ + FUSE_URING_OP_IN_OUT_SZ
    + FUSE_URING_ENT_IN_OUT_SZ;

/// Number of entries of a queue.
pub const QUEUE_DEPTH: usize = 32;

/// Largest number of entries of a queue that a worker serves.
pub const MAX_QUEUE_DEPTH: usize = 64;

/// Number of `/dev/fuse` among the files that a ring has registered: it is the only one.
pub const REGISTERED_FUSE_FILE: u32 = 0;

/// Commands to the kernel.
#[derive(Debug, Clone, Copy, PartialEq, Eq, Structural)]
pub enum FuseUringCmd {
    /// No command.
    Invalid,
    /// Register a buffer and fetch a request.
    Register,
    /// Commit a reply and fetch the next request in one step.
    CommitAndFetch,
}

impl FuseUringCmd {
    /// The number of the command.
    pub open spec fn number(self) -> u32 {
        match self {
            FuseUringCmd::Invalid => 0,
            FuseUringCmd::Register => 1,
            FuseUringCmd::CommitAndFetch => 2,
        }
    }

    /// The number by which the kernel knows the command.
    pub fn code(&self) -> (r: u32)
        ensures
            r == self.number(),
    {
        match self {
            FuseUringCmd::Invalid => 0,
            FuseUringCmd::Register => 1,
            FuseUringCmd::CommitAndFetch => 2,
        }
    }
}

/// Metadata of an entry, part of the header of a request.
#[derive(Debug, Clone, Copy, PartialEq, Eq, Structural)]
pub struct FuseUringEntInOut {
    /// Flags (reserved).
    pub flags: u64,
    /// Commit identifier for replies.
    pub commit_id: u64,
    /// Size of the payload.
    pub payload_sz: u32,
    /// Padding.
    pub padding: u32,
    /// Reserved.
    pub reserved: u64,
}

impl Default for FuseUringEntInOut {
    fn default() -> (r: FuseUringEntInOut)
        ensures
            r == (FuseUringEntInOut {
                flags: 0,
                commit_id: 0,
                payload_sz: 0,
                padding: 0,
                reserved: 0,
            }),
    {
        FuseUringEntInOut { flags: 0, commit_id: 0, payload_sz: 0, padding: 0, reserved: 0 }
    }
}

/// Header of a request: that of the request or reply, that of the operation, and the metadata
/// of the entry.
#[derive(Debug, Clone)]
pub struct FuseUringReqHeader {
    /// Header of the request, or of the reply.
    pub in_out: [u8; FUSE_URING_IN_OUT_HEADER_SZ],
    /// Header of the operation.
    pub op_in: [u8; FUSE_URING_OP_IN_OUT_SZ],
    /// Metadata of the entry.
    pub ring_ent_in_out: FuseUringEntInOut,
}

impl Default for FuseUringReqHeader {
    fn default() -> (r: FuseUringReqHeader)
        ensures
            r.in_out@ == Seq::new(FUSE_URING_IN_OUT_HEADER_SZ as nat, |i: int| 0u8),
            r.op_in@ == Seq::new(FUSE_URING_OP_IN_OUT_SZ as nat, |i: int| 0u8),
            r.ring_ent_in_out == (FuseUringEntInOut {
                flags: 0,
                commit_id: 0,
                payload_sz: 0,
                padding: 0,
                reserved: 0,
            }),
    {
        FuseUringReqHeader {
            in_out: [0u8; FUSE_URING_IN_OUT_HEADER_SZ],
            op_in: [0u8; FUSE_URING_OP_IN_OUT_SZ],
            ring_ent_in_out: FuseUringEntInOut::default(),
        }
    }
}

/// Data of a command, in the 80-byte area of a submission.
#[derive(Debug, Clone, Copy, PartialEq, Eq)]
pub struct FuseUringCmdReq {
    /// Flags (reserved).
    pub flags: u64,
    /// Commit identifier for commit-and-fetch.
    pub commit_id: u64,
    /// Number of the queue.
    pub qid: u16,
    /// Padding.
    pub padding: [u8; 6],
}

impl Default for FuseUringCmdReq {
    fn default() -> (r: FuseUringCmdReq)
        ensures
            r.flags == 0,
            r.commit_id == 0,
            r.qid == 0,
            forall|i: int| 0 <= i < 6 ==> #[trigger] r.padding@[i] == 0,
    {
        FuseUringCmdReq { flags: 0, commit_id: 0, qid: 0, padding: [0; 6] }
    }
}

/// The 80 bytes of a command: flags, commit identifier and queue, then zeros.
pub open spec fn cmd_bytes(o: ByteOrder, flags: u64, commit_id: u64, qid: u16) -> Seq<u8> {
    wire::uint_bytes(o, flags as nat, 8) + wire::uint_bytes(o, commit_id as nat, 8)
        + wire::uint_bytes(o, qid as nat, 2) + Seq::new(62, |i: int| 0u8)
}

impl FuseUringCmdReq {
    /// Serializes to the 80-byte command area, in the byte order of this machine.
    pub fn to_cmd_bytes(&self) -> (r: [u8; 80])
        ensures
            r@ == cmd_bytes(wire::host_order(), self.flags, self.commit_id, self.qid),
    {
        self.to_cmd_bytes_in(wire::native_order())
    }

    /// Serializes to the 80-byte command area, in the byte order `o`.
    pub fn to_cmd_bytes_in(&self, o: ByteOrder) -> (r: [u8; 80])
        ensures
            r@ == cmd_bytes(o, self.flags, self.commit_id, self.qid),
    {
        let mut out: Vec<u8> = Vec::new();
        wire::push_uint(o, &mut out, self.flags, 8);
        wire::push_uint(o, &mut out, self.commit_id, 8);
        wire::push_uint(o, &mut out, self.qid as u64, 2);
        wire::push_zeros(&mut out, 62);
        proof {
            wire::lemma_uint_bytes_len(o, self.flags as nat, 8);
            wire::lemma_uint_bytes_len(o, self.commit_id as nat, 8);
            wire::lemma_uint_bytes_len(o, self.qid as nat, 2);
        }
        let mut cmd: [u8; 80] = [0u8; 80];
        let mut i: usize = 0;
        while i < 80
            invariant
                i <= 80,
                out@.len() == 80,
                forall|k: int| 0 <= k < i ==> #[trigger] cmd@[k] == out@[k],
            decreases 80 - i,
        {
            cmd[i] = out[i];
            i = i + 1;
        }
        assert(cmd@ =~= out@);
        cmd
    }
}

/// The kernel reads back from the command area what was put into it.
pub proof fn law_command_reads_back(o: ByteOrder, flags: u64, commit_id: u64, qid: u16)
    ensures
        ({
            let s = cmd_bytes(o, flags, commit_id, qid);
            &&& s.len() == 80
            &&& wire::u64_at(o, s, 0) == flags
            &&& wire::u64_at(o, s, 8) == commit_id
            &&& wire::uint_at(o, s, 16, 2) == qid
            &&& forall|i: int| 18 <= i < 80 ==> s[i] == 0
        }),
{
    let s = cmd_bytes(o, flags, commit_id, qid);
    wire::lemma_pow256_values();
    wire::lemma_uint_round_trip(o, flags as nat, 8);
    wire::lemma_uint_round_trip(o, commit_id as nat, 8);
    wire::lemma_uint_round_trip(o, qid as nat, 2);
    reveal(wire::u64_at);
    assert(s.subrange(0, 8) =~= wire::uint_bytes(o, flags as nat, 8));
    assert(s.subrange(8, 16) =~= wire::uint_bytes(o, commit_id as nat, 8));
    assert(s.subrange(16, 18) =~= wire::uint_bytes(o, qid as nat, 2));
}

/// A 128-byte submission of the crate `io_uring`.
#[verifier::external_type_specification]
#[verifier::external_body]
pub struct ExEntry128(io_uring::squeue::Entry128);

/// The submission that `io_uring::opcode::UringCmd80` builds for a registered file from the
/// number of the file, a command number, the command area, an address and user data.
pub uninterp spec fn uring_cmd_entry(
    file: u32,
    cmd_op: u32,
    cmd: Seq<u8>,
    addr: Option<u64>,
    user_data: u64,
) -> io_uring::squeue::Entry128;

/// Calls `io_uring::opcode::UringCmd80`: `new` on the registered file with the number `file`,
/// then `cmd`, `addr`, `build` and `user_data`.
///
/// Trusted: the submission is a function of the arguments.
#[verifier::external_body]
fn build_uring_cmd(
    file: u32,
    cmd_op: u32,
    cmd: [u8; 80],
    addr: Option<u64>,
    user_data: u64,
) -> (r: Entry128)
    ensures
        r == uring_cmd_entry(file, cmd_op, cmd@, addr, user_data),
{
    io_uring::opcode::UringCmd80::new(io_uring::types::Fixed(file), cmd_op)
        .cmd(cmd)
        .addr(addr)
        .build()
        .user_data(user_data)
}

/// One entry of a queue: a slot for a request, with its own header and payload.
#[derive(Debug)]
pub struct RingEntry {
    /// Header of the request.
    pub header: Box<FuseUringReqHeader>,
    /// Payload of the request or reply.
    pub payload: Vec<u8>,
    /// Commit identifier of the current request.
    pub commit_id: u64,
    /// Last command that was issued for the entry.
    pub last_cmd: FuseUringCmd,
}

/// Whether an entry is as it is made: everything in it is zero, with room for `payload_sz`
/// bytes of payload, and no command has been issued.
pub open spec fn is_fresh(entry: RingEntry, payload_sz: nat) -> bool {
    &&& entry.header.in_out@ == Seq::new(FUSE_URING_IN_OUT_HEADER_SZ as nat, |i: int| 0u8)
    &&& entry.header.op_in@ == Seq::new(FUSE_URING_OP_IN_OUT_SZ as nat, |i: int| 0u8)
    &&& entry.header.ring_ent_in_out == (FuseUringEntInOut {
        flags: 0,
        commit_id: 0,
        payload_sz: 0,
        padding: 0,
        reserved: 0,
    })
    &&& entry.payload@ == Seq::new(payload_sz, |i: int| 0u8)
    &&& entry.commit_id == 0
    &&& entry.last_cmd == FuseUringCmd::Invalid
}

impl RingEntry {
    /// Makes an entry with room for `payload_capacity` bytes of payload. Everything in it is
    /// zero, and no command has been issued.
    pub fn new(payload_capacity: usize) -> (r: RingEntry)
        ensures
            is_fresh(r, payload_capacity as nat),
    {
        let payload: Vec<u8> = vec![0u8; payload_capacity];
        assert(payload@ =~= Seq::new(payload_capacity as nat, |i: int| 0u8));
        RingEntry {
            header: Box::new(FuseUringReqHeader::default()),
            payload,
            commit_id: 0,
            last_cmd: FuseUringCmd::Invalid,
        }
    }

    /// The lengths of the two areas that the entry is registered with: header and payload.
    pub fn iovec_lens(&self) -> (r: (usize, usize))
        ensures
            r.0 == FUSE_URING_REQ_HEADER_SZ,
            r.1 == self.payload@.len(),
    {
        (FUSE_URING_REQ_HEADER_SZ, self.payload.len())
    }
}

/// How a queue uses its ring.
#[derive(Debug, Clone, Copy, PartialEq, Eq, Structural)]
pub struct RingQueueConfig {
    /// Let the kernel poll for submissions, which saves system calls but costs processor time.
    pub sqpoll: bool,
    /// Milliseconds after which the kernel stops polling when idle (0 = never).
    pub sqpoll_idle_ms: u32,
    /// Pin the queue to a specific processor for cache locality: the kernel's polling where it
    /// polls for submissions, the worker of the queue where it does not.
    pub pin_cpu: Option<usize>,
}

impl Default for RingQueueConfig {
    fn default() -> (r: RingQueueConfig)
        ensures
            r == (RingQueueConfig { sqpoll: false, sqpoll_idle_ms: 0, pin_cpu: None }),
    {
        RingQueueConfig { sqpoll: false, sqpoll_idle_ms: 0, pin_cpu: None }
    }
}

/// What a ring is set up with.
#[derive(Debug, Clone, Copy, PartialEq, Eq, Structural)]
pub struct RingSetup {
    /// Number of submissions.
    pub sq_entries: u32,
    /// Number of completions.
    pub cq_entries: u32,
    /// Milliseconds after which the kernel stops polling for submissions; `None` if it does
    /// not poll.
    pub sqpoll_idle_ms: Option<u32>,
    /// Processor that the kernel polls on, if it polls and one is given.
    pub sqpoll_cpu: Option<u32>,
}

/// The lowest 32 bits of a number.
pub open spec fn low32(n: int) -> int {
    n % 0x1_0000_0000
}

/// What the ring of a queue with `depth` entries is set up with: twice as many completions,
/// so that none is lost, and one submission to spare. The ring takes 32 bits of each number.
pub open spec fn ring_setup_of(depth: usize, config: RingQueueConfig) -> RingSetup {
    RingSetup {
        sq_entries: low32(depth + 1) as u32,
        cq_entries: low32(depth * 2) as u32,
        sqpoll_idle_ms: if config.sqpoll {
            Some(config.sqpoll_idle_ms)
        } else {
            None
        },
        sqpoll_cpu: match config.pin_cpu {
            Some(cpu) if config.sqpoll => Some(low32(cpu as int) as u32),
            _ => None,
        },
    }
}

/// Settles what the ring of a queue with `depth` entries is set up with.
pub fn ring_setup(depth: usize, config: RingQueueConfig) -> (r: RingSetup)
    requires
        depth * 2 <= usize::MAX,
    ensures
        r == ring_setup_of(depth, config),
{
    RingSetup {
        sq_entries: truncate32(depth + 1),
        cq_entries: truncate32(depth * 2),
        sqpoll_idle_ms: if config.sqpoll {
            Some(config.sqpoll_idle_ms)
        } else {
            None
        },
        sqpoll_cpu: match config.pin_cpu {
            Some(cpu) if config.sqpoll => Some(truncate32(cpu)),
            _ => None,
        },
    }
}

/// The processor that the worker of a queue is pinned to: the one that the queue is pinned to,
/// unless the kernel polls for submissions and is pinned in place of the worker.
pub open spec fn worker_cpu_of(config: RingQueueConfig) -> Option<usize> {
    if config.sqpoll {
        None
    } else {
        config.pin_cpu
    }
}

/// Tells the processor that the worker of a queue is pinned to.
pub fn worker_cpu(config: RingQueueConfig) -> (r: Option<usize>)
    ensures
        r == worker_cpu_of(config),
{
    if config.sqpoll {
        None
    } else {
        config.pin_cpu
    }
}

/// A queue that is to be pinned to a processor is, on the kernel's side or on that of the
/// worker, and to no other; one that is not to be pinned is pinned on neither side.
pub proof fn law_a_queue_is_pinned_as_asked(depth: usize, config: RingQueueConfig)
    ensures
        match config.pin_cpu {
            Some(cpu) => if config.sqpoll {
                ring_setup_of(depth, config).sqpoll_cpu == Some(low32(cpu as int) as u32)
                    && worker_cpu_of(config) is None
            } else {
                ring_setup_of(depth, config).sqpoll_cpu is None && worker_cpu_of(config) == Some(
                    cpu,
                )
            },
            None => ring_setup_of(depth, config).sqpoll_cpu is None && worker_cpu_of(
                config,
            ) is None,
        },
{
}

/// The ring of a queue has room for a submission of every entry at once, and for two
/// completions of each, as long as these numbers fit into the 32 bits that it takes.
pub proof fn law_ring_has_room(depth: usize)
    requires
        depth * 2 < 0x1_0000_0000,
    ensures
        low32(depth + 1) > depth,
        low32(depth * 2) == depth * 2,
{
}

fn truncate32(n: usize) -> (r: u32)
    ensures
        r == low32(n as int),
{
    let wide: u64 = n as u64;
    assert(wide as u32 == wide % 0x1_0000_0000) by (bit_vector);
    wide as u32
}

fn truncate16(n: usize) -> (r: u16)
    ensures
        r == n % 0x1_0000,
{
    assert(n as u16 == n % 0x1_0000) by (bit_vector);
    n as u16
}

/// The entries of one worker, and what goes into the commands for them.
#[derive(Debug)]
pub struct RingQueue {
    /// Number of the queue.
    pub qid: usize,
    /// The entries.
    pub entries: Vec<RingEntry>,
    /// Descriptor of `/dev/fuse`.
    pub fuse_fd: i32,
    /// Whether the kernel polls for submissions.
    pub sqpoll: bool,
    /// Processor that the worker of the queue is pinned to, if it is.
    pub worker_cpu: Option<usize>,
    /// The byte order of commands and replies.
    pub order: ByteOrder,
    /// The error numbers of the system.
    pub errnos: Errnos,
}

/// What a completion calls for.
#[derive(Debug)]
pub enum Completion {
    /// Nothing: the filesystem has been unmounted.
    Unmounted,
    /// Nothing but to report the error.
    Failed {
        /// The error.
        errno: i32,
    },
    /// A submission.
    Submit(Entry128),
}

/// What a batch of completions calls for.
#[derive(Debug)]
pub struct Answers {
    /// The submissions to queue, each with its entry.
    pub submissions: Vec<(usize, Entry128)>,
    /// The errors to report, each with its entry.
    pub failures: Vec<(usize, i32)>,
}

/// An entry after the request in it has been refused with `ENOSYS`: the error stands in the
/// header of the reply, there is no payload, and the reply carries the commit identifier of
/// the request. The rest of the entry is as it was.
pub open spec fn is_refused(
    o: ByteOrder,
    errnos: Errnos,
    before: RingEntry,
    after: RingEntry,
) -> bool {
    &&& after.header.in_out@ == before.header.in_out@.take(4) + wire::uint_bytes(
        o,
        wire::pattern32(-errnos.enosys),
        4,
    ) + before.header.in_out@.skip(8)
    &&& after.header.op_in == before.header.op_in
    &&& after.header.ring_ent_in_out == (FuseUringEntInOut {
        payload_sz: 0,
        ..before.header.ring_ent_in_out
    })
    &&& after.payload == before.payload
    &&& after.commit_id == before.header.ring_ent_in_out.commit_id
    &&& after.last_cmd == before.last_cmd
}

/// Whether one of the first `n` completions says that a request has come in for the entry `i`.
pub open spec fn is_completed(completions: Seq<(usize, i32)>, n: int, i: int) -> bool {
    exists|k: int| 0 <= k < n && completions[k].1 >= 0 && #[trigger] completions[k].0 == i
}

/// The ring has no room for a submission.
#[derive(Debug, Clone, Copy, PartialEq, Eq, Structural)]
pub struct RingFull;

/// Whether the ring took one of the first `n` submissions for the entry `i`.
pub open spec fn is_pushed(pushes: Seq<(usize, bool)>, n: int, i: int) -> bool {
    exists|k: int| 0 <= k < n && pushes[k].1 && #[trigger] pushes[k].0 == i
}

/// How many of the first `n` submissions the ring took.
pub open spec fn count_pushed(pushes: Seq<(usize, bool)>, n: int) -> nat
    decreases n,
{
    if n <= 0 {
        0
    } else if pushes[n - 1].1 {
        count_pushed(pushes, n - 1) + 1
    } else {
        count_pushed(pushes, n - 1)
    }
}

/// What the first `n + 1` pushes issue, against the first `n`.
proof fn lemma_pushed_step(pushes: Seq<(usize, bool)>, n: int, i: int)
    requires
        0 <= n < pushes.len(),
    ensures
        is_pushed(pushes, n + 1, i) <==> is_pushed(pushes, n, i) || (pushes[n].1 && pushes[n].0
            == i),
{
    if is_pushed(pushes, n, i) {
        let k = choose|k: int| 0 <= k < n && pushes[k].1 && #[trigger] pushes[k].0 == i;
        assert(pushes[k].0 == i);
    }
    if is_pushed(pushes, n + 1, i) {
        let k = choose|k: int| 0 <= k < n + 1 && pushes[k].1 && #[trigger] pushes[k].0 == i;
        assert(pushes[k].0 == i);
    }
}

impl RingQueue {
    /// The number of the queue, as commands carry it: 16 bits of it.
    pub open spec fn command_qid(self) -> u16 {
        (self.qid % 0x1_0000) as u16
    }

    /// Whether the two queues are the same but for their entries.
    pub open spec fn differs_in_entries_only(self, other: RingQueue) -> bool {
        &&& self.qid == other.qid
        &&& self.fuse_fd == other.fuse_fd
        &&& self.sqpoll == other.sqpoll
        &&& self.worker_cpu == other.worker_cpu
        &&& self.order == other.order
        &&& self.errnos == other.errnos
        &&& self.entries@.len() == other.entries@.len()
    }

    /// The submission that registers the entry `idx`, whose areas are described at `iov_ptr`.
    pub open spec fn register_entry(self, idx: int, iov_ptr: u64) -> Entry128 {
        uring_cmd_entry(
            REGISTERED_FUSE_FILE,
            FuseUringCmd::Register.number(),
            cmd_bytes(self.order, 0, 0, self.command_qid()),
            Some(iov_ptr),
            idx as u64,
        )
    }

    /// The submission that commits the reply `commit_id` in the entry `idx`, and fetches the
    /// next request.
    pub open spec fn commit_entry(self, idx: int, commit_id: u64) -> Entry128 {
        uring_cmd_entry(
            REGISTERED_FUSE_FILE,
            FuseUringCmd::CommitAndFetch.number(),
            cmd_bytes(self.order, 0, commit_id, self.command_qid()),
            None,
            idx as u64,
        )
    }

    /// The submissions that answer the first `n` completions, in their order, each with its
    /// entry: one for each completion that brought a request, which carries the commit
    /// identifier that the kernel gave it.
    pub open spec fn answers(self, completions: Seq<(usize, i32)>, n: int) -> Seq<
        (usize, Entry128),
    >
        decreases n,
    {
        if n <= 0 {
            seq![]
        } else {
            let before = self.answers(completions, n - 1);
            let (idx, result) = completions[n - 1];
            if result >= 0 {
                before.push(
                    (
                        idx,
                        self.commit_entry(
                            idx as int,
                            self.entries@[idx as int].header.ring_ent_in_out.commit_id,
                        ),
                    ),
                )
            } else {
                before
            }
        }
    }

    /// The errors to report of the first `n` completions, in their order, each with its entry:
    /// all but that the filesystem has been unmounted.
    pub open spec fn failures(self, completions: Seq<(usize, i32)>, n: int) -> Seq<(usize, i32)>
        decreases n,
    {
        if n <= 0 {
            seq![]
        } else {
            let before = self.failures(completions, n - 1);
            let (idx, result) = completions[n - 1];
            if result < 0 && result != -self.errnos.enodev {
                before.push((idx, (-result) as i32))
            } else {
                before
            }
        }
    }

    /// Makes a queue with the default configuration.
    pub fn new(qid: usize, depth: usize, payload_sz: usize, fuse_fd: i32) -> (r: RingQueue)
        ensures
            r.qid == qid,
            r.fuse_fd == fuse_fd,
            !r.sqpoll,
            r.worker_cpu is None,
            r.order == wire::host_order(),
            r.errnos.is_of_linux(),
            r.errnos.is_valid(),
            r.entries@.len() == depth,
            forall|i: int| 0 <= i < depth ==> is_fresh(#[trigger] r.entries@[i], payload_sz as nat),
    {
        RingQueue::with_config(qid, depth, payload_sz, fuse_fd, RingQueueConfig::default())
    }

    /// Makes a queue.
    ///
    /// * `qid` - number of the queue
    /// * `depth` - number of entries
    /// * `payload_sz` - room for payload in each entry
    /// * `fuse_fd` - descriptor of `/dev/fuse`
    /// * `config` - how the queue uses its ring
    pub fn with_config(
        qid: usize,
        depth: usize,
        payload_sz: usize,
        fuse_fd: i32,
        config: RingQueueConfig,
    ) -> (r: RingQueue)
        ensures
            r.qid == qid,
            r.fuse_fd == fuse_fd,
            r.sqpoll == config.sqpoll,
            r.worker_cpu == worker_cpu_of(config),
            r.order == wire::host_order(),
            r.errnos.is_of_linux(),
            r.errnos.is_valid(),
            r.entries@.len() == depth,
            forall|i: int| 0 <= i < depth ==> is_fresh(#[trigger] r.entries@[i], payload_sz as nat),
    {
        let mut entries: Vec<RingEntry> = Vec::new();
        let mut i: usize = 0;
        while i < depth
            invariant
                i <= depth,
                entries@.len() == i,
                forall|k: int| 0 <= k < i ==> is_fresh(#[trigger] entries@[k], payload_sz as nat),
            decreases depth - i,
        {
            entries.push(RingEntry::new(payload_sz));
            i = i + 1;
        }
        RingQueue {
            qid,
            entries,
            fuse_fd,
            sqpoll: config.sqpoll,
            worker_cpu: worker_cpu(config),
            order: wire::native_order(),
            errnos: Errnos::native(),
        }
    }

    /// Makes the submission that registers an entry: it hands the areas of the entry, which
    /// are described at `iov_ptr`, to the kernel and asks for a first request.
    ///
    /// Whether the ring took it is handed to [`RingQueue::note_push`].
    pub fn queue_register(&self, entry_idx: usize, iov_ptr: u64) -> (r: Entry128)
        requires
            entry_idx < self.entries@.len(),
        ensures
            r == self.register_entry(entry_idx as int, iov_ptr),
            exists|cmd: Seq<u8>|
                #![trigger uring_cmd_entry(0, 1, cmd, Some(iov_ptr), entry_idx as u64)]
                {
                    &&& r == uring_cmd_entry(0, 1, cmd, Some(iov_ptr), entry_idx as u64)
                    &&& cmd.len() == 80
                    &&& wire::u64_at(self.order, cmd, 0) == 0
                    &&& wire::u64_at(self.order, cmd, 8) == 0
                    &&& wire::uint_at(self.order, cmd, 16, 2) == self.qid % 0x1_0000
                    &&& forall|i: int| 18 <= i < 80 ==> cmd[i] == 0
                },
    {
        proof {
            law_command_reads_back(self.order, 0, 0, self.command_qid());
        }
        let cmd_req = FuseUringCmdReq {
            flags: 0,
            commit_id: 0,
            qid: truncate16(self.qid),
            padding: [0; 6],
        };
        build_uring_cmd(
            REGISTERED_FUSE_FILE,
            FuseUringCmd::Register.code(),
            cmd_req.to_cmd_bytes_in(self.order),
            Some(iov_ptr),
            entry_idx as u64,
        )
    }

    /// Makes the submission that commits the reply in an entry, and fetches the next request.
    ///
    /// Whether the ring took it is handed to [`RingQueue::note_push`].
    pub fn queue_commit_and_fetch(&self, entry_idx: usize) -> (r: Entry128)
        requires
            entry_idx < self.entries@.len(),
        ensures
            r == self.commit_entry(
                entry_idx as int,
                self.entries@[entry_idx as int].commit_id,
            ),
            exists|cmd: Seq<u8>|
                #![trigger uring_cmd_entry(0, 2, cmd, None, entry_idx as u64)]
                {
                    &&& r == uring_cmd_entry(0, 2, cmd, None, entry_idx as u64)
                    &&& cmd.len() == 80
                    &&& wire::u64_at(self.order, cmd, 0) == 0
                    &&& wire::u64_at(self.order, cmd, 8)
                        == self.entries@[entry_idx as int].commit_id
                    &&& wire::uint_at(self.order, cmd, 16, 2) == self.qid % 0x1_0000
                    &&& forall|i: int| 18 <= i < 80 ==> cmd[i] == 0
                },
    {
        proof {
            law_command_reads_back(
                self.order,
                0,
                self.entries@[entry_idx as int].commit_id,
                self.command_qid(),
            );
        }
        let cmd_req = FuseUringCmdReq {
            flags: 0,
            commit_id: self.entries[entry_idx].commit_id,
            qid: truncate16(self.qid),
            padding: [0; 6],
        };
        build_uring_cmd(
            REGISTERED_FUSE_FILE,
            FuseUringCmd::CommitAndFetch.code(),
            cmd_req.to_cmd_bytes_in(self.order),
            None,
            entry_idx as u64,
        )
    }

    /// Notes whether the ring took the submission of the command `cmd` for an entry. Only then
    /// it has been issued; otherwise the entry keeps the command before.
    pub fn note_push(&mut self, entry_idx: usize, cmd: FuseUringCmd, pushed: bool) -> (r: Result<
        (),
        RingFull,
    >)
        requires
            entry_idx < old(self).entries@.len(),
        ensures
            r == if pushed {
                Ok::<(), RingFull>(())
            } else {
                Err(RingFull)
            },
            final(self).differs_in_entries_only(*old(self)),
            final(self).entries@ == if pushed {
                old(self).entries@.update(
                    entry_idx as int,
                    RingEntry { last_cmd: cmd, ..old(self).entries@[entry_idx as int] },
                )
            } else {
                old(self).entries@
            },
    {
        if pushed {
            self.entries[entry_idx].last_cmd = cmd;
            Ok(())
        } else {
            Err(RingFull)
        }
    }

    /// Notes that the ring took the first `taken` of the submissions that register all entries,
    /// and no more. That is an error unless it took them all.
    pub fn note_registered(&mut self, taken: usize) -> (r: Result<(), RingFull>)
        requires
            taken <= old(self).entries@.len(),
        ensures
            r == if taken == old(self).entries@.len() {
                Ok::<(), RingFull>(())
            } else {
                Err(RingFull)
            },
            final(self).differs_in_entries_only(*old(self)),
            forall|i: int|
                0 <= i < old(self).entries@.len() ==> (#[trigger] final(self).entries@[i])
                    == if i < taken {
                    RingEntry { last_cmd: FuseUringCmd::Register, ..old(self).entries@[i] }
                } else {
                    old(self).entries@[i]
                },
    {
        let ghost start = *self;
        let mut n: usize = 0;
        while n < taken
            invariant
                n <= taken <= start.entries@.len(),
                self.differs_in_entries_only(start),
                forall|i: int|
                    0 <= i < start.entries@.len() ==> (#[trigger] self.entries@[i]) == if i < n {
                        RingEntry { last_cmd: FuseUringCmd::Register, ..start.entries@[i] }
                    } else {
                        start.entries@[i]
                    },
            decreases taken - n,
        {
            let _ = self.note_push(n, FuseUringCmd::Register, true);
            n = n + 1;
        }
        if taken == self.entries.len() {
            Ok(())
        } else {
            Err(RingFull)
        }
    }

    /// Notes which of the submissions that commit replies the ring took, each with its entry.
    /// Returns how many it took.
    pub fn note_committed(&mut self, pushes: &[(usize, bool)]) -> (r: usize)
        requires
            forall|k: int|
                0 <= k < pushes@.len() ==> (#[trigger] pushes@[k]).0 < old(self).entries@.len(),
        ensures
            r == count_pushed(pushes@, pushes@.len() as int),
            final(self).differs_in_entries_only(*old(self)),
            forall|i: int|
                0 <= i < old(self).entries@.len() ==> (#[trigger] final(self).entries@[i])
                    == if is_pushed(pushes@, pushes@.len() as int, i) {
                    RingEntry { last_cmd: FuseUringCmd::CommitAndFetch, ..old(self).entries@[i] }
                } else {
                    old(self).entries@[i]
                },
    {
        let ghost start = *self;
        let mut n: usize = 0;
        let mut count: usize = 0;
        while n < pushes.len()
            invariant
                n <= pushes@.len(),
                count <= n,
                count == count_pushed(pushes@, n as int),
                forall|k: int|
                    0 <= k < pushes@.len() ==> (#[trigger] pushes@[k]).0 < start.entries@.len(),
                self.differs_in_entries_only(start),
                forall|i: int|
                    0 <= i < start.entries@.len() ==> (#[trigger] self.entries@[i])
                        == if is_pushed(pushes@, n as int, i) {
                        RingEntry { last_cmd: FuseUringCmd::CommitAndFetch, ..start.entries@[i] }
                    } else {
                        start.entries@[i]
                    },
            decreases pushes@.len() - n,
        {
            let (entry_idx, pushed) = pushes[n];
            let ghost before = *self;
            assert(pushes@[n as int] == (entry_idx, pushed));
            if self.note_push(entry_idx, FuseUringCmd::CommitAndFetch, pushed).is_ok() {
                count = count + 1;
            }
            proof {
                assert forall|i: int| 0 <= i < start.entries@.len() implies (
                #[trigger] self.entries@[i]) == if is_pushed(pushes@, n + 1, i) {
                    RingEntry { last_cmd: FuseUringCmd::CommitAndFetch, ..start.entries@[i] }
                } else {
                    start.entries@[i]
                } by {
                    lemma_pushed_step(pushes@, n as int, i);
                    assert(before.entries@[i] == before.entries@[i]);
                }
            }
            n = n + 1;
        }
        count
    }

    /// Refuses the request in an entry with `ENOSYS`, and makes the submission that commits
    /// the refusal and fetches the next request.
    pub fn refuse(&mut self, entry_idx: usize) -> (r: Entry128)
        requires
            old(self).errnos.is_valid(),
            entry_idx < old(self).entries@.len(),
        ensures
            r == old(self).commit_entry(
                entry_idx as int,
                old(self).entries@[entry_idx as int].header.ring_ent_in_out.commit_id,
            ),
            ({
                let commit_id = old(self).entries@[entry_idx as int]
                    .header.ring_ent_in_out.commit_id;
                exists|cmd: Seq<u8>|
                    #![trigger uring_cmd_entry(0, 2, cmd, None, entry_idx as u64)]
                    {
                        &&& r == uring_cmd_entry(0, 2, cmd, None, entry_idx as u64)
                        &&& cmd.len() == 80
                        &&& wire::u64_at(old(self).order, cmd, 0) == 0
                        &&& wire::u64_at(old(self).order, cmd, 8) == commit_id
                        &&& wire::uint_at(old(self).order, cmd, 16, 2) == old(self).qid % 0x1_0000
                        &&& forall|i: int| 18 <= i < 80 ==> cmd[i] == 0
                    }
            }),
            final(self).differs_in_entries_only(*old(self)),
            is_refused(
                old(self).order,
                old(self).errnos,
                old(self).entries@[entry_idx as int],
                final(self).entries@[entry_idx as int],
            ),
            forall|i: int|
                0 <= i < old(self).entries@.len() && i != entry_idx ==> (
                #[trigger] final(self).entries@[i]) == old(self).entries@[i],
    {
        let o: ByteOrder = self.order;
        let errnos: Errnos = self.errnos;
        let mut error: Vec<u8> = Vec::new();
        wire::push_i32(o, &mut error, -errnos.enosys);
        proof {
            wire::lemma_uint_bytes_len(o, wire::pattern32(-errnos.enosys), 4);
        }
        let ghost before = self.entries@[entry_idx as int].header.in_out@;
        let entry: &mut RingEntry = &mut self.entries[entry_idx];
        entry.commit_id = entry.header.ring_ent_in_out.commit_id;
        entry.header.in_out[4] = error[0];
        entry.header.in_out[5] = error[1];
        entry.header.in_out[6] = error[2];
        entry.header.in_out[7] = error[3];
        entry.header.ring_ent_in_out.payload_sz = 0;
        assert(self.entries@[entry_idx as int].header.in_out@ =~= before.take(4) + error@
            + before.skip(8));
        self.queue_commit_and_fetch(entry_idx)
    }

    /// Handles one completion: `result` is negative for an error, otherwise a request has come
    /// in for the entry `entry_idx`.
    pub fn complete(&mut self, entry_idx: usize, result: i32) -> (r: Completion)
        requires
            old(self).errnos.is_valid(),
            result != i32::MIN,
            result >= 0 ==> entry_idx < old(self).entries@.len(),
        ensures
            final(self).differs_in_entries_only(*old(self)),
            result < 0 ==> {
                &&& r == if result == -old(self).errnos.enodev {
                    Completion::Unmounted
                } else {
                    Completion::Failed { errno: (-result) as i32 }
                }
                &&& final(self).entries@ == old(self).entries@
            },
            result >= 0 ==> {
                &&& r == Completion::Submit(
                    old(self).commit_entry(
                        entry_idx as int,
                        old(self).entries@[entry_idx as int].header.ring_ent_in_out.commit_id,
                    ),
                )
                &&& {
                    let commit_id = old(self).entries@[entry_idx as int]
                        .header.ring_ent_in_out.commit_id;
                    exists|cmd: Seq<u8>|
                        #![trigger uring_cmd_entry(0, 2, cmd, None, entry_idx as u64)]
                        {
                            &&& r == Completion::Submit(
                                uring_cmd_entry(0, 2, cmd, None, entry_idx as u64),
                            )
                            &&& cmd.len() == 80
                            &&& wire::u64_at(old(self).order, cmd, 0) == 0
                            &&& wire::u64_at(old(self).order, cmd, 8) == commit_id
                            &&& wire::uint_at(old(self).order, cmd, 16, 2)
                                == old(self).qid % 0x1_0000
                            &&& forall|i: int| 18 <= i < 80 ==> cmd[i] == 0
                        }
                }
                &&& is_refused(
                    old(self).order,
                    old(self).errnos,
                    old(self).entries@[entry_idx as int],
                    final(self).entries@[entry_idx as int],
                )
                &&& forall|i: int|
                    0 <= i < old(self).entries@.len() && i != entry_idx ==> (
                    #[trigger] final(self).entries@[i]) == old(self).entries@[i]
            },
    {
        if result < 0 {
            let errno: i32 = -result;
            if errno == self.errnos.enodev {
                Completion::Unmounted
            } else {
                Completion::Failed { errno }
            }
        } else {
            Completion::Submit(self.refuse(entry_idx))
        }
    }

    /// Handles a batch of completions in their order. Returns the submissions to queue and the
    /// errors to report; which of the submissions the ring took is handed to
    /// [`RingQueue::note_committed`].
    pub fn complete_all(&mut self, completions: &[(usize, i32)]) -> (r: Answers)
        requires
            old(self).errnos.is_valid(),
            forall|k: int|
                0 <= k < completions@.len() ==> (#[trigger] completions@[k]).1 != i32::MIN && (
                completions@[k].1 >= 0 ==> completions@[k].0 < old(self).entries@.len()),
        ensures
            r.submissions@ == old(self).answers(completions@, completions@.len() as int),
            r.failures@ == old(self).failures(completions@, completions@.len() as int),
            final(self).differs_in_entries_only(*old(self)),
            forall|i: int|
                0 <= i < old(self).entries@.len() ==> if is_completed(
                    completions@,
                    completions@.len() as int,
                    i,
                ) {
                    is_refused(
                        old(self).order,
                        old(self).errnos,
                        old(self).entries@[i],
                        #[trigger] final(self).entries@[i],
                    )
                } else {
                    final(self).entries@[i] == old(self).entries@[i]
                },
    {
        let ghost start = *self;
        let mut submissions: Vec<(usize, Entry128)> = Vec::new();
        let mut failures: Vec<(usize, i32)> = Vec::new();
        let mut n: usize = 0;
        while n < completions.len()
            invariant
                n <= completions@.len(),
                forall|k: int|
                    0 <= k < completions@.len() ==> (#[trigger] completions@[k]).1 != i32::MIN && (
                    completions@[k].1 >= 0 ==> completions@[k].0 < start.entries@.len()),
                submissions@ == start.answers(completions@, n as int),
                failures@ == start.failures(completions@, n as int),
                start.errnos.is_valid(),
                self.differs_in_entries_only(start),
                forall|i: int|
                    0 <= i < start.entries@.len() ==> if is_completed(completions@, n as int, i) {
                        is_refused(
                            start.order,
                            start.errnos,
                            start.entries@[i],
                            #[trigger] self.entries@[i],
                        )
                    } else {
                        self.entries@[i] == start.entries@[i]
                    },
            decreases completions@.len() - n,
        {
            let (entry_idx, result) = completions[n];
            let ghost before = *self;
            match self.complete(entry_idx, result) {
                Completion::Submit(submission) => {
                    submissions.push((entry_idx, submission));
                },
                Completion::Failed { errno } => {
                    failures.push((entry_idx, errno));
                },
                Completion::Unmounted => {},
            }
            proof {
                assert(completions@[n as int] == (entry_idx, result));
                assert forall|i: int| 0 <= i < start.entries@.len() implies if is_completed(
                    completions@,
                    n + 1,
                    i,
                ) {
                    is_refused(
                            start.order,
                            start.errnos,
                            start.entries@[i],
                            #[trigger] self.entries@[i],
                        )
                } else {
                    self.entries@[i] == start.entries@[i]
                } by {
                    lemma_completed_step(completions@, n as int, i);
                    assert(before.entries@[i] == before.entries@[i]);
                    if result >= 0 && entry_idx == i && is_completed(completions@, n as int, i) {
                        lemma_refused_twice(
                            start.order,
                            start.errnos,
                            start.entries@[i],
                            before.entries@[i],
                            self.entries@[i],
                        );
                    }
                }
            }
            n = n + 1;
        }
        Answers { submissions, failures }
    }

    /// Makes the submissions that register all entries, whose areas are described at
    /// `iov_ptrs`, in their order. How many of them the ring took is handed to
    /// [`RingQueue::note_registered`].
    pub fn register_all(&self, iov_ptrs: &[u64]) -> (r: Vec<Entry128>)
        requires
            self.entries@.len() <= MAX_QUEUE_DEPTH,
            iov_ptrs@.len() == self.entries@.len(),
        ensures
            r@ == Seq::new(
                self.entries@.len(),
                |i: int| self.register_entry(i, iov_ptrs@[i]),
            ),
    {
        let mut submissions: Vec<Entry128> = Vec::new();
        let mut n: usize = 0;
        while n < self.entries.len()
            invariant
                n <= self.entries@.len(),
                iov_ptrs@.len() == self.entries@.len(),
                submissions@ =~= Seq::new(
                    n as nat,
                    |i: int| self.register_entry(i, iov_ptrs@[i]),
                ),
            decreases self.entries@.len() - n,
        {
            let submission: Entry128 = self.queue_register(n, iov_ptrs[n]);
            submissions.push(submission);
            n = n + 1;
        }
        submissions
    }

    /// Takes the completions of a ring, each with its user data and result, into `buffer`, which
    /// is emptied first. Returns their number.
    pub fn drain_completions(raw: &[(u64, i32)], buffer: &mut Vec<(usize, i32)>) -> (r: usize)
        ensures
            r == raw@.len(),
            final(buffer)@ == raw@.map_values(|c: (u64, i32)| (c.0 as usize, c.1)),
    {
        buffer.clear();
        let mut n: usize = 0;
        while n < raw.len()
            invariant
                n <= raw@.len(),
                buffer@ =~= raw@.take(n as int).map_values(|c: (u64, i32)| (c.0 as usize, c.1)),
            decreases raw@.len() - n,
        {
            let (user_data, result) = raw[n];
            buffer.push((user_data as usize, result));
            n = n + 1;
        }
        assert(raw@.take(n as int) =~= raw@);
        buffer.len()
    }

    /// Gets an entry to change it.
    pub fn entry_mut(&mut self, idx: usize) -> (r: &mut RingEntry)
        requires
            idx < old(self).entries@.len(),
        ensures
            *r == old(self).entries@[idx as int],
            final(self).differs_in_entries_only(*old(self)),
            final(self).entries@ == old(self).entries@.update(idx as int, *final(r)),
    {
        &mut self.entries[idx]
    }

    /// The number of entries.
    pub fn depth(&self) -> (r: usize)
        ensures
            r == self.entries@.len(),
    {
        self.entries.len()
    }

    /// Whether submissions reach the kernel only by a system call. They do not need one while
    /// the kernel polls for them.
    pub fn submits_by_call(&self) -> (r: bool)
        ensures
            r == !self.sqpoll,
    {
        !self.sqpoll
    }
}

/// What the first `n + 1` completions bring in, against the first `n`.
proof fn lemma_completed_step(completions: Seq<(usize, i32)>, n: int, i: int)
    requires
        0 <= n < completions.len(),
    ensures
        is_completed(completions, n + 1, i) <==> is_completed(completions, n, i) || (
        completions[n].1 >= 0 && completions[n].0 == i),
{
    if is_completed(completions, n, i) {
        let k = choose|k: int|
            0 <= k < n && completions[k].1 >= 0 && #[trigger] completions[k].0 == i;
        assert(completions[k].0 == i);
    }
    if is_completed(completions, n + 1, i) {
        let k = choose|k: int|
            0 <= k < n + 1 && completions[k].1 >= 0 && #[trigger] completions[k].0 == i;
        assert(completions[k].0 == i);
    }
}

/// To refuse what is refused already changes nothing more.
proof fn lemma_refused_twice(
    o: ByteOrder,
    errnos: Errnos,
    a: RingEntry,
    b: RingEntry,
    c: RingEntry,
)
    requires
        is_refused(o, errnos, a, b),
        is_refused(o, errnos, b, c),
    ensures
        is_refused(o, errnos, a, c),
{
    wire::lemma_uint_bytes_len(o, wire::pattern32(-errnos.enosys), 4);
    assert(c.header.in_out@ =~= b.header.in_out@);
}

/// What a worker does when it has waited for completions.
#[derive(Debug, Clone, Copy, PartialEq, Eq, Structural)]
pub enum AfterWait {
    /// It handles the completions.
    Handle,
    /// It waits again.
    Retry,
    /// It ends: the filesystem has been unmounted.
    Stop,
    /// It ends with the error.
    Fail,
}

/// What a worker does about the outcome of waiting: the number of submissions, or the number
/// of the error, if it has one.
pub open spec fn after_wait_of(
    errnos: Errnos,
    outcome: Result<usize, Option<i32>>,
) -> AfterWait {
    match outcome {
        Ok(_) => AfterWait::Handle,
        Err(Some(errno)) => if errno == errnos.eintr {
            AfterWait::Retry
        } else if errno == errnos.enodev {
            AfterWait::Stop
        } else {
            AfterWait::Fail
        },
        Err(None) => AfterWait::Fail,
    }
}

/// Tells what a worker does about the outcome of waiting for completions, on a system with the
/// error numbers `errnos`.
pub fn after_wait(errnos: Errnos, outcome: Result<usize, Option<i32>>) -> (r: AfterWait)
    ensures
        r == after_wait_of(errnos, outcome),
{
    match outcome {
        Ok(_) => AfterWait::Handle,
        Err(Some(errno)) => if errno == errnos.eintr {
            AfterWait::Retry
        } else if errno == errnos.enodev {
            AfterWait::Stop
        } else {
            AfterWait::Fail
        },
        Err(None) => AfterWait::Fail,
    }
}

/// For how many completions a worker waits when it is asked to wait for `min_complete`.
pub open spec fn awaited_of(min_complete: usize) -> usize {
    if min_complete == 0 {
        1
    } else {
        min_complete
    }
}

/// Tells for how many completions a worker waits when it is asked to wait for `min_complete`:
/// for at least one.
pub fn completions_awaited(min_complete: usize) -> (r: usize)
    ensures
        r == awaited_of(min_complete),
        r == if min_complete == 0 {
            1
        } else {
            min_complete
        },
{
    if min_complete == 0 {
        1
    } else {
        min_complete
    }
}

/// Tells whether queued submissions are handed to the kernel: they are if there is any.
pub fn is_submit_due(queued: usize) -> (r: bool)
    ensures
        r == (queued > 0),
{
    queued > 0
}

/// On Linux, a device that is gone ends the loop of a reader and that of a worker, and ends
/// both well.
pub proof fn law_a_gone_device_ends_the_loops(errnos: Errnos)
    requires
        errnos.is_of_linux(),
    ensures
        errnos.enodev == 19,
        async_session::after_read_of(errnos, Err(Some(19))) is Stop,
        after_wait_of(errnos, Err(Some(19))) is Stop,
        async_session::reader_phase_of(
            errnos,
            ReaderPhase::Read,
            ReaderEvent::ReadDone(Err(Some(19))),
        ) is Finish,
        worker_step_of(errnos, WorkerStep::Wait, WorkerEvent::Waited(Err(Some(19)))) is Finish,
{
}

/// What a worker does next.
#[derive(Debug, Clone, Copy, PartialEq, Eq, Structural)]
pub enum WorkerStep {
    /// It queues the registrations of all entries.
    Register,
    /// It hands the registrations to the kernel.
    SubmitRegistrations,
    /// It looks whether the session shuts down.
    CheckShutdown,
    /// It waits for completions.
    Wait,
    /// It handles the completions, and queues the replies.
    Handle,
    /// It hands the replies to the kernel.
    SubmitReplies,
    /// It ends.
    Finish,
    /// It ends with the error of the step before.
    Fail,
}

/// What comes of a step of a worker.
#[derive(Debug, Clone, Copy, PartialEq, Eq)]
pub enum WorkerEvent {
    /// The registrations are queued, or there was no room for all of them.
    Registered(Result<(), RingFull>),
    /// The kernel has taken what was queued, or has not.
    Submitted(bool),
    /// The step that the state of the session asks for.
    Checked(ReaderStep),
    /// The wait is over: the number of submissions, or the number of the error, if it has one.
    Waited(Result<usize, Option<i32>>),
    /// The completions are handled, and as many replies are queued.
    Handled(usize),
}

/// Whether an event is what comes of a step.
pub open spec fn comes_of(step: WorkerStep, event: WorkerEvent) -> bool {
    match step {
        WorkerStep::Register => event is Registered,
        WorkerStep::SubmitRegistrations | WorkerStep::SubmitReplies => event is Submitted,
        WorkerStep::CheckShutdown => event is Checked,
        WorkerStep::Wait => event is Waited,
        WorkerStep::Handle => event is Handled,
        WorkerStep::Finish | WorkerStep::Fail => false,
    }
}

/// What a worker does after a step, when `event` came of it. An event that cannot come of the
/// step changes nothing.
pub open spec fn worker_step_of(
    errnos: Errnos,
    step: WorkerStep,
    event: WorkerEvent,
) -> WorkerStep {
    match (step, event) {
        (WorkerStep::Register, WorkerEvent::Registered(queued)) => if queued is Ok {
            WorkerStep::SubmitRegistrations
        } else {
            WorkerStep::Fail
        },
        (WorkerStep::SubmitRegistrations, WorkerEvent::Submitted(taken)) => if taken {
            WorkerStep::CheckShutdown
        } else {
            WorkerStep::Fail
        },
        (WorkerStep::CheckShutdown, WorkerEvent::Checked(next)) => match next {
            ReaderStep::Read => WorkerStep::Wait,
            ReaderStep::Stop => WorkerStep::Finish,
        },
        (WorkerStep::Wait, WorkerEvent::Waited(outcome)) => match after_wait_of(errnos, outcome) {
            AfterWait::Handle => WorkerStep::Handle,
            AfterWait::Retry => WorkerStep::CheckShutdown,
            AfterWait::Stop => WorkerStep::Finish,
            AfterWait::Fail => WorkerStep::Fail,
        },
        (WorkerStep::Handle, WorkerEvent::Handled(queued)) => if queued > 0 {
            WorkerStep::SubmitReplies
        } else {
            WorkerStep::CheckShutdown
        },
        (WorkerStep::SubmitReplies, WorkerEvent::Submitted(_)) => WorkerStep::CheckShutdown,
        _ => step,
    }
}

/// Tells what a worker does after a step, when `event` came of it, on a system with the error
/// numbers `errnos`. A worker starts with [`WorkerStep::Register`].
pub fn next_worker_step(errnos: Errnos, step: WorkerStep, event: WorkerEvent) -> (r: WorkerStep)
    ensures
        r == worker_step_of(errnos, step, event),
{
    match (step, event) {
        (WorkerStep::Register, WorkerEvent::Registered(queued)) => match queued {
            Ok(_) => WorkerStep::SubmitRegistrations,
            Err(_) => WorkerStep::Fail,
        },
        (WorkerStep::SubmitRegistrations, WorkerEvent::Submitted(taken)) => if taken {
            WorkerStep::CheckShutdown
        } else {
            WorkerStep::Fail
        },
        (WorkerStep::CheckShutdown, WorkerEvent::Checked(next)) => match next {
            ReaderStep::Read => WorkerStep::Wait,
            ReaderStep::Stop => WorkerStep::Finish,
        },
        (WorkerStep::Wait, WorkerEvent::Waited(outcome)) => match after_wait(errnos, outcome) {
            AfterWait::Handle => WorkerStep::Handle,
            AfterWait::Retry => WorkerStep::CheckShutdown,
            AfterWait::Stop => WorkerStep::Finish,
            AfterWait::Fail => WorkerStep::Fail,
        },
        (WorkerStep::Handle, WorkerEvent::Handled(queued)) => if is_submit_due(queued) {
            WorkerStep::SubmitReplies
        } else {
            WorkerStep::CheckShutdown
        },
        (WorkerStep::SubmitReplies, WorkerEvent::Submitted(_)) => WorkerStep::CheckShutdown,
        _ => step,
    }
}

/// What a worker does after a sequence of events.
pub open spec fn worker_after(errnos: Errnos, events: Seq<WorkerEvent>) -> WorkerStep
    decreases events.len(),
{
    if events.len() == 0 {
        WorkerStep::Register
    } else {
        worker_step_of(errnos, worker_after(errnos, events.drop_last()), events.last())
    }
}

/// Whether each of the events came of the step that the worker was at.
pub open spec fn is_worker_history(errnos: Errnos, events: Seq<WorkerEvent>) -> bool
    decreases events.len(),
{
    events.len() > 0 ==> {
        &&& is_worker_history(errnos, events.drop_last())
        &&& comes_of(worker_after(errnos, events.drop_last()), events.last())
    }
}

/// The first thing that a worker does is to queue the registrations, and the second to hand
/// them to the kernel, once each and before it looks at the state of the session or waits for
/// the first time. It goes on only if both went well, and ends with the error otherwise.
pub proof fn law_workers_register_before_they_wait(errnos: Errnos, events: Seq<WorkerEvent>)
    requires
        is_worker_history(errnos, events),
    ensures
        events.len() >= 1 ==> events[0] is Registered,
        events.len() >= 2 ==> (events[0] matches WorkerEvent::Registered(Ok(_))) && events[1]
            is Submitted,
        events.len() >= 3 ==> events[1] == WorkerEvent::Submitted(true) && events[2] is Checked,
        forall|i: int| 1 <= i < events.len() ==> !(#[trigger] events[i] is Registered),
        match worker_after(errnos, events) {
            WorkerStep::Register => events.len() == 0,
            WorkerStep::SubmitRegistrations => events.len() == 1 && (
            events[0] matches WorkerEvent::Registered(Ok(_))),
            WorkerStep::CheckShutdown => events.len() >= 2 && events[1]
                == WorkerEvent::Submitted(true),
            WorkerStep::Fail => events.len() >= 1,
            _ => events.len() >= 3,
        },
    decreases events.len(),
{
    if events.len() > 0 {
        let before = events.drop_last();
        law_workers_register_before_they_wait(errnos, before);
        assert forall|i: int| 0 <= i < before.len() implies events[i] == #[trigger] before[i] by {}
        assert forall|i: int| 1 <= i < events.len() implies !(
        #[trigger] events[i] is Registered) by {
            if i < before.len() {
                assert(before[i] == events[i]);
            }
        }
    }
}

/// A worker waits only right after it has found that the session does not shut down, and an
/// interrupted wait leads it to look again.
pub proof fn law_workers_check_before_they_wait(
    errnos: Errnos,
    step: WorkerStep,
    event: WorkerEvent,
)
    requires
        comes_of(step, event),
    ensures
        worker_step_of(errnos, step, event) is Wait <==> step is CheckShutdown && event
            == WorkerEvent::Checked(ReaderStep::Read),
        event == WorkerEvent::Waited(Err(Some(errnos.eintr))) ==> worker_step_of(
            errnos,
            step,
            event,
        ) is CheckShutdown,
        step is SubmitReplies ==> worker_step_of(errnos, step, event) is CheckShutdown,
{
}

/// The number of workers for a request of `num_threads`, where 0 asks for one per processor;
/// `cores` is the number of processors, if it is known. There is at least one.
pub open spec fn workers_of(num_threads: usize, cores: Option<usize>) -> usize {
    if num_threads == 0 {
        match cores {
            Some(n) if n > 0 => n,
            _ => 1,
        }
    } else {
        num_threads
    }
}

/// Tells the number of workers for a request of `num_threads`, where 0 asks for one per
/// processor; `cores` is the number of processors, if it is known.
pub fn worker_threads(num_threads: usize, cores: Option<usize>) -> (r: usize)
    ensures
        r == workers_of(num_threads, cores),
{
    if num_threads == 0 {
        match cores {
            Some(n) if n > 0 => n,
            _ => 1,
        }
    } else {
        num_threads
    }
}

/// How the workers of a session run.
#[derive(Debug)]
pub struct WorkerPlan {
    /// The numbers of the queues, one for each worker.
    pub qids: Vec<usize>,
    /// Whether the only worker runs on the thread that runs the session.
    pub runs_on_caller: bool,
    /// The number of entries of each queue.
    pub depth: usize,
    /// Room for payload in each entry.
    pub payload_sz: usize,
}

impl WorkerPlan {
    /// Whether this is the plan for a request of `num_threads` workers on `cores` processors:
    /// the queues are numbered from zero on, and a single worker needs no thread of its own.
    pub open spec fn is_for(self, num_threads: usize, cores: Option<usize>) -> bool {
        let workers = workers_of(num_threads, cores);
        &&& self.qids@ == Seq::new(workers as nat, |i: int| i as usize)
        &&& self.runs_on_caller == (workers == 1)
        &&& self.depth == QUEUE_DEPTH
        &&& self.payload_sz == MAX_WRITE_SIZE
    }
}

/// Plans the workers of a session that is asked to have `num_threads` of them, where 0 asks
/// for one per processor; `cores` is the number of processors, if it is known.
pub fn worker_plan(num_threads: usize, cores: Option<usize>) -> (r: WorkerPlan)
    ensures
        r.is_for(num_threads, cores),
{
    let workers: usize = worker_threads(num_threads, cores);
    let mut qids: Vec<usize> = Vec::new();
    let mut qid: usize = 0;
    while qid < workers
        invariant
            qid <= workers,
            qids@ =~= Seq::new(qid as nat, |i: int| i as usize),
        decreases workers - qid,
    {
        qids.push(qid);
        qid = qid + 1;
    }
    WorkerPlan {
        qids,
        runs_on_caller: workers == 1,
        depth: QUEUE_DEPTH,
        payload_sz: MAX_WRITE_SIZE,
    }
}

/// There is at least one worker, and to ask for none plans as to ask for one per processor
/// does.
pub proof fn law_no_number_means_one_worker_per_processor(plan: WorkerPlan, cores: Option<usize>)
    ensures
        workers_of(0, cores) >= 1,
        cores matches Some(n) ==> n > 0 ==> workers_of(0, cores) == n,
        cores is None ==> workers_of(0, cores) == 1,
        plan.is_for(0, cores) <==> plan.is_for(workers_of(0, cores), cores),
{
}

/// There are as many queues as workers, and their numbers are those below that, each used
/// once.
pub proof fn law_queue_numbers_are_used_once(
    plan: WorkerPlan,
    num_threads: usize,
    cores: Option<usize>,
)
    requires
        plan.is_for(num_threads, cores),
    ensures
        plan.qids@.len() == workers_of(num_threads, cores),
        plan.qids@.no_duplicates(),
        forall|qid: usize|
            #[trigger] plan.qids@.contains(qid) <==> qid < workers_of(num_threads, cores),
{
    assert forall|qid: usize| qid < workers_of(num_threads, cores) implies (
    #[trigger] plan.qids@.contains(qid)) by {
        assert(plan.qids@[qid as int] == qid);
    }
}

/// The result of a session whose workers have ended, each of whose results is `None` if the
/// worker panicked.
pub open spec fn workers_result_of<E>(
    runs_on_caller: bool,
    results: Seq<Option<Result<(), E>>>,
) -> Result<(), E> {
    if runs_on_caller {
        results[0]->0
    } else {
        Ok(())
    }
}

/// Makes the result of a session from those of its workers, which are `None` for workers that
/// panicked: that of the only worker where it ran on the thread that runs the session. The
/// session ends well otherwise, whatever its workers met.
pub fn workers_result<E>(
    runs_on_caller: bool,
    results: Vec<Option<Result<(), E>>>,
) -> (r: Result<(), E>)
    requires
        runs_on_caller ==> results@.len() == 1 && results@[0] is Some,
    ensures
        r == workers_result_of(runs_on_caller, results@),
        r == if runs_on_caller {
            results@[0]->0
        } else {
            Ok::<(), E>(())
        },
{
    if runs_on_caller {
        let mut results: Vec<Option<Result<(), E>>> = results;
        match results.pop() {
            Some(Some(result)) => result,
            _ => Ok(()),
        }
    } else {
        Ok(())
    }
}

/// What is settled before a session is mounted and run.
#[derive(Debug)]
pub struct UringMount {
    /// The options to mount with.
    pub options: Vec<MountOption>,
    /// The state that the session starts in.
    pub state: SharedSessionState,
    /// How its workers run.
    pub plan: WorkerPlan,
}

/// Settles how a filesystem is mounted with `options`, and served by `num_threads` workers;
/// `cores` is the number of processors, if it is known.
///
/// What came of mounting is handed to [`session::after_mount`].
pub fn mount_uring(
    options: Vec<MountOption>,
    num_threads: usize,
    cores: Option<usize>,
) -> (r: UringMount)
    ensures
        r.options@ == session::options_to_mount_with(options@),
        r.state == SharedSessionState::initial(
            session::acl_of(options@),
            r.state.session_owner,
            r.state.platform,
        ),
        r.state.platform.os == Os::Linux,
        r.state.platform.errnos.is_of_linux(),
        r.state.platform.errnos.is_valid(),
        r.plan.is_for(num_threads, cores),
{
    let state: SharedSessionState = SharedSessionState::new(
        session::session_acl(options.as_slice()),
    );
    UringMount {
        options: session::mount_options(options),
        state,
        plan: worker_plan(num_threads, cores),
    }
}

/// Whether the filesystem is to be destroyed when a session on io_uring in this state is
/// closed. Such a session answers every request itself, and does not initialize the
/// filesystem.
pub open spec fn closing_uring_destroys(state: SharedSessionState) -> bool {
    !state.destroyed
}

impl SharedSessionState {
    /// Closes a session on io_uring. Returns whether the filesystem is still to be destroyed;
    /// after that it counts as destroyed.
    pub fn close_uring(&mut self) -> (r: bool)
        ensures
            r == closing_uring_destroys(*old(self)),
            *final(self) == (SharedSessionState { shutdown: true, destroyed: true, ..*old(self) }),
            *final(self) == async_session::apply(*old(self), SessionEvent::Closed),
    {
        self.shutdown = true;
        let first: bool = !self.destroyed;
        self.destroyed = true;
        first
    }
}

/// A session on io_uring destroys the filesystem when it is closed for the first time, and
/// never again, whatever happens in between.
pub proof fn law_closing_uring_destroys_once(
    allowed: SessionACL,
    owner: u32,
    platform: Platform,
    state: SharedSessionState,
    after: Seq<SessionEvent>,
)
    ensures
        closing_uring_destroys(SharedSessionState::initial(allowed, owner, platform)),
        !closing_uring_destroys(
            async_session::apply_all(async_session::apply(state, SessionEvent::Closed), after),
        ),
{
    async_session::law_session_only_moves_forward(
        async_session::apply(state, SessionEvent::Closed),
        after,
    );
}

/// What an entry that was refused holds for the kernel: the error `ENOSYS`, no payload, the
/// commit identifier that the kernel gave; the identifier of the request and the rest of the
/// header are untouched.
pub proof fn law_refusal_reads_back(
    o: ByteOrder,
    errnos: Errnos,
    before: RingEntry,
    after: RingEntry,
)
    requires
        errnos.is_valid(),
        is_refused(o, errnos, before, after),
    ensures
        wire::i32_at(o, after.header.in_out@, 4) == -errnos.enosys,
        errnos.is_of_linux() ==> {
            let error = wire::i32_at(o, after.header.in_out@, 4);
            error == -38 || error == -89 || error == -90
        },
        after.header.ring_ent_in_out.payload_sz == 0,
        after.commit_id == before.header.ring_ent_in_out.commit_id,
        wire::u64_at(o, after.header.in_out@, 8) == wire::u64_at(o, before.header.in_out@, 8),
{
    let error = wire::uint_bytes(o, wire::pattern32(-errnos.enosys), 4);
    wire::lemma_pow256_values();
    wire::lemma_uint_round_trip(o, wire::pattern32(-errnos.enosys), 4);
    reveal(wire::i32_at);
    reveal(wire::u64_at);
    assert(after.header.in_out@.subrange(4, 8) =~= error);
    assert(after.header.in_out@.subrange(8, 16) =~= before.header.in_out@.subrange(8, 16));
}

/// Every request that comes in is answered by one submission, and nothing else is: there are
/// as many submissions as completions without an error.
pub proof fn law_every_request_is_answered_once(
    queue: RingQueue,
    completions: Seq<(usize, i32)>,
)
    ensures
        queue.answers(completions, completions.len() as int).len() == completions.filter(
            |c: (usize, i32)| c.1 >= 0,
        ).len(),
    decreases completions.len(),
{
    reveal_with_fuel(Seq::filter, 2);
    if completions.len() > 0 {
        let before = completions.drop_last();
        law_every_request_is_answered_once(queue, before);
        lemma_answers_of_prefix(queue, completions, before, before.len() as int);
    }
}

proof fn lemma_answers_of_prefix(
    queue: RingQueue,
    a: Seq<(usize, i32)>,
    b: Seq<(usize, i32)>,
    n: int,
)
    requires
        n <= a.len(),
        n <= b.len(),
        forall|i: int| 0 <= i < n ==> a[i] == b[i],
    ensures
        queue.answers(a, n) == queue.answers(b, n),
    decreases n,
{
    if n > 0 {
        lemma_answers_of_prefix(queue, a, b, n - 1);
    }
}

} // verus!
