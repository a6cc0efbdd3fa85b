//! Decisions of a multi-threaded session that dispatches requests asynchronously.
//!
//! Reading from the device, waiting for the filesystem and sending replies alternate with
//! the decisions here: a decision is a function from the state of the session and what came
//! back to the next state and what to do next.
use crate::async_fs::{self, FsCall};
use crate::kernel_config::{self, KernelConfig};
use crate::ll::{self, AnyRequest, InHeader};
use crate::operation::{self, ForgetOne, Op, Operation};
use crate::owned_request::{FuseReader, OwnedRequest};
use crate::platform::{Errnos, Os, Platform};
use crate::reply;
use crate::session::{self, MountOption, SessionACL, Unsupported, MAX_WRITE_SIZE};
use crate::wire::{self, ByteOrder};
use vstd::prelude::*;
use vstd::slice::slice_subrange;

verus! {

/// Size of the buffer for reading a request from the kernel.
pub const BUFFER_SIZE: usize = MAX_WRITE_SIZE + 4096;

/// The `ioctl` request that clones a `/dev/fuse` descriptor for multi-threaded operation.
pub const FUSE_DEV_IOC_CLONE: u64 = 0x8004_e500;

/// Calls `nix::unistd::geteuid`.
///
/// Trusted: it returns the effective user of this process. Which one that is depends on the
/// process, so nothing is claimed of it.
#[verifier::external_body]
fn effective_uid() -> u32 {
    nix::unistd::geteuid().as_raw()
}

/// The state that all readers of a session share.
#[derive(Debug, Clone, Copy, PartialEq, Eq, Structural)]
pub struct SharedSessionState {
    /// Whether access is restricted to the owner, to root and the owner, or not at all.
    pub allowed: SessionACL,
    /// User that launched the session.
    pub session_owner: u32,
    /// Major protocol version of the kernel.
    pub proto_major: u32,
    /// Minor protocol version of the kernel.
    pub proto_minor: u32,
    /// Whether the filesystem is initialized.
    pub initialized: bool,
    /// Whether the filesystem was destroyed.
    pub destroyed: bool,
    /// Whether all readers are to stop.
    pub shutdown: bool,
    /// The system that the session runs on.
    pub platform: Platform,
}

/// Placeholder for a mount where no way to mount is available.
#[derive(Debug)]
pub struct NoMount;

/// What to do about a request.
///
/// `B` and `N` are those of [`FsCall`].
#[derive(Debug, Clone, PartialEq, Eq)]
pub enum Step<B, N> {
    /// Nothing: it is no request.
    Ignore,
    /// Refuse it.
    Refuse {
        /// Identifier of the request.
        unique: u64,
        /// The error to answer with.
        errno: i32,
    },
    /// Initialize the filesystem.
    Init {
        /// Identifier of the request.
        unique: u64,
        /// The capabilities that the kernel offers.
        offered: u64,
        /// The configuration that the filesystem may change.
        config: KernelConfig,
    },
    /// Destroy the filesystem.
    Destroy {
        /// Identifier of the request.
        unique: u64,
    },
    /// Call the filesystem.
    Call {
        /// Identifier of the request.
        unique: u64,
        /// The call.
        call: FsCall<B, N>,
    },
}

impl<'a> View for Step<&'a [u8], Vec<ForgetOne>> {
    type V = Step<Seq<u8>, Seq<ForgetOne>>;

    open spec fn view(&self) -> Self::V {
        match *self {
            Step::Ignore => Step::Ignore,
            Step::Refuse { unique, errno } => Step::Refuse { unique, errno },
            Step::Init { unique, offered, config } => Step::Init { unique, offered, config },
            Step::Destroy { unique } => Step::Destroy { unique },
            Step::Call { unique, call } => Step::Call { unique, call: call@ },
        }
    }
}

/// The reply that a step sends at once: that of a refusal.
pub open spec fn refusal_bytes<B, N>(o: ByteOrder, step: Step<B, N>) -> Option<Seq<u8>> {
    match step {
        Step::Refuse { unique, errno } => Some(reply::error_bytes(o, unique, errno as int)),
        _ => None,
    }
}

/// Makes the reply that a step sends at once; `None` if it does not refuse the request.
pub fn refusal_reply(o: ByteOrder, step: &Step<&[u8], Vec<ForgetOne>>) -> (r: Option<Vec<u8>>)
    requires
        step@ matches Step::Refuse { unique, errno } ==> errno != i32::MIN,
    ensures
        match r {
            Some(bytes) => refusal_bytes(o, step@) == Some(bytes@),
            None => refusal_bytes(o, step@) is None,
        },
{
    match step {
        Step::Refuse { unique, errno } => Some(reply::error_reply(o, *unique, *errno)),
        _ => None,
    }
}

/// Whether an operation comes from the kernel itself, or goes through a file that was opened
/// before, so that access is not checked again.
pub open spec fn skips_acl<B, N>(op: Operation<B, N>) -> bool {
    ||| op is Init
    ||| op is Destroy
    ||| op is Read
    ||| op is ReadDir
    ||| op is ReadDirPlus
    ||| op is BatchForget
    ||| op is Forget
    ||| op is Write
    ||| op is FSync
    ||| op is FSyncDir
    ||| op is Release
    ||| op is ReleaseDir
}

/// Whether a session can speak with a kernel of this protocol version: 7.6 is the oldest.
pub open spec fn is_supported(major: u32, minor: u32) -> bool {
    major > 7 || (major == 7 && minor >= 6)
}

/// What to do about a request with the header `h` for the operation `op`, which is `None` if
/// it is not known or not whole.
pub open spec fn step_of<B, N>(
    state: SharedSessionState,
    h: InHeader,
    op: Option<Operation<B, N>>,
) -> Step<B, N> {
    match op {
        None => Step::Refuse { unique: h.unique, errno: state.platform.errnos.enosys },
        Some(op) => if !state.allowed.allows(state.session_owner, h.uid) && !skips_acl(op) {
            Step::Refuse { unique: h.unique, errno: state.platform.errnos.eacces }
        } else {
            match op {
                Operation::Init { major, minor, max_readahead, capabilities } => if is_supported(
                    major,
                    minor,
                ) {
                    Step::Init {
                        unique: h.unique,
                        offered: capabilities,
                        config: kernel_config::initial_config(capabilities, max_readahead),
                    }
                } else {
                    Step::Refuse { unique: h.unique, errno: state.platform.errnos.eproto }
                },
                Operation::Destroy => if state.initialized {
                    Step::Destroy { unique: h.unique }
                } else {
                    Step::Refuse { unique: h.unique, errno: state.platform.errnos.eio }
                },
                _ => if state.initialized && !state.destroyed {
                    match async_fs::call_of(h.nodeid, op) {
                        Some(call) => Step::Call { unique: h.unique, call },
                        None => Step::Refuse {
                            unique: h.unique,
                            errno: state.platform.errnos.enosys,
                        },
                    }
                } else {
                    Step::Refuse { unique: h.unique, errno: state.platform.errnos.eio }
                },
            }
        },
    }
}

/// What to do about the request whose raw bytes are `s`.
pub open spec fn step_for(state: SharedSessionState, o: ByteOrder, s: Seq<u8>) -> Step<
    Seq<u8>,
    Seq<ForgetOne>,
> {
    if ll::is_request(o, s) {
        let h = ll::in_header_of(o, s);
        step_of(
            state,
            h,
            operation::operation_of(state.platform.os, o, h.opcode, ll::body_of(o, s)),
        )
    } else {
        Step::Ignore
    }
}

/// The state of a session after it has decided on a request: an initialization that it goes
/// through with sets the protocol version.
pub open spec fn state_after(
    state: SharedSessionState,
    o: ByteOrder,
    s: Seq<u8>,
) -> SharedSessionState {
    let op = operation::operation_of(
        state.platform.os,
        o,
        ll::in_header_of(o, s).opcode,
        ll::body_of(o, s),
    );
    if step_for(state, o, s) is Init {
        SharedSessionState {
            proto_major: op->Some_0->Init_major,
            proto_minor: op->Some_0->Init_minor,
            ..state
        }
    } else {
        state
    }
}

/// Whether the filesystem has been asked to initialize: a session sets the protocol version
/// when it asks, whatever comes of it.
pub open spec fn is_init_called(state: SharedSessionState) -> bool {
    state.initialized || state.proto_major != 0
}

/// Whether the filesystem is to be destroyed when a session in this state is closed: it has
/// been asked to initialize, and has not been destroyed yet.
pub open spec fn closing_destroys(state: SharedSessionState) -> bool {
    is_init_called(state) && !state.destroyed
}

fn is_acl_skipped(op: &Op<'_>) -> (r: bool)
    ensures
        r == skips_acl(op@),
{
    match op {
        Operation::Init { .. }
        | Operation::Destroy
        | Operation::Read { .. }
        | Operation::ReadDir { .. }
        | Operation::ReadDirPlus { .. }
        | Operation::BatchForget { .. }
        | Operation::Forget { .. }
        | Operation::Write { .. }
        | Operation::FSync { .. }
        | Operation::FSyncDir { .. }
        | Operation::Release { .. }
        | Operation::ReleaseDir { .. } => true,
        _ => false,
    }
}

impl SharedSessionState {
    /// The state that a session of the user `owner` on the system `platform` starts in.
    pub open spec fn initial(
        allowed: SessionACL,
        owner: u32,
        platform: Platform,
    ) -> SharedSessionState {
        SharedSessionState {
            allowed,
            session_owner: owner,
            proto_major: 0,
            proto_minor: 0,
            initialized: false,
            destroyed: false,
            shutdown: false,
            platform,
        }
    }

    /// Makes the state of a new session of the user that runs this process, on the system that
    /// this code is built for.
    pub fn new(allowed: SessionACL) -> (r: SharedSessionState)
        ensures
            r == SharedSessionState::initial(allowed, r.session_owner, r.platform),
            r.platform.os == Os::Linux,
            r.platform.errnos.is_of_linux(),
            r.platform.errnos.is_valid(),
    {
        SharedSessionState::with_owner(allowed, effective_uid(), Platform::native())
    }

    /// Makes the state of a new session of the user `owner` on the system `platform`.
    pub fn with_owner(allowed: SessionACL, owner: u32, platform: Platform) -> (r:
        SharedSessionState)
        ensures
            r == SharedSessionState::initial(allowed, owner, platform),
    {
        SharedSessionState {
            allowed,
            session_owner: owner,
            proto_major: 0,
            proto_minor: 0,
            initialized: false,
            destroyed: false,
            shutdown: false,
            platform,
        }
    }

    /// Decides what to do about a request.
    ///
    /// When the step is to initialize or to destroy the filesystem, what comes of it is
    /// handed to [`SharedSessionState::finish_init`] or
    /// [`SharedSessionState::finish_destroy`].
    pub fn dispatch<'a, C>(&mut self, request: &'a OwnedRequest<C>) -> (r: Step<
        &'a [u8],
        Vec<ForgetOne>,
    >)
        ensures
            r@ == step_for(*old(self), request.byte_order(), request.bytes()),
            *final(self) == state_after(*old(self), request.byte_order(), request.bytes()),
            *final(self) == apply(
                *old(self),
                SessionEvent::Dispatch(request.byte_order(), request.bytes()),
            ),
    {
        let any: AnyRequest<'a> = match request.parse() {
            Some(any) => any,
            None => {
                return Step::Ignore;
            },
        };
        let unique: u64 = any.unique();
        let acl_ok: bool = self.allowed.is_allowed(self.session_owner, any.uid());
        let errnos: Errnos = self.platform.errnos;
        let op: Op<'a> = match any.operation(self.platform.os) {
            Some(op) => op,
            None => {
                return Step::Refuse { unique, errno: errnos.enosys };
            },
        };
        if !acl_ok && !is_acl_skipped(&op) {
            return Step::Refuse { unique, errno: errnos.eacces };
        }
        match op {
            Operation::Init { major, minor, max_readahead, capabilities } => {
                if major < 7 || (major == 7 && minor < 6) {
                    return Step::Refuse { unique, errno: errnos.eproto };
                }
                self.proto_major = major;
                self.proto_minor = minor;
                Step::Init {
                    unique,
                    offered: capabilities,
                    config: KernelConfig::new(capabilities, max_readahead),
                }
            },
            _ if !self.initialized => Step::Refuse { unique, errno: errnos.eio },
            Operation::Destroy => Step::Destroy { unique },
            _ if self.destroyed => Step::Refuse { unique, errno: errnos.eio },
            op => match async_fs::find_call(any.nodeid(), op) {
                Some(call) => Step::Call { unique, call },
                None => Step::Refuse { unique, errno: errnos.enosys },
            },
        }
    }

    /// Ends the initialization that the request `unique` started, in which the kernel offered
    /// the capabilities `offered`: `outcome` is what the filesystem made of the configuration,
    /// or its error. Returns the reply to send.
    pub fn finish_init(
        &mut self,
        o: ByteOrder,
        unique: u64,
        offered: u64,
        outcome: Result<KernelConfig, i32>,
        page_size: u32,
    ) -> (r: Vec<u8>)
        requires
            page_size > 0,
            outcome != Err::<KernelConfig, i32>(i32::MIN),
        ensures
            match outcome {
                Ok(config) => {
                    &&& r@ == reply::reply_bytes(
                        o,
                        unique,
                        0,
                        config.payload(o, offered, page_size),
                    )
                    &&& *final(self) == (SharedSessionState { initialized: true, ..*old(self) })
                },
                Err(errno) => {
                    &&& r@ == reply::error_bytes(o, unique, errno as int)
                    &&& *final(self) == *old(self)
                },
            },
            *final(self) == apply(*old(self), SessionEvent::InitFinished(outcome is Ok)),
    {
        match outcome {
            Ok(config) => {
                self.initialized = true;
                let payload: Vec<u8> = config.make_payload(o, offered, page_size);
                reply::frame_reply(o, unique, 0, payload.as_slice())
            },
            Err(errno) => reply::error_reply(o, unique, errno),
        }
    }

    /// Ends the destruction that the request `unique` started, when the filesystem has been
    /// destroyed. Returns the reply to send.
    pub fn finish_destroy(&mut self, o: ByteOrder, unique: u64) -> (r: Vec<u8>)
        ensures
            r@ == reply::reply_bytes(o, unique, 0, seq![]),
            *final(self) == (SharedSessionState { destroyed: true, ..*old(self) }),
            *final(self) == apply(*old(self), SessionEvent::DestroyFinished),
    {
        self.destroyed = true;
        reply::frame_reply(o, unique, 0, &[])
    }

    /// Signals all readers to stop.
    pub fn signal_shutdown(&mut self)
        ensures
            *final(self) == (SharedSessionState { shutdown: true, ..*old(self) }),
            *final(self) == apply(*old(self), SessionEvent::ShutdownSignalled),
    {
        self.shutdown = true;
    }

    /// Closes the session. Returns whether the filesystem is to be destroyed; after that it
    /// counts as destroyed. A filesystem that was never asked to initialize is left alone.
    pub fn close(&mut self) -> (r: bool)
        ensures
            r == closing_destroys(*old(self)),
            *final(self) == (SharedSessionState { shutdown: true, destroyed: true, ..*old(self) }),
            *final(self) == apply(*old(self), SessionEvent::Closed),
    {
        self.shutdown = true;
        let destroys: bool = (self.initialized || self.proto_major != 0) && !self.destroyed;
        self.destroyed = true;
        destroys
    }
}

/// What is settled before a session is mounted and run.
#[derive(Debug)]
pub struct AsyncMount {
    /// The options to mount with.
    pub options: Vec<MountOption>,
    /// The state that the session starts in.
    pub state: SharedSessionState,
    /// How its readers run.
    pub plan: ReaderPlan,
}

/// Settles how a filesystem is mounted with `options` on the system `platform`, and served by
/// `num_threads` readers. Only Linux supports it.
///
/// What came of mounting is handed to [`session::after_mount`].
pub fn mount_async(platform: Platform, options: Vec<MountOption>, num_threads: usize) -> (r: Result<
    AsyncMount,
    Unsupported,
>)
    ensures
        r is Ok <==> platform.os == Os::Linux,
        r matches Ok(settled) ==> {
            &&& settled.options@ == session::options_to_mount_with(options@)
            &&& settled.state == SharedSessionState::initial(
                session::acl_of(options@),
                settled.state.session_owner,
                platform,
            )
            &&& settled.plan == reader_plan_of(num_threads)
        },
{
    if platform.os != Os::Linux {
        return Err(Unsupported);
    }
    let allowed: SessionACL = session::session_acl(options.as_slice());
    Ok(
        AsyncMount {
            options: session::mount_options(options),
            state: SharedSessionState::with_owner(allowed, effective_uid(), platform),
            plan: reader_plan(num_threads),
        },
    )
}

/// Calls `<[u8]>::as_ptr`.
///
/// Trusted: it returns the address of the first byte of `buf`. Where a buffer lies depends on
/// the allocator, so nothing is claimed of the number.
#[verifier::external_body]
fn address_of(buf: &[u8]) -> usize {
    buf.as_ptr() as usize
}

/// How far the next address that is a multiple of `alignment` lies from `addr`.
pub open spec fn alignment_offset(addr: nat, alignment: nat) -> int {
    if addr % alignment == 0 {
        0
    } else {
        alignment - addr % alignment
    }
}

/// The offset of [`alignment_offset`] is the smallest that leads to an aligned address, and from
/// there nothing is left to align.
pub proof fn law_alignment_offset(addr: nat, alignment: nat)
    requires
        alignment > 0,
    ensures
        0 <= alignment_offset(addr, alignment) < alignment,
        (addr + alignment_offset(addr, alignment)) % alignment as int == 0,
        alignment_offset((addr + alignment_offset(addr, alignment)) as nat, alignment) == 0,
        forall|k: int|
            0 <= k < alignment_offset(addr, alignment) ==> #[trigger] ((addr + k)
                % alignment as int) != 0,
{
    let a = alignment as int;
    let q = addr as int / a;
    let m = addr as int % a;
    vstd::arithmetic::div_mod::lemma_fundamental_div_mod(addr as int, a);
    if m != 0 {
        assert(addr + (a - m) == a * (q + 1)) by (nonlinear_arith)
            requires
                addr == a * q + m,
        ;
        vstd::arithmetic::div_mod::lemma_mod_multiples_basic(q + 1, a);
        assert(a * (q + 1) == (q + 1) * a) by (nonlinear_arith);
        assert forall|k: int| 0 <= k < a - m implies #[trigger] ((addr + k) % a) != 0 by {
            assert(addr + k == a * q + (m + k));
            vstd::arithmetic::div_mod::lemma_fundamental_div_mod_converse(
                addr + k,
                a,
                q,
                m + k,
            );
        }
    }
}

/// Gets the part of `buf` from its first aligned address on, where `addr` is the address of
/// `buf`.
pub fn aligned_sub_buf_at(buf: &mut [u8], addr: usize, alignment: usize) -> (r: &mut [u8])
    requires
        alignment > 0,
        alignment_offset(addr as nat, alignment as nat) <= old(buf)@.len(),
    ensures
        r@ == old(buf)@.skip(alignment_offset(addr as nat, alignment as nat)),
        final(buf)@ == old(buf)@.take(alignment_offset(addr as nat, alignment as nat))
            + final(r)@,
{
    let off: usize = alignment - addr % alignment;
    if off == alignment {
        assert(buf@.skip(0) =~= buf@);
        assert(buf@.take(0) =~= seq![]);
        buf
    } else {
        let (_, rest) = buf.split_at_mut(off);
        rest
    }
}

/// Gets an aligned part of a buffer: what is left behind its first bytes, fewer than
/// `alignment`.
pub fn aligned_sub_buf(buf: &mut [u8], alignment: usize) -> (r: &mut [u8])
    requires
        0 < alignment <= old(buf)@.len() + 1,
    ensures
        exists|off: int|
            #![trigger old(buf)@.skip(off)]
            {
                &&& 0 <= off < alignment
                &&& r@ == old(buf)@.skip(off)
                &&& final(buf)@ == old(buf)@.take(off) + final(r)@
            },
{
    let addr: usize = address_of(buf);
    proof {
        law_alignment_offset(addr as nat, alignment as nat);
    }
    aligned_sub_buf_at(buf, addr, alignment)
}

/// How the readers of a session run. One of them reads the descriptor of the session on the
/// thread that runs the session.
#[derive(Debug, Clone, Copy, PartialEq, Eq, Structural)]
pub struct ReaderPlan {
    /// The number of further readers, each with a thread and a clone of the descriptor of its
    /// own.
    pub clones: usize,
    /// Whether the readers are signalled to stop when the first one has ended.
    pub signals_shutdown: bool,
}

/// The plan for a session that is asked to have `num_threads` readers: it has at least one,
/// and a single one has nobody to signal.
pub open spec fn reader_plan_of(num_threads: usize) -> ReaderPlan {
    ReaderPlan {
        clones: if num_threads == 0 {
            0
        } else {
            (num_threads - 1) as usize
        },
        signals_shutdown: num_threads > 1,
    }
}

/// Plans the readers of a session that is asked to have `num_threads` of them.
pub fn reader_plan(num_threads: usize) -> (r: ReaderPlan)
    ensures
        r == reader_plan_of(num_threads),
{
    let readers: usize = if num_threads == 0 {
        1
    } else {
        num_threads
    };
    ReaderPlan { clones: readers - 1, signals_shutdown: readers != 1 }
}

/// The first error among results, each of which is `None` if its reader panicked.
pub open spec fn first_error<E>(results: Seq<Option<Result<(), E>>>) -> Option<E>
    decreases results.len(),
{
    if results.len() == 0 {
        None
    } else {
        match results[0] {
            Some(Err(err)) => Some(err),
            _ => first_error(results.drop_first()),
        }
    }
}

/// The result of a session whose readers have ended: an error if one of them met any, and
/// that of the first reader before those of the others. A reader that panicked while the
/// session was shutting down does not matter any more.
pub open spec fn readers_result_of<E>(
    first: Result<(), E>,
    others: Seq<Option<Result<(), E>>>,
) -> Result<(), E> {
    match first {
        Err(err) => Err(err),
        Ok(_) => match first_error(others) {
            Some(err) => Err(err),
            None => Ok(()),
        },
    }
}

proof fn lemma_first_error_of_last<E>(results: Seq<Option<Result<(), E>>>)
    requires
        results.len() > 0,
    ensures
        first_error(results) == match first_error(results.drop_last()) {
            Some(err) => Some(err),
            None => match results.last() {
                Some(Err(err)) => Some(err),
                _ => None,
            },
        },
    decreases results.len(),
{
    if results.len() > 1 {
        lemma_first_error_of_last(results.drop_first());
        assert(results.drop_first().drop_last() =~= results.drop_last().drop_first());
    } else {
        assert(first_error(results.drop_first()) is None);
    }
}

/// Makes the result of a session from that of its first reader and those of the others, which
/// are `None` for readers that panicked.
pub fn readers_result<E>(
    first: Result<(), E>,
    others: Vec<Option<Result<(), E>>>,
) -> (r: Result<(), E>)
    ensures
        r == readers_result_of(first, others@),
{
    let mut rest: Vec<Option<Result<(), E>>> = others;
    let mut found: Option<E> = None;
    let ghost all = rest@;
    while rest.len() > 0
        invariant
            first_error(all) == match first_error(rest@) {
                Some(err) => Some(err),
                None => found,
            },
        decreases rest@.len(),
    {
        proof {
            lemma_first_error_of_last(rest@);
        }
        if let Some(Some(Err(err))) = rest.pop() {
            found = Some(err);
        }
    }
    match first {
        Err(err) => Err(err),
        Ok(_) => match found {
            Some(err) => Err(err),
            None => Ok(()),
        },
    }
}

/// A session ends well exactly when none of its readers met an error.
pub proof fn law_a_failed_reader_fails_the_session<E>(
    first: Result<(), E>,
    others: Seq<Option<Result<(), E>>>,
)
    ensures
        readers_result_of(first, others) is Ok <==> first is Ok && forall|i: int|
            0 <= i < others.len() ==> !(#[trigger] others[i] matches Some(Err(_))),
{
    lemma_first_error(others);
}

proof fn lemma_first_error<E>(results: Seq<Option<Result<(), E>>>)
    ensures
        first_error(results) is None <==> forall|i: int|
            0 <= i < results.len() ==> !(#[trigger] results[i] matches Some(Err(_))),
    decreases results.len(),
{
    if results.len() > 0 {
        let rest = results.drop_first();
        lemma_first_error(rest);
        assert forall|i: int| 0 <= i < rest.len() implies rest[i] == #[trigger] results[i + 1] by {}
        if first_error(rest) is None && !(results[0] matches Some(Err(_))) {
            assert forall|i: int| 0 <= i < results.len() implies !(
            #[trigger] results[i] matches Some(Err(_))) by {
                if i > 0 {
                    assert(rest[i - 1] == results[i]);
                }
            }
        }
        if first_error(rest) is Some {
            let k = choose|k: int|
                0 <= k < rest.len() && (#[trigger] rest[k] matches Some(Err(_)));
            assert(results[k + 1] == rest[k]);
        }
    }
}

/// What a reader does next.
#[derive(Debug, Clone, Copy, PartialEq, Eq, Structural)]
pub enum ReaderStep {
    /// It reads the next request.
    Read,
    /// It ends.
    Stop,
}

/// What a reader does when it has tried to read a request.
#[derive(Debug, Clone, Copy, PartialEq, Eq, Structural)]
pub enum AfterRead {
    /// It dispatches the request, which has this many bytes, and goes on.
    Dispatch(usize),
    /// It goes on.
    Retry,
    /// It ends: the filesystem has been unmounted.
    Stop,
    /// It ends with the error.
    Fail,
}

/// Whether an error of a read is no reason to stop.
pub open spec fn is_transient(errnos: Errnos, errno: i32) -> bool {
    errno == errnos.enoent || errno == errnos.eintr || errno == errnos.eagain
}

/// What a reader does about the outcome of a read: the number of bytes, or the number of the
/// error, if it has one.
pub open spec fn after_read_of(
    errnos: Errnos,
    outcome: Result<usize, Option<i32>>,
) -> AfterRead {
    match outcome {
        Ok(size) => AfterRead::Dispatch(size),
        Err(Some(errno)) => if is_transient(errnos, errno) {
            AfterRead::Retry
        } else if errno == errnos.enodev {
            AfterRead::Stop
        } else {
            AfterRead::Fail
        },
        Err(None) => AfterRead::Fail,
    }
}

/// What a reader does next in a session in this state: it reads until it is to stop.
pub open spec fn reader_step_of(state: SharedSessionState) -> ReaderStep {
    if state.shutdown {
        ReaderStep::Stop
    } else {
        ReaderStep::Read
    }
}

impl SharedSessionState {
    /// Tells what a reader does next.
    pub fn next_reader_step(&self) -> (r: ReaderStep)
        ensures
            r == reader_step_of(*self),
            r == if self.shutdown {
                ReaderStep::Stop
            } else {
                ReaderStep::Read
            },
    {
        if self.shutdown {
            ReaderStep::Stop
        } else {
            ReaderStep::Read
        }
    }
}

/// Tells what a reader does about the outcome of a read, on a system with the error numbers
/// `errnos`.
pub fn after_read(errnos: Errnos, outcome: Result<usize, Option<i32>>) -> (r: AfterRead)
    ensures
        r == after_read_of(errnos, outcome),
{
    match outcome {
        Ok(size) => AfterRead::Dispatch(size),
        Err(Some(errno)) => if errno == errnos.enoent || errno == errnos.eintr || errno
            == errnos.eagain {
            AfterRead::Retry
        } else if errno == errnos.enodev {
            AfterRead::Stop
        } else {
            AfterRead::Fail
        },
        Err(None) => AfterRead::Fail,
    }
}

/// What comes of a read.
#[derive(Debug)]
pub enum ReadStep<C> {
    /// A request to dispatch. The reader goes on.
    Dispatch(OwnedRequest<C>),
    /// Nothing. The reader goes on.
    Retry,
    /// Nothing. The reader ends: the filesystem has been unmounted.
    Stop,
    /// Nothing. The reader ends with the error.
    Fail,
}

/// A read into a buffer: what the buffer holds after it, and the outcome.
pub type Read = (Seq<u8>, Result<usize, Option<i32>>);

/// Whether a reader ends after a read.
pub open spec fn ends_reader(errnos: Errnos, read: Read) -> bool {
    after_read_of(errnos, read.1) is Stop || after_read_of(errnos, read.1) is Fail
}

/// The bytes of the request that a read brings in; `None` if it brings in none.
pub open spec fn request_read(errnos: Errnos, read: Read) -> Option<Seq<u8>> {
    match after_read_of(errnos, read.1) {
        AfterRead::Dispatch(size) => Some(read.0.take(size as int)),
        _ => None,
    }
}

/// Acts on the outcome of a read into `buf`: the request that came in owns its bytes, so that
/// the buffer is free for the next read.
pub fn read_step<C>(
    reader: &FuseReader<C>,
    errnos: Errnos,
    buf: &[u8],
    outcome: Result<usize, Option<i32>>,
) -> (r: ReadStep<C>)
    requires
        outcome matches Ok(size) ==> size <= buf@.len(),
    ensures
        match r {
            ReadStep::Dispatch(request) => {
                &&& request_read(errnos, (buf@, outcome)) == Some(request.bytes())
                &&& request.reply_sender() == reader.handle()
                &&& request.byte_order() == wire::host_order()
            },
            ReadStep::Retry => after_read_of(errnos, outcome) is Retry,
            ReadStep::Stop => after_read_of(errnos, outcome) is Stop,
            ReadStep::Fail => after_read_of(errnos, outcome) is Fail,
        },
{
    match after_read(errnos, outcome) {
        AfterRead::Dispatch(size) => {
            assert(buf@.subrange(0, size as int) =~= buf@.take(size as int));
            ReadStep::Dispatch(reader.make_owned_request(slice_subrange(buf, 0, size)))
        },
        AfterRead::Retry => ReadStep::Retry,
        AfterRead::Stop => ReadStep::Stop,
        AfterRead::Fail => ReadStep::Fail,
    }
}

/// What a reader is at.
#[derive(Debug, Clone, Copy, PartialEq, Eq, Structural)]
pub enum ReaderPhase {
    /// It looks whether the session shuts down.
    CheckShutdown,
    /// It reads a request.
    Read,
    /// It dispatches the request that it has read.
    Dispatch,
    /// It ends.
    Finish,
    /// It ends with the error of the read.
    Fail,
}

/// What comes of what a reader is at.
#[derive(Debug, Clone, Copy, PartialEq, Eq)]
pub enum ReaderEvent {
    /// The step that the state of the session asks for.
    Checked(ReaderStep),
    /// The read is over: the number of bytes, or the number of the error, if it has one.
    ReadDone(Result<usize, Option<i32>>),
    /// The request is dispatched.
    Dispatched,
}

/// Whether an event is what comes of what a reader is at.
pub open spec fn comes_of_phase(phase: ReaderPhase, event: ReaderEvent) -> bool {
    match phase {
        ReaderPhase::CheckShutdown => event is Checked,
        ReaderPhase::Read => event is ReadDone,
        ReaderPhase::Dispatch => event is Dispatched,
        ReaderPhase::Finish | ReaderPhase::Fail => false,
    }
}

/// What a reader is at next, when `event` came of what it was at. An event that cannot come of
/// that changes nothing.
pub open spec fn reader_phase_of(
    errnos: Errnos,
    phase: ReaderPhase,
    event: ReaderEvent,
) -> ReaderPhase {
    match (phase, event) {
        (ReaderPhase::CheckShutdown, ReaderEvent::Checked(next)) => match next {
            ReaderStep::Read => ReaderPhase::Read,
            ReaderStep::Stop => ReaderPhase::Finish,
        },
        (ReaderPhase::Read, ReaderEvent::ReadDone(outcome)) => match after_read_of(
            errnos,
            outcome,
        ) {
            AfterRead::Dispatch(_) => ReaderPhase::Dispatch,
            AfterRead::Retry => ReaderPhase::CheckShutdown,
            AfterRead::Stop => ReaderPhase::Finish,
            AfterRead::Fail => ReaderPhase::Fail,
        },
        (ReaderPhase::Dispatch, ReaderEvent::Dispatched) => ReaderPhase::CheckShutdown,
        _ => phase,
    }
}

/// Tells what a reader is at next, when `event` came of what it was at, on a system with the
/// error numbers `errnos`. A reader starts with [`ReaderPhase::CheckShutdown`].
pub fn next_reader_phase(errnos: Errnos, phase: ReaderPhase, event: ReaderEvent) -> (r:
    ReaderPhase)
    ensures
        r == reader_phase_of(errnos, phase, event),
{
    match (phase, event) {
        (ReaderPhase::CheckShutdown, ReaderEvent::Checked(next)) => match next {
            ReaderStep::Read => ReaderPhase::Read,
            ReaderStep::Stop => ReaderPhase::Finish,
        },
        (ReaderPhase::Read, ReaderEvent::ReadDone(outcome)) => match after_read(errnos, outcome) {
            AfterRead::Dispatch(_) => ReaderPhase::Dispatch,
            AfterRead::Retry => ReaderPhase::CheckShutdown,
            AfterRead::Stop => ReaderPhase::Finish,
            AfterRead::Fail => ReaderPhase::Fail,
        },
        (ReaderPhase::Dispatch, ReaderEvent::Dispatched) => ReaderPhase::CheckShutdown,
        _ => phase,
    }
}

/// What a reader is at after a sequence of events.
pub open spec fn reader_after(errnos: Errnos, events: Seq<ReaderEvent>) -> ReaderPhase
    decreases events.len(),
{
    if events.len() == 0 {
        ReaderPhase::CheckShutdown
    } else {
        reader_phase_of(errnos, reader_after(errnos, events.drop_last()), events.last())
    }
}

/// Whether each of the events came of what the reader was at.
pub open spec fn is_reader_history(errnos: Errnos, events: Seq<ReaderEvent>) -> bool
    decreases events.len(),
{
    events.len() > 0 ==> {
        &&& is_reader_history(errnos, events.drop_last())
        &&& comes_of_phase(reader_after(errnos, events.drop_last()), events.last())
    }
}

/// A reader reads only right after it has found that the session does not shut down, and it
/// dispatches only what it has just read.
pub proof fn law_readers_check_before_they_read(errnos: Errnos, events: Seq<ReaderEvent>)
    requires
        is_reader_history(errnos, events),
    ensures
        forall|i: int|
            0 <= i < events.len() && (#[trigger] events[i] is ReadDone) ==> i > 0 && events[i - 1]
                == ReaderEvent::Checked(ReaderStep::Read),
        forall|i: int|
            0 <= i < events.len() && (#[trigger] events[i] is Dispatched) ==> i > 0 && (events[i
                - 1] matches ReaderEvent::ReadDone(Ok(_))),
        reader_after(errnos, events) is Read ==> events.len() > 0 && events.last()
            == ReaderEvent::Checked(ReaderStep::Read),
        reader_after(errnos, events) is Dispatch ==> events.len() > 0 && (
        events.last() matches ReaderEvent::ReadDone(Ok(_))),
    decreases events.len(),
{
    if events.len() > 0 {
        let before = events.drop_last();
        law_readers_check_before_they_read(errnos, before);
        assert(before.len() > 0 ==> before.last() == events[events.len() - 2]);
        assert forall|i: int|
            0 <= i < events.len() && (#[trigger] events[i] is ReadDone) implies i > 0 && events[i
            - 1] == ReaderEvent::Checked(ReaderStep::Read) by {
            if i < before.len() {
                assert(before[i] == events[i]);
                assert(before[i - 1] == events[i - 1]);
            }
        }
        assert forall|i: int|
            0 <= i < events.len() && (#[trigger] events[i] is Dispatched) implies i > 0 && (
        events[i - 1] matches ReaderEvent::ReadDone(Ok(_))) by {
            if i < before.len() {
                assert(before[i] == events[i]);
                assert(before[i - 1] == events[i - 1]);
            }
        }
    }
}

/// A reader looks again whether the session shuts down after every request that it has
/// dispatched and after every transient error.
pub proof fn law_readers_check_again(errnos: Errnos, errno: i32)
    ensures
        reader_phase_of(errnos, ReaderPhase::Dispatch, ReaderEvent::Dispatched) is CheckShutdown,
        is_transient(errnos, errno) ==> reader_phase_of(
            errnos,
            ReaderPhase::Read,
            ReaderEvent::ReadDone(Err(Some(errno))),
        ) is CheckShutdown,
{
}

/// The requests that a reader dispatches for a sequence of reads, in their order. Nothing that
/// follows a read that ends the reader counts.
pub open spec fn requests_of(errnos: Errnos, reads: Seq<Read>) -> Seq<Seq<u8>>
    decreases reads.len(),
{
    if reads.len() == 0 {
        seq![]
    } else {
        let before = reads.drop_last();
        let earlier = requests_of(errnos, before);
        if exists|i: int| 0 <= i < before.len() && ends_reader(errnos, #[trigger] before[i]) {
            earlier
        } else {
            match request_read(errnos, reads.last()) {
                Some(bytes) => earlier.push(bytes),
                None => earlier,
            }
        }
    }
}

/// A reader dispatches exactly one request for each read that succeeds, in the order of the
/// reads and with the bytes that the read brought in, and none for a read that fails. What it
/// has dispatched stays as it is, whatever is read later.
pub proof fn law_one_request_per_successful_read(errnos: Errnos, reads: Seq<Read>)
    requires
        forall|i: int| 0 <= i < reads.len() - 1 ==> !ends_reader(errnos, #[trigger] reads[i]),
    ensures
        requests_of(errnos, reads) == reads.filter(|read: Read| read.1 is Ok).map_values(
            |read: Read| read.0.take(read.1->Ok_0 as int),
        ),
        reads.len() > 0 ==> requests_of(errnos, reads.drop_last()).is_prefix_of(
            requests_of(errnos, reads),
        ),
    decreases reads.len(),
{
    reveal(Seq::filter);
    let ok = |read: Read| read.1 is Ok;
    let bytes = |read: Read| read.0.take(read.1->Ok_0 as int);
    if reads.len() > 0 {
        let before = reads.drop_last();
        assert forall|i: int| 0 <= i < before.len() implies !ends_reader(
            errnos,
            #[trigger] before[i],
        ) by {
            assert(before[i] == reads[i]);
        }
        law_one_request_per_successful_read(errnos, before);
        if ok(reads.last()) {
            assert(reads.filter(ok) =~= before.filter(ok).push(reads.last()));
            assert(before.filter(ok).push(reads.last()).map_values(bytes) =~= before.filter(
                ok,
            ).map_values(bytes).push(bytes(reads.last())));
        } else {
            assert(reads.filter(ok) =~= before.filter(ok));
        }
    }
}

/// What to do next to clone the descriptor of a session.
#[derive(Debug, Clone, Copy, PartialEq, Eq, Structural)]
pub enum CloneStep {
    /// Give up: only Linux supports it.
    Unsupported,
    /// Open `/dev/fuse`.
    Open,
    /// Give up with the error of the last system call.
    Fail,
    /// Attach the new descriptor to the session by the `ioctl` request.
    Attach {
        /// The new descriptor.
        fd: i32,
        /// Number of the request.
        request: u64,
    },
    /// Close the new descriptor, and give up with the error of the system call before.
    CloseAndFail {
        /// The new descriptor.
        fd: i32,
    },
    /// The new descriptor is a clone.
    Done {
        /// The new descriptor.
        fd: i32,
    },
}

/// How the descriptor of a session is cloned on the system `os`: where it cannot be, and
/// otherwise first of all by opening another.
pub open spec fn clone_start_of(os: Os) -> CloneStep {
    if os == Os::Linux {
        CloneStep::Open
    } else {
        CloneStep::Unsupported
    }
}

/// What follows when opening `/dev/fuse` has given `new_fd`.
pub open spec fn after_clone_open_of(new_fd: i32) -> CloneStep {
    if new_fd < 0 {
        CloneStep::Fail
    } else {
        CloneStep::Attach { fd: new_fd, request: FUSE_DEV_IOC_CLONE }
    }
}

/// What follows when attaching `new_fd` to the session has given `result`.
pub open spec fn after_clone_attach_of(new_fd: i32, result: i32) -> CloneStep {
    if result < 0 {
        CloneStep::CloseAndFail { fd: new_fd }
    } else {
        CloneStep::Done { fd: new_fd }
    }
}

/// Starts to clone the descriptor of a session on the system `os`.
pub fn clone_fuse_fd(os: Os) -> (r: CloneStep)
    ensures
        r == clone_start_of(os),
        r == if os == Os::Linux {
            CloneStep::Open
        } else {
            CloneStep::Unsupported
        },
{
    if os == Os::Linux {
        CloneStep::Open
    } else {
        CloneStep::Unsupported
    }
}

/// Goes on when `/dev/fuse` has been opened, which gave `new_fd`.
pub fn clone_after_open(new_fd: i32) -> (r: CloneStep)
    ensures
        r == after_clone_open_of(new_fd),
        r == if new_fd < 0 {
            CloneStep::Fail
        } else {
            CloneStep::Attach { fd: new_fd, request: FUSE_DEV_IOC_CLONE }
        },
        new_fd >= 0 ==> r == (CloneStep::Attach { fd: new_fd, request: 0x8004_e500 }),
{
    if new_fd < 0 {
        CloneStep::Fail
    } else {
        CloneStep::Attach { fd: new_fd, request: FUSE_DEV_IOC_CLONE }
    }
}

/// Goes on when it has been tried to attach `new_fd` to the session, which gave `result`.
pub fn clone_after_attach(new_fd: i32, result: i32) -> (r: CloneStep)
    ensures
        r == after_clone_attach_of(new_fd, result),
        r == if result < 0 {
            CloneStep::CloseAndFail { fd: new_fd }
        } else {
            CloneStep::Done { fd: new_fd }
        },
{
    if result < 0 {
        CloneStep::CloseAndFail { fd: new_fd }
    } else {
        CloneStep::Done { fd: new_fd }
    }
}

/// The identifier that a step answers, if it answers a request.
pub open spec fn step_unique<B, N>(step: Step<B, N>) -> Option<u64> {
    match step {
        Step::Ignore => None,
        Step::Refuse { unique, .. } => Some(unique),
        Step::Init { unique, .. } => Some(unique),
        Step::Destroy { unique } => Some(unique),
        Step::Call { unique, .. } => Some(unique),
    }
}

/// Every request is acted on, in the name of its own identifier; what is no request is
/// ignored.
pub proof fn law_steps_carry_the_identifier(state: SharedSessionState, o: ByteOrder, s: Seq<u8>)
    ensures
        step_unique(step_for(state, o, s)) == if ll::is_request(o, s) {
            Some(ll::in_header_of(o, s).unique)
        } else {
            None
        },
{
}

/// A refused request is answered with a bare header: it carries the identifier that the
/// request carried, and one of the errors `ENOSYS`, `EACCES`, `EPROTO` and `EIO`, negated.
pub proof fn law_refused_requests_are_answered(
    state: SharedSessionState,
    o: ByteOrder,
    s: Seq<u8>,
)
    requires
        step_for(state, o, s) is Refuse,
        state.platform.errnos.is_valid(),
    ensures
        refusal_bytes(o, step_for(state, o, s)) matches Some(reply) && {
            &&& reply.len() == reply::OUT_HEADER_SIZE
            &&& wire::u32_at(o, reply, 0) == reply::OUT_HEADER_SIZE
            &&& wire::u64_at(o, reply, 8) == wire::u64_at(o, s, 8)
            &&& {
                let error = wire::i32_at(o, reply, 4);
                let errnos = state.platform.errnos;
                error == -errnos.enosys || error == -errnos.eacces || error == -errnos.eproto
                    || error == -errnos.eio
            }
            &&& step_for(state, o, s) matches Step::Refuse { unique, errno } && wire::i32_at(
                o,
                reply,
                4,
            ) == -errno
        },
{
    if let Step::Refuse { unique, errno } = step_for(state, o, s) {
        reply::law_error_reply_reads_back(o, unique, errno);
    }
}

/// The error number that the kernel reads in the reply to a request, if it is refused.
pub open spec fn error_answered(state: SharedSessionState, o: ByteOrder, s: Seq<u8>) -> Option<
    i32,
> {
    match refusal_bytes(o, step_for(state, o, s)) {
        Some(reply) => Some(wire::i32_at(o, reply, 4)),
        None => None,
    }
}

/// What the kernel reads in the reply to a refused request on Linux: -13 (`EACCES`) for a user
/// that is not allowed, -5 (`EIO`) outside the life of the filesystem, the number of `EPROTO`
/// for a kernel that is too old, and that of `ENOSYS` for what is not known or not served.
pub proof fn law_refusals_on_linux(state: SharedSessionState, o: ByteOrder, s: Seq<u8>)
    requires
        ll::is_request(o, s),
        state.platform.errnos.is_of_linux(),
    ensures
        ({
            let h = ll::in_header_of(o, s);
            let error = error_answered(state, o, s);
            let allowed = state.allowed.allows(state.session_owner, h.uid);
            let not_known = error == Some(-38i32) || error == Some(-89i32) || error == Some(
                -90i32,
            );
            match operation::operation_of(state.platform.os, o, h.opcode, ll::body_of(o, s)) {
                None => not_known,
                Some(op) => if !allowed && !skips_acl(op) {
                    error == Some(-13i32)
                } else if let Operation::Init { major, minor, .. } = op {
                    if is_supported(major, minor) {
                        error is None
                    } else {
                        error == Some(-71i32) || error == Some(-86i32)
                    }
                } else if !state.initialized || (state.destroyed && !(op is Destroy)) {
                    error == Some(-5i32)
                } else if op is Destroy || async_fs::call_of(h.nodeid, op) is Some {
                    error is None
                } else {
                    not_known
                },
            }
        }),
{
    if let Step::Refuse { unique, errno } = step_for(state, o, s) {
        reply::law_error_reply_reads_back(o, unique, errno);
    }
}

/// A user that is not allowed is refused with `EACCES`, whatever the state of the session,
/// unless the operation skips the check.
pub proof fn law_others_are_refused<B, N>(
    state: SharedSessionState,
    h: InHeader,
    op: Operation<B, N>,
)
    requires
        !state.allowed.allows(state.session_owner, h.uid),
        !skips_acl(op),
    ensures
        step_of(state, h, Some(op)) == (Step::<B, N>::Refuse {
            unique: h.unique,
            errno: state.platform.errnos.eacces,
        }),
{
}

/// A user that is allowed is never refused with `EACCES`.
pub proof fn law_allowed_users_are_not_refused_access<B, N>(
    state: SharedSessionState,
    h: InHeader,
    op: Option<Operation<B, N>>,
)
    requires
        state.allowed.allows(state.session_owner, h.uid),
        state.platform.errnos.is_valid(),
    ensures
        step_of(state, h, op) != (Step::<B, N>::Refuse {
            unique: h.unique,
            errno: state.platform.errnos.eacces,
        }),
{
}

/// An operation that is not known, or whose arguments are missing, is refused with `ENOSYS`,
/// whoever asks for it and whatever the state of the session.
pub proof fn law_unknown_operations_are_refused(
    state: SharedSessionState,
    o: ByteOrder,
    s: Seq<u8>,
)
    requires
        ll::is_request(o, s),
        operation::operation_of(
            state.platform.os,
            o,
            ll::in_header_of(o, s).opcode,
            ll::body_of(o, s),
        ) is None,
    ensures
        step_for(state, o, s) == (Step::<Seq<u8>, Seq<ForgetOne>>::Refuse {
            unique: ll::in_header_of(o, s).unique,
            errno: state.platform.errnos.enosys,
        }),
{
}

/// The filesystem is called only between its initialization and its destruction.
pub proof fn law_calls_need_a_living_filesystem<B, N>(
    state: SharedSessionState,
    h: InHeader,
    op: Option<Operation<B, N>>,
)
    ensures
        step_of(state, h, op) is Call ==> state.initialized && !state.destroyed,
        step_of(state, h, op) is Destroy ==> state.initialized,
{
}

/// Outside the life of the filesystem, every operation of an allowed user but those that
/// start and end it is refused with `EIO`.
pub proof fn law_operations_outside_life_are_refused<B, N>(
    state: SharedSessionState,
    h: InHeader,
    op: Operation<B, N>,
)
    requires
        state.allowed.allows(state.session_owner, h.uid) || skips_acl(op),
        !(op is Init),
        !state.initialized || (state.destroyed && !(op is Destroy)),
    ensures
        step_of(state, h, Some(op)) == (Step::<B, N>::Refuse {
            unique: h.unique,
            errno: state.platform.errnos.eio,
        }),
{
}

/// Something that changes the state of a session.
pub enum SessionEvent {
    /// The request with these bytes is decided on.
    Dispatch(ByteOrder, Seq<u8>),
    /// The filesystem has been initialized, or has failed to.
    InitFinished(bool),
    /// The filesystem has been destroyed for a request.
    DestroyFinished,
    /// The readers are signalled to stop.
    ShutdownSignalled,
    /// The session is closed, of whichever sort it is.
    Closed,
}

/// The state after an event, as the functions above change it.
pub open spec fn apply(state: SharedSessionState, event: SessionEvent) -> SharedSessionState {
    match event {
        SessionEvent::Dispatch(o, s) => state_after(state, o, s),
        SessionEvent::InitFinished(ok) => if ok {
            SharedSessionState { initialized: true, ..state }
        } else {
            state
        },
        SessionEvent::DestroyFinished => SharedSessionState { destroyed: true, ..state },
        SessionEvent::ShutdownSignalled => SharedSessionState { shutdown: true, ..state },
        SessionEvent::Closed => SharedSessionState { shutdown: true, destroyed: true, ..state },
    }
}

/// The state after a sequence of events.
pub open spec fn apply_all(
    state: SharedSessionState,
    events: Seq<SessionEvent>,
) -> SharedSessionState
    decreases events.len(),
{
    if events.len() == 0 {
        state
    } else {
        apply(apply_all(state, events.drop_last()), events.last())
    }
}

/// Whatever happens in a session, its owner, who may use it and the system that it runs on stay
/// the same, and none of the marks `initialized`, `destroyed` and `shutdown` is ever taken back.
pub proof fn law_session_only_moves_forward(state: SharedSessionState, events: Seq<SessionEvent>)
    ensures
        ({
            let after = apply_all(state, events);
            &&& after.allowed == state.allowed
            &&& after.session_owner == state.session_owner
            &&& after.platform == state.platform
            &&& state.initialized ==> after.initialized
            &&& state.destroyed ==> after.destroyed
            &&& state.shutdown ==> after.shutdown
        }),
    decreases events.len(),
{
    if events.len() > 0 {
        law_session_only_moves_forward(state, events.drop_last());
    }
}

/// In a session that starts afresh, a call into the filesystem, or its destruction for a
/// request, comes only after an initialization that went well. That the session is closed
/// destroys it only after it has been asked to initialize.
pub proof fn law_init_comes_first(
    allowed: SessionACL,
    owner: u32,
    platform: Platform,
    events: Seq<SessionEvent>,
    o: ByteOrder,
    s: Seq<u8>,
)
    ensures
        ({
            let step = step_for(
                apply_all(SharedSessionState::initial(allowed, owner, platform), events),
                o,
                s,
            );
            step is Call || step is Destroy ==> events.contains(SessionEvent::InitFinished(true))
        }),
        closing_destroys(apply_all(SharedSessionState::initial(allowed, owner, platform), events))
            ==> init_started(SharedSessionState::initial(allowed, owner, platform), events)
            || events.contains(SessionEvent::InitFinished(true)),
{
    lemma_initialized_by_event(allowed, owner, platform, events);
    lemma_version_by_init(SharedSessionState::initial(allowed, owner, platform), events);
}

/// A session that starts afresh, in which an initialization ends only where one was started,
/// destroys the filesystem when it is closed exactly if it has asked it to initialize and it
/// has not been destroyed before.
pub proof fn law_closing_destroys_what_was_initialized(
    allowed: SessionACL,
    owner: u32,
    platform: Platform,
    events: Seq<SessionEvent>,
)
    requires
        is_history(SharedSessionState::initial(allowed, owner, platform), events),
    ensures
        ({
            let start = SharedSessionState::initial(allowed, owner, platform);
            let state = apply_all(start, events);
            closing_destroys(state) <==> init_started(start, events) && !state.destroyed
        }),
{
    let start = SharedSessionState::initial(allowed, owner, platform);
    lemma_started_sessions_are_supported(start, events);
    lemma_version_by_init(start, events);
}

proof fn lemma_version_by_init(start: SharedSessionState, events: Seq<SessionEvent>)
    requires
        start.proto_major == 0,
    ensures
        apply_all(start, events).proto_major != 0 ==> init_started(start, events),
    decreases events.len(),
{
    if events.len() > 0 {
        lemma_version_by_init(start, events.drop_last());
    }
}

proof fn lemma_initialized_by_event(
    allowed: SessionACL,
    owner: u32,
    platform: Platform,
    events: Seq<SessionEvent>,
)
    ensures
        apply_all(SharedSessionState::initial(allowed, owner, platform), events).initialized
            ==> events.contains(SessionEvent::InitFinished(true)),
    decreases events.len(),
{
    if events.len() > 0 {
        let before = events.drop_last();
        lemma_initialized_by_event(allowed, owner, platform, before);
        if before.contains(SessionEvent::InitFinished(true)) {
            let k = choose|k: int|
                0 <= k < before.len() && before[k] == SessionEvent::InitFinished(true);
            assert(events[k] == SessionEvent::InitFinished(true));
        } else {
            assert(events[events.len() - 1] == events.last());
        }
    }
}

/// Whether one of the events decided to initialize the filesystem, in a session that was in
/// `state` before them.
pub open spec fn init_started(state: SharedSessionState, events: Seq<SessionEvent>) -> bool
    decreases events.len(),
{
    if events.len() == 0 {
        false
    } else {
        ||| init_started(state, events.drop_last())
        ||| (events.last() matches SessionEvent::Dispatch(o, s) && step_for(
            apply_all(state, events.drop_last()),
            o,
            s,
        ) is Init)
    }
}

/// Whether the initialization of the filesystem ends only where it was started before.
pub open spec fn is_history(state: SharedSessionState, events: Seq<SessionEvent>) -> bool
    decreases events.len(),
{
    if events.len() == 0 {
        true
    } else {
        &&& is_history(state, events.drop_last())
        &&& events.last() is InitFinished ==> init_started(state, events.drop_last())
    }
}

/// A session that starts afresh is initialized only for a kernel whose protocol version it
/// supports, and the version that it holds then is a supported one.
pub proof fn law_initialized_sessions_are_supported(
    allowed: SessionACL,
    owner: u32,
    platform: Platform,
    events: Seq<SessionEvent>,
)
    requires
        is_history(SharedSessionState::initial(allowed, owner, platform), events),
    ensures
        ({
            let state = apply_all(SharedSessionState::initial(allowed, owner, platform), events);
            state.initialized ==> is_supported(state.proto_major, state.proto_minor)
        }),
{
    lemma_started_sessions_are_supported(
        SharedSessionState::initial(allowed, owner, platform),
        events,
    );
}

proof fn lemma_started_sessions_are_supported(
    start: SharedSessionState,
    events: Seq<SessionEvent>,
)
    requires
        is_history(start, events),
        !start.initialized,
    ensures
        ({
            let state = apply_all(start, events);
            &&& state.initialized ==> init_started(start, events)
            &&& init_started(start, events) ==> is_supported(state.proto_major, state.proto_minor)
        }),
    decreases events.len(),
{
    if events.len() > 0 {
        lemma_started_sessions_are_supported(start, events.drop_last());
    }
}

/// Once a request or a closing has destroyed the filesystem, no later closing does it again,
/// whatever happens before and in between.
pub proof fn law_closing_destroys_once(
    state: SharedSessionState,
    before: Seq<SessionEvent>,
    end: SessionEvent,
    after: Seq<SessionEvent>,
)
    requires
        end is DestroyFinished || end is Closed,
    ensures
        !closing_destroys(apply_all(apply(apply_all(state, before), end), after)),
{
    law_session_only_moves_forward(apply(apply_all(state, before), end), after);
}

/// A reader dispatches whatever it reads, tries again after a transient error, and ends
/// without one when the device is gone; it fails for every other error.
pub proof fn law_readers_survive_transient_errors(
    errnos: Errnos,
    outcome: Result<usize, Option<i32>>,
)
    requires
        errnos.is_valid(),
    ensures
        outcome matches Ok(size) ==> after_read_of(errnos, outcome) == AfterRead::Dispatch(size),
        after_read_of(errnos, outcome) is Retry <==> (outcome matches Err(Some(errno))
            && is_transient(errnos, errno)),
        after_read_of(errnos, outcome) is Stop <==> (outcome matches Err(Some(errno)) && errno
            == errnos.enodev),
        after_read_of(errnos, outcome) is Fail <==> outcome is Err && !(
        outcome->Err_0 matches Some(errno) && (is_transient(errnos, errno) || errno
            == errnos.enodev)),
{
}

} // verus!
