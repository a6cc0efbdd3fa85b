//! What holds of a session as a whole, from the bytes of a request to the step that it leads to:
//! which requests are refused and why, what an initialization agrees on, what changes the state
//! of a session, and how its readers go from phase to phase.
use crate::async_fs;
use crate::async_session::{
    self, AfterRead, CloneStep, Read, ReaderEvent, ReaderPhase, ReaderStep, SessionEvent,
    SharedSessionState, Step,
};
use crate::kernel_config;
use crate::ll;
use crate::operation::{self, ForgetOne, Operation};
use crate::operation_laws;
use crate::platform::{Errnos, Os, Platform};
use crate::reply;
use crate::session::SessionACL;
use crate::wire::{self, ByteOrder};
use vstd::prelude::*;

verus! {

/// A step as contracts speak of it.
pub type StepView = Step<Seq<u8>, Seq<ForgetOne>>;

/// A kernel is refused with `EPROTO` exactly if it speaks a protocol before 7.6, whoever asks
/// and whatever the state of the session; every other one is answered by initializing the
/// filesystem. The four numbers of an initialization follow the header of the request: the two
/// of the version, the largest readahead and the capabilities. The session notes the version of
/// a kernel that it goes on with, and nothing else; it notes nothing of one that it refuses.
pub proof fn law_old_kernels_are_refused(state: SharedSessionState, o: ByteOrder, s: Seq<u8>)
    requires
        56 <= wire::u32_at(o, s, 0) <= s.len(),
        wire::u32_at(o, s, 4) == 26,
    ensures
        ({
            let major = wire::u32_at(o, s, 40);
            let minor = wire::u32_at(o, s, 44);
            let step = async_session::step_for(state, o, s);
            let after = async_session::state_after(state, o, s);
            &&& major < 7 || (major == 7 && minor < 6) <==> step == (StepView::Refuse {
                unique: wire::u64_at(o, s, 8),
                errno: state.platform.errnos.eproto,
            })
            &&& major > 7 || (major == 7 && minor >= 6) <==> step is Init
            &&& major < 7 || (major == 7 && minor < 6) ==> after == state
            &&& step matches Step::Init { unique, offered, config } ==> {
                &&& unique == wire::u64_at(o, s, 8)
                &&& offered == wire::u32_at(o, s, 52)
                &&& config.capabilities == wire::u32_at(o, s, 52)
                &&& config.requested & 0xffff_ffff_ffbf_ffff == 33
                &&& config.requested & 0x40_0000 == wire::u32_at(o, s, 52) & 0x40_0000
                &&& config.max_readahead == wire::u32_at(o, s, 48)
                &&& config.max_background == 16
                &&& config.congestion_threshold is None
                &&& config.max_write == 16777216
                &&& config.time_gran == 1
                &&& after == (SharedSessionState {
                    proto_major: major,
                    proto_minor: minor,
                    ..state
                })
            }
        }),
{
    let end = wire::u32_at(o, s, 0) as int;
    wire::lemma_read_in_part(o, s, 40, end, 0);
    wire::lemma_read_in_part(o, s, 40, end, 4);
    wire::lemma_read_in_part(o, s, 40, end, 8);
    wire::lemma_read_in_part(o, s, 40, end, 12);
    kernel_config::law_initial_config(
        wire::u32_at(o, s, 52) as u64,
        wire::u32_at(o, s, 48),
    );
}

/// The filesystem is initialized for a request only if that asks for it, from a kernel that is
/// not too old, and `EPROTO` is answered only to such a request from one that is.
pub proof fn law_only_initializations_initialize(
    state: SharedSessionState,
    o: ByteOrder,
    s: Seq<u8>,
)
    ensures
        async_session::step_for(state, o, s) is Init ==> {
            &&& 56 <= wire::u32_at(o, s, 0) <= s.len()
            &&& wire::u32_at(o, s, 4) == 26
            &&& wire::u32_at(o, s, 40) > 7 || (wire::u32_at(o, s, 40) == 7 && wire::u32_at(o, s, 44)
                >= 6)
        },
        state.platform.errnos.is_valid() ==> {
            async_session::step_for(state, o, s) matches Step::Refuse { unique, errno } ==> errno
                == state.platform.errnos.eproto ==> {
                &&& 56 <= wire::u32_at(o, s, 0) <= s.len()
                &&& wire::u32_at(o, s, 4) == 26
                &&& wire::u32_at(o, s, 40) < 7 || (wire::u32_at(o, s, 40) == 7 && wire::u32_at(
                    o,
                    s,
                    44,
                ) < 6)
            }
        },
{
    if ll::is_request(o, s) && wire::u32_at(o, s, 4) == 26 {
        let end = wire::u32_at(o, s, 0) as int;
        if end >= 56 {
            wire::lemma_read_in_part(o, s, 40, end, 0);
            wire::lemma_read_in_part(o, s, 40, end, 4);
        } else {
            operation_laws::law_short_arguments_are_not_read(
                state.platform.os,
                o,
                26,
                ll::body_of(o, s),
            );
        }
    }
}

/// Bytes are ignored exactly if they do not start with a whole request. Every request is acted on
/// under the identifier that it carries.
pub proof fn law_only_requests_are_acted_on(state: SharedSessionState, o: ByteOrder, s: Seq<u8>)
    ensures
        async_session::step_for(state, o, s) is Ignore <==> !(s.len() >= 40 && 40 <= wire::u32_at(
            o,
            s,
            0,
        ) <= s.len()),
        match async_session::step_for(state, o, s) {
            Step::Ignore => true,
            Step::Refuse { unique, .. } => unique == wire::u64_at(o, s, 8),
            Step::Init { unique, .. } => unique == wire::u64_at(o, s, 8),
            Step::Destroy { unique } => unique == wire::u64_at(o, s, 8),
            Step::Call { unique, .. } => unique == wire::u64_at(o, s, 8),
        },
        async_session::step_unique(async_session::step_for(state, o, s)) is Some ==> (
        async_session::step_unique(async_session::step_for(state, o, s)) == Some(
            wire::u64_at(o, s, 8),
        )),
        async_session::step_unique(async_session::step_for(state, o, s)) is None
            <==> async_session::step_for(state, o, s) is Ignore,
{
}

/// A request is refused with `EACCES` exactly if its user is none of those that the session is
/// open to, and its operation, which is known, is one that access is checked for: all but those
/// of the connection itself, those that forget, and reads, writes, synchronizations and releases
/// of what is open already.
pub proof fn law_who_is_refused_access(state: SharedSessionState, o: ByteOrder, s: Seq<u8>)
    requires
        40 <= wire::u32_at(o, s, 0) <= s.len(),
        state.platform.errnos.is_valid(),
    ensures
        ({
            let uid = wire::u32_at(o, s, 24);
            let op = operation::operation_of(
                state.platform.os,
                o,
                wire::u32_at(o, s, 4),
                s.subrange(40, wire::u32_at(o, s, 0) as int),
            );
            async_session::step_for(state, o, s) == (StepView::Refuse {
                unique: wire::u64_at(o, s, 8),
                errno: state.platform.errnos.eacces,
            }) <==> {
                &&& state.allowed is Owner || state.allowed is RootAndOwner
                &&& uid != state.session_owner
                &&& uid != 0 || state.allowed is Owner
                &&& op matches Some(known) && !(known is Init || known is Destroy || known is Forget
                    || known is BatchForget || known is Read || known is Write || known is FSync
                    || known is Release || known is ReadDir || known is ReadDirPlus
                    || known is FSyncDir || known is ReleaseDir)
            }
        }),
{
}

/// Which operations skip the check of access.
pub proof fn law_what_skips_the_check<B, N>(op: Operation<B, N>)
    ensures
        async_session::skips_acl(op) <==> (op is Init || op is Destroy || op is Forget
            || op is BatchForget || op is Read || op is Write || op is FSync || op is Release
            || op is ReadDir || op is ReadDirPlus || op is FSyncDir || op is ReleaseDir),
{
}

/// Which protocol versions a session can speak with.
pub proof fn law_supported_versions(major: u32, minor: u32)
    ensures
        !async_session::is_supported(major, minor) <==> major < 7 || (major == 7 && minor < 6),
{
}

/// What becomes of a request whose user is allowed, or whose operation skips the check, and that
/// is not to initialize the filesystem. An operation that is not known is refused with `ENOSYS`,
/// as is one that no call serves; before the filesystem is initialized, everything else is
/// refused with `EIO`, and after it has been destroyed everything but to destroy it; in between,
/// the filesystem is called on the inode of the request.
pub proof fn law_what_becomes_of_a_request(state: SharedSessionState, o: ByteOrder, s: Seq<u8>)
    requires
        40 <= wire::u32_at(o, s, 0) <= s.len(),
    ensures
        ({
            let uid = wire::u32_at(o, s, 24);
            let unique = wire::u64_at(o, s, 8);
            let nodeid = wire::u64_at(o, s, 16);
            let errnos = state.platform.errnos;
            let step = async_session::step_for(state, o, s);
            let op = operation::operation_of(
                state.platform.os,
                o,
                wire::u32_at(o, s, 4),
                s.subrange(40, wire::u32_at(o, s, 0) as int),
            );
            let allowed = state.allowed is All || uid == state.session_owner || (uid == 0
                && state.allowed is RootAndOwner);
            &&& op is None ==> step == (StepView::Refuse { unique, errno: errnos.enosys })
            &&& op matches Some(Operation::Destroy) ==> step == if state.initialized {
                StepView::Destroy { unique }
            } else {
                StepView::Refuse { unique, errno: errnos.eio }
            }
            &&& op matches Some(known) ==> {
                known !is Init && known !is Destroy && (allowed || known is Forget
                    || known is BatchForget || known is Read || known is Write || known is FSync
                    || known is Release || known is ReadDir || known is ReadDirPlus
                    || known is FSyncDir || known is ReleaseDir) ==> {
                    &&& !state.initialized || state.destroyed ==> step == (StepView::Refuse {
                        unique,
                        errno: errnos.eio,
                    })
                    &&& state.initialized && !state.destroyed ==> match async_fs::call_of(
                        nodeid,
                        known,
                    ) {
                        Some(call) => step == (StepView::Call { unique, call }),
                        None => step == (StepView::Refuse { unique, errno: errnos.enosys }),
                    }
                }
            }
        }),
{
}

/// To decide on a request changes the state of a session only if the filesystem is to be
/// initialized, and then nothing but the version of the protocol.
pub proof fn law_deciding_changes_the_version_only(
    state: SharedSessionState,
    o: ByteOrder,
    s: Seq<u8>,
)
    ensures
        ({
            let after = async_session::state_after(state, o, s);
            &&& !(async_session::step_for(state, o, s) is Init) ==> after == state
            &&& after.allowed == state.allowed
            &&& after.session_owner == state.session_owner
            &&& after.initialized == state.initialized
            &&& after.destroyed == state.destroyed
            &&& after.shutdown == state.shutdown
            &&& after.platform == state.platform
        }),
{
}

/// What each event changes in the state of a session, and what it leaves.
pub proof fn law_what_an_event_changes(state: SharedSessionState, event: SessionEvent)
    ensures
        ({
            let after = async_session::apply(state, event);
            &&& after.initialized <==> state.initialized || event == SessionEvent::InitFinished(
                true,
            )
            &&& after.destroyed <==> state.destroyed || event is DestroyFinished || event is Closed
            &&& after.shutdown <==> state.shutdown || event is ShutdownSignalled || event is Closed
            &&& after.allowed == state.allowed
            &&& after.session_owner == state.session_owner
            &&& after.platform == state.platform
            &&& event !is Dispatch ==> after.proto_major == state.proto_major && after.proto_minor
                == state.proto_minor
            &&& event matches SessionEvent::Dispatch(o, s) ==> after == async_session::state_after(
                state,
                o,
                s,
            )
        }),
{
}

/// Events change the state of a session one after the other.
pub proof fn law_events_add_up(
    state: SharedSessionState,
    events: Seq<SessionEvent>,
    event: SessionEvent,
)
    ensures
        async_session::apply_all(state, seq![]) == state,
        async_session::apply_all(state, events.push(event)) == async_session::apply(
            async_session::apply_all(state, events),
            event,
        ),
        !async_session::init_started(state, seq![]),
        async_session::init_started(state, events.push(event)) <==> {
            ||| async_session::init_started(state, events)
            ||| (event matches SessionEvent::Dispatch(o, s) && async_session::step_for(
                async_session::apply_all(state, events),
                o,
                s,
            ) is Init)
        },
        async_session::is_history(state, seq![]),
        async_session::is_history(state, events.push(event)) <==> {
            &&& async_session::is_history(state, events)
            &&& event is InitFinished ==> async_session::init_started(state, events)
        },
{
    assert(events.push(event).drop_last() =~= events);
}

/// A session starts with no version noted and none of its marks set.
pub proof fn law_how_a_session_starts(allowed: SessionACL, owner: u32, platform: Platform)
    ensures
        ({
            let state = SharedSessionState::initial(allowed, owner, platform);
            &&& state.allowed == allowed
            &&& state.session_owner == owner
            &&& state.platform == platform
            &&& state.proto_major == 0
            &&& state.proto_minor == 0
            &&& !state.initialized
            &&& !state.destroyed
            &&& !state.shutdown
        }),
{
}

/// That a session is closed destroys the filesystem exactly if it has not been destroyed before,
/// and has been initialized or at least asked to, which leaves a version noted.
pub proof fn law_when_closing_destroys(state: SharedSessionState)
    ensures
        async_session::closing_destroys(state) <==> !state.destroyed && (state.initialized
            || state.proto_major != 0),
        async_session::is_init_called(state) <==> state.initialized || state.proto_major != 0,
{
}

/// What contracts speak of in place of a step is that step, with the view of its call.
pub proof fn law_views_keep_the_step(step: Step<&[u8], Vec<ForgetOne>>)
    ensures
        step is Ignore ==> step@ == StepView::Ignore,
        step matches Step::Refuse { unique, errno } ==> step@ == (StepView::Refuse {
            unique,
            errno,
        }),
        step matches Step::Init { unique, offered, config } ==> step@ == (StepView::Init {
            unique,
            offered,
            config,
        }),
        step matches Step::Destroy { unique } ==> step@ == (StepView::Destroy { unique }),
        step matches Step::Call { unique, call } ==> step@ == (StepView::Call {
            unique,
            call: call@,
        }),
{
}

/// A step is answered at once exactly if it refuses the request, and the kernel reads back from
/// that answer the identifier of the request and the error, negated, and nothing else.
pub proof fn law_only_refusals_are_answered_at_once<B, N>(o: ByteOrder, step: Step<B, N>)
    requires
        step matches Step::Refuse { unique, errno } ==> errno != i32::MIN,
    ensures
        async_session::refusal_bytes(o, step) is Some <==> step is Refuse,
        step matches Step::Refuse { unique, errno } ==> {
            async_session::refusal_bytes(o, step) matches Some(s) && {
                &&& s.len() == 16
                &&& wire::u32_at(o, s, 0) == 16
                &&& wire::i32_at(o, s, 4) == -errno
                &&& wire::u64_at(o, s, 8) == unique
            }
        },
{
    if let Step::Refuse { unique, errno } = step {
        reply::law_error_reply_reads_back(o, unique, errno);
    }
}

/// The error that a request is answered with is that of the step that refuses it, negated; there
/// is none if no step does.
pub proof fn law_the_error_answered(state: SharedSessionState, o: ByteOrder, s: Seq<u8>)
    requires
        state.platform.errnos.is_valid(),
    ensures
        async_session::error_answered(state, o, s) is Some <==> async_session::step_for(
            state,
            o,
            s,
        ) is Refuse,
        async_session::step_for(state, o, s) matches Step::Refuse { unique, errno } ==> (
        async_session::error_answered(state, o, s) matches Some(error) && error == -errno),
{
    if let Step::Refuse { unique, errno } = async_session::step_for(state, o, s) {
        reply::law_error_reply_reads_back(o, unique, errno);
    }
}

/// A session has as many readers as it is asked for, and one if it is asked for none; they are
/// signalled to stop if there is more than one.
pub proof fn law_number_of_readers(num_threads: usize)
    ensures
        num_threads > 0 ==> async_session::reader_plan_of(num_threads).clones + 1 == num_threads,
        num_threads == 0 ==> async_session::reader_plan_of(num_threads).clones == 0,
        async_session::reader_plan_of(num_threads).signals_shutdown
            <==> async_session::reader_plan_of(num_threads).clones > 0,
{
}

/// A session ends with the error of its first reader, if that met one, and otherwise with that
/// of the reader before which no other met one.
pub proof fn law_which_error_a_session_ends_with<E>(
    first: Result<(), E>,
    others: Seq<Option<Result<(), E>>>,
    k: int,
)
    ensures
        first matches Err(err) ==> async_session::readers_result_of(first, others) == Err::<(), E>(
            err,
        ),
        first is Ok && 0 <= k < others.len() && (forall|i: int|
            0 <= i < k ==> !(#[trigger] others[i] matches Some(Err(_)))) ==> (
        others[k] matches Some(Err(err)) ==> async_session::readers_result_of(first, others)
            == Err::<(), E>(err)),
        async_session::first_error::<E>(seq![]) is None,
{
    if 0 <= k < others.len() && (forall|i: int|
        0 <= i < k ==> !(#[trigger] others[i] matches Some(Err(_)))) {
        if let Some(Err(err)) = others[k] {
            lemma_first_error_at(others, k, err);
        }
    }
}

proof fn lemma_first_error_at<E>(results: Seq<Option<Result<(), E>>>, k: int, err: E)
    requires
        0 <= k < results.len(),
        results[k] == Some(Err::<(), E>(err)),
        forall|i: int| 0 <= i < k ==> !(#[trigger] results[i] matches Some(Err(_))),
    ensures
        async_session::first_error(results) == Some(err),
    decreases k,
{
    if k > 0 {
        let rest = results.drop_first();
        assert(!(results[0] matches Some(Err(_))));
        assert forall|i: int| 0 <= i < k - 1 implies !(#[trigger] rest[i] matches Some(Err(_))) by {
            assert(rest[i] == results[i + 1]);
        }
        lemma_first_error_at(rest, k - 1, err);
    }
}

/// A reader dispatches what it has read whenever a read succeeds, tries again after three errors,
/// and ends well only when the device is gone; every other error it ends with.
pub proof fn law_after_a_read(errnos: Errnos, outcome: Result<usize, Option<i32>>)
    requires
        errnos.is_valid(),
    ensures
        ({
            let after = async_session::after_read_of(errnos, outcome);
            &&& outcome matches Ok(size) ==> after == AfterRead::Dispatch(size)
            &&& outcome matches Err(Some(errno)) ==> {
                &&& after is Retry <==> errno == errnos.enoent || errno == errnos.eintr || errno
                    == errnos.eagain
                &&& after is Stop <==> errno == errnos.enodev
                &&& after !is Dispatch
            }
            &&& outcome matches Err(None) ==> after is Fail
            &&& errnos.is_of_linux() ==> (outcome matches Err(Some(errno)) ==> {
                &&& after is Retry <==> errno == 2 || errno == 4 || errno == 11
                &&& after is Stop <==> errno == 19
            })
        }),
{
}

/// Which errors are no reason to stop.
pub proof fn law_transient_errors(errnos: Errnos, errno: i32)
    ensures
        async_session::is_transient(errnos, errno) <==> errno == errnos.enoent || errno
            == errnos.eintr || errno == errnos.eagain,
{
}

/// A read brings in a request exactly if it succeeds: as many bytes from the start of the buffer
/// as it tells. It ends the reader exactly if it fails for a reason that does not pass.
pub proof fn law_what_a_read_brings_in(errnos: Errnos, read: Read)
    ensures
        read.1 matches Ok(size) ==> async_session::request_read(errnos, read) == Some(
            read.0.take(size as int),
        ),
        read.1 is Err ==> async_session::request_read(errnos, read) is None,
        async_session::ends_reader(errnos, read) <==> (read.1 matches Err(reason) && reason != Some(
            errnos.enoent,
        ) && reason != Some(errnos.eintr) && reason != Some(errnos.eagain)),
{
}

/// Nothing is dispatched after a read that ends the reader, whatever would follow it.
pub proof fn law_nothing_is_dispatched_after_the_end(
    errnos: Errnos,
    reads: Seq<Read>,
    end: int,
)
    requires
        0 <= end < reads.len(),
        async_session::ends_reader(errnos, reads[end]),
    ensures
        async_session::requests_of(errnos, reads) == async_session::requests_of(
            errnos,
            reads.take(end),
        ),
    decreases reads.len(),
{
    let before = reads.drop_last();
    if end < before.len() {
        assert(before[end] == reads[end]);
        law_nothing_is_dispatched_after_the_end(errnos, before, end);
        assert(before.take(end) =~= reads.take(end));
    } else {
        assert(before =~= reads.take(end));
    }
}

/// From which phases, and by which events, a reader comes to each of its phases. It stays where
/// it is when an event cannot come of its phase.
pub proof fn law_phases_of_a_reader(errnos: Errnos, phase: ReaderPhase, event: ReaderEvent)
    requires
        errnos.is_valid(),
    ensures
        ({
            let next = async_session::reader_phase_of(errnos, phase, event);
            &&& async_session::comes_of_phase(phase, event) ==> {
                &&& next is Read <==> event == ReaderEvent::Checked(ReaderStep::Read)
                &&& next is Dispatch <==> (event matches ReaderEvent::ReadDone(Ok(_)))
                &&& next is CheckShutdown <==> {
                    ||| event is Dispatched
                    ||| (event matches ReaderEvent::ReadDone(Err(Some(errno))) && (errno
                        == errnos.enoent || errno == errnos.eintr || errno == errnos.eagain))
                }
                &&& next is Finish <==> {
                    ||| event == ReaderEvent::Checked(ReaderStep::Stop)
                    ||| (event matches ReaderEvent::ReadDone(Err(Some(errno))) && errno
                        == errnos.enodev)
                }
                &&& next is Fail <==> (event matches ReaderEvent::ReadDone(Err(reason)) && reason
                    != Some(errnos.enoent) && reason != Some(errnos.eintr) && reason != Some(
                    errnos.eagain,
                ) && reason != Some(errnos.enodev))
            }
            &&& !async_session::comes_of_phase(phase, event) ==> next == phase
        }),
{
}

/// Which events can come of each phase of a reader. None comes of the last ones.
pub proof fn law_events_of_a_reader(phase: ReaderPhase, event: ReaderEvent)
    ensures
        async_session::comes_of_phase(phase, event) <==> {
            ||| phase is CheckShutdown && event is Checked
            ||| phase is Read && event is ReadDone
            ||| phase is Dispatch && event is Dispatched
        },
{
}

/// A reader starts by looking whether the session shuts down, and each event that comes of its
/// phase takes it one phase further.
pub proof fn law_readers_go_phase_by_phase(
    errnos: Errnos,
    events: Seq<ReaderEvent>,
    event: ReaderEvent,
)
    ensures
        async_session::reader_after(errnos, seq![]) is CheckShutdown,
        async_session::is_reader_history(errnos, seq![]),
        async_session::reader_after(errnos, events.push(event)) == async_session::reader_phase_of(
            errnos,
            async_session::reader_after(errnos, events),
            event,
        ),
        async_session::is_reader_history(errnos, events.push(event)) <==> {
            &&& async_session::is_reader_history(errnos, events)
            &&& async_session::comes_of_phase(async_session::reader_after(errnos, events), event)
        },
{
    assert(events.push(event).drop_last() =~= events);
}

/// Readers read from the start of a session until they are signalled to stop or the session is
/// closed, and never again after that, whatever happens.
pub proof fn law_readers_stop_for_good(
    allowed: SessionACL,
    owner: u32,
    platform: Platform,
    state: SharedSessionState,
    event: SessionEvent,
    later: Seq<SessionEvent>,
)
    ensures
        async_session::reader_step_of(SharedSessionState::initial(allowed, owner, platform))
            is Read,
        async_session::reader_step_of(state) is Read ==> (async_session::reader_step_of(
            async_session::apply(state, event),
        ) is Stop <==> event is ShutdownSignalled || event is Closed),
        async_session::reader_step_of(state) is Stop ==> async_session::reader_step_of(
            async_session::apply_all(state, later),
        ) is Stop,
{
    async_session::law_session_only_moves_forward(state, later);
}

/// A descriptor is cloned on Linux alone. Once another has been opened, it is that one that is
/// attached to the session, by the request that clones; it is the clone if that succeeds, and is
/// closed again if not.
pub proof fn law_opened_descriptors_are_used_or_closed(os: Os, new_fd: i32, result: i32)
    ensures
        async_session::clone_start_of(os) is Open <==> os is Linux,
        async_session::clone_start_of(os) is Unsupported <==> os !is Linux,
        async_session::after_clone_open_of(new_fd) is Fail <==> new_fd < 0,
        new_fd >= 0 ==> async_session::after_clone_open_of(new_fd) == (CloneStep::Attach {
            fd: new_fd,
            request: 0x8004_e500,
        }),
        result >= 0 ==> async_session::after_clone_attach_of(new_fd, result) == (CloneStep::Done {
            fd: new_fd,
        }),
        result < 0 ==> async_session::after_clone_attach_of(new_fd, result)
            == (CloneStep::CloseAndFail { fd: new_fd }),
{
}

/// The buffer of a reader holds the largest write, and a page for the headers.
pub proof fn law_room_for_a_request()
    ensures
        async_session::BUFFER_SIZE == 16777216 + 4096,
        async_session::FUSE_DEV_IOC_CLONE == 0x8004_e500,
{
}

} // verus!
