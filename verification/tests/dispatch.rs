//! What a session decides about requests, and how it lives.
use fuse_session::async_fs::FsCall;
use fuse_session::async_session::{
    after_read, aligned_sub_buf, aligned_sub_buf_at, clone_after_attach, clone_after_open,
    clone_fuse_fd, mount_async, next_reader_phase, read_step, reader_plan, readers_result,
    refusal_reply, AfterRead, CloneStep, ReadStep, ReaderEvent, ReaderPhase, ReaderPlan,
    ReaderStep, SharedSessionState, Step, BUFFER_SIZE, FUSE_DEV_IOC_CLONE,
};
use fuse_session::channel::ChannelSender;
use fuse_session::kernel_config::KernelConfig;
use fuse_session::operation::ForgetOne;
use fuse_session::owned_request::{FuseReader, OwnedRequest};
use fuse_session::platform::{Errnos, Os, Platform};
use fuse_session::session::{
    after_mount, mount_options, session_acl, AfterMount, MountOption, SessionACL, Unsupported,
    MAX_WRITE_SIZE,
};
use fuse_session::wire::ByteOrder;
use std::sync::Arc;

const OWNER: u32 = 1000;
const UNIQUE: u64 = 77;
const NODE: u64 = 42;

fn request(opcode: u32, uid: u32, body: &[u8]) -> OwnedRequest<()> {
    let mut v = Vec::new();
    v.extend_from_slice(&(40 + body.len() as u32).to_ne_bytes());
    v.extend_from_slice(&opcode.to_ne_bytes());
    v.extend_from_slice(&UNIQUE.to_ne_bytes());
    v.extend_from_slice(&NODE.to_ne_bytes());
    v.extend_from_slice(&uid.to_ne_bytes());
    v.extend_from_slice(&[0; 12]);
    v.extend_from_slice(body);
    OwnedRequest::new(&v, ChannelSender::new(Arc::new(())))
}

fn w32(words: &[u32]) -> Vec<u8> {
    words.iter().flat_map(|w| w.to_ne_bytes()).collect()
}

fn w64(words: &[u64]) -> Vec<u8> {
    words.iter().flat_map(|w| w.to_ne_bytes()).collect()
}

fn new_session(acl: SessionACL) -> SharedSessionState {
    SharedSessionState::with_owner(acl, OWNER, Platform::native())
}

fn alive(acl: SessionACL) -> SharedSessionState {
    let mut state = new_session(acl);
    state.initialized = true;
    state
}

fn refused(errno: i32) -> Step<&'static [u8], Vec<ForgetOne>> {
    Step::Refuse { unique: UNIQUE, errno }
}

fn call_for(opcode: u32, body: &[u8]) -> String {
    let req = request(opcode, OWNER, body);
    match alive(SessionACL::Owner).dispatch(&req) {
        Step::Call { unique, call } => {
            assert_eq!(unique, UNIQUE);
            format!("{:?}", call)
        }
        other => format!("{:?}", other),
    }
}

#[test]
fn new_session_has_nothing_set() {
    let state = SharedSessionState::new(SessionACL::All);
    let owner = state.session_owner;
    let native = Platform::native();
    assert_eq!(state, SharedSessionState::with_owner(SessionACL::All, owner, native));
    assert_eq!(state.session_owner, nix::unistd::geteuid().as_raw());
    assert_eq!((state.proto_major, state.proto_minor), (0, 0));
    assert!(!state.initialized && !state.destroyed && !state.shutdown);
}

#[test]
fn what_is_no_request_is_ignored() {
    let req = OwnedRequest::new(&[1, 2, 3], ChannelSender::new(Arc::new(())));
    let mut state = alive(SessionACL::All);
    let step = state.dispatch(&req);
    assert_eq!(step, Step::Ignore);
    assert_eq!(refusal_reply(req.order(), &step), None);
}

#[test]
fn unknown_operations_are_refused_for_everybody() {
    let req = request(999, 5, &[]);
    assert_eq!(alive(SessionACL::Owner).dispatch(&req), refused(libc::ENOSYS));
    let truncated = request(14, 5, &[0; 7]);
    assert_eq!(alive(SessionACL::Owner).dispatch(&truncated), refused(libc::ENOSYS));
    let mut new = SharedSessionState::with_owner(SessionACL::All, OWNER, Platform::native());
    assert_eq!(new.dispatch(&req), refused(libc::ENOSYS));
}

#[test]
fn access_is_checked() {
    let body = b"name\0";
    for (acl, uid, ok) in [
        (SessionACL::All, 5, true),
        (SessionACL::All, 0, true),
        (SessionACL::RootAndOwner, 0, true),
        (SessionACL::RootAndOwner, OWNER, true),
        (SessionACL::RootAndOwner, 5, false),
        (SessionACL::Owner, OWNER, true),
        (SessionACL::Owner, 0, false),
        (SessionACL::Owner, 5, false),
    ] {
        assert_eq!(acl.is_allowed(OWNER, uid), ok);
        let req = request(1, uid, body);
        let step = alive(acl).dispatch(&req);
        if ok {
            assert_eq!(
                step,
                Step::Call {
                    unique: UNIQUE,
                    call: FsCall::Lookup { parent: NODE, name: &b"name"[..] }
                }
            );
        } else {
            assert_eq!(step, refused(libc::EACCES));
        }
    }
}

#[test]
fn access_comes_before_life() {
    let req = request(1, 5, b"name\0");
    let mut new = new_session(SessionACL::Owner);
    assert_eq!(new.dispatch(&req), refused(libc::EACCES));
}

#[test]
fn kernel_operations_skip_the_check() {
    let zeros = [0u8; 88];
    // Init, destroy, read, readdir, readdirplus, batch forget, forget, write, fsync, fsyncdir,
    // release, releasedir.
    let sizes: [(u32, usize); 12] = [
        (26, 16),
        (38, 0),
        (15, 40),
        (28, 40),
        (44, 40),
        (42, 8),
        (2, 8),
        (16, 40),
        (20, 16),
        (30, 16),
        (18, 24),
        (29, 24),
    ];
    for (opcode, size) in sizes {
        let req = request(opcode, 5, &zeros[..size]);
        assert_ne!(alive(SessionACL::Owner).dispatch(&req), refused(libc::EACCES));
    }
    for (opcode, size) in [(3u32, 16usize), (4, 88), (5, 0), (14, 8), (17, 0), (25, 24), (36, 8)] {
        let req = request(opcode, 5, &zeros[..size]);
        assert_eq!(alive(SessionACL::Owner).dispatch(&req), refused(libc::EACCES));
    }
}

#[test]
fn nothing_is_called_before_init() {
    let mut new = new_session(SessionACL::Owner);
    assert_eq!(new.dispatch(&request(1, OWNER, b"n\0")), refused(libc::EIO));
    assert_eq!(new.dispatch(&request(38, OWNER, &[])), refused(libc::EIO));
    assert_eq!(new.dispatch(&request(36, OWNER, &[0; 8])), refused(libc::EIO));
}

#[test]
fn init_sets_the_version_and_starts_life() {
    let req = request(26, 5, &w32(&[7, 31, 65536, 0x40_0021]));
    let mut state = new_session(SessionACL::Owner);
    let step = state.dispatch(&req);
    let offered = 0x40_0021;
    let config = KernelConfig::new(offered, 65536);
    assert_eq!(step, Step::Init { unique: UNIQUE, offered, config });
    assert_eq!((state.proto_major, state.proto_minor), (7, 31));
    assert!(!state.initialized);

    let reply = state.finish_init(ByteOrder::Little, UNIQUE, offered, Ok(config), 4096);
    assert!(state.initialized);
    assert_eq!(reply.len(), 80);
    let word = |at: usize| u32::from_le_bytes(reply[at..at + 4].try_into().unwrap());
    let half = |at: usize| u16::from_le_bytes(reply[at..at + 2].try_into().unwrap());
    assert_eq!(word(0), 80);
    assert_eq!(word(4), 0);
    assert_eq!(reply[8..16], UNIQUE.to_le_bytes());
    assert_eq!((word(16), word(20)), (7, 28));
    assert_eq!(word(24), 65536);
    assert_eq!(word(28), 0x40_0021);
    assert_eq!((half(32), half(34)), (16, 12));
    assert_eq!(word(36), MAX_WRITE_SIZE as u32);
    assert_eq!(word(40), 1);
    assert_eq!(half(44), 4096);
    assert!(reply[46..].iter().all(|b| *b == 0));

    let lookup = request(1, OWNER, b"n\0");
    let step = state.dispatch(&lookup);
    assert_eq!(
        step,
        Step::Call { unique: UNIQUE, call: FsCall::Lookup { parent: NODE, name: &b"n"[..] } }
    );
}

#[test]
fn configuration_is_confirmed_within_limits() {
    let mut config = KernelConfig::new(0b01, 10_000);
    assert_eq!(config.requested, 33);
    assert_eq!(config.max_write, 16 * 1024 * 1024);
    config.congestion_threshold = Some(99);
    config.max_write = 1;
    let payload = config.make_payload(ByteOrder::Big, 0b01, 4096);
    assert_eq!(payload[12..16], [0, 0, 0, 1]);
    assert_eq!(payload[16..20], [0, 16, 0, 16]);
    assert_eq!(payload[28..30], [0, 3]);
    config.congestion_threshold = Some(2);
    config.max_readahead = u32::MAX;
    let payload = config.make_payload(ByteOrder::Big, 0b01, 4096);
    assert_eq!(payload[16..20], [0, 16, 0, 2]);
    assert_eq!(payload[28..30], [255, 255]);
}

#[test]
fn only_offered_capabilities_are_confirmed() {
    let mut config = KernelConfig::new(0b01, 0);
    config.capabilities = u64::MAX;
    config.requested = 0b110;
    assert_eq!(config.make_payload(ByteOrder::Big, 0b011, 4096)[12..16], [0, 0, 0, 0b010]);
}

#[test]
fn old_kernels_are_refused() {
    for (major, minor, ok) in [(7, 6, true), (7, 5, false), (6, 99, false), (8, 0, true)] {
        let req = request(26, OWNER, &w32(&[major, minor, 0, 0]));
        let mut state = new_session(SessionACL::Owner);
        let step = state.dispatch(&req);
        if ok {
            assert!(matches!(step, Step::Init { .. }));
            assert_eq!((state.proto_major, state.proto_minor), (major, minor));
        } else {
            assert_eq!(step, refused(libc::EPROTO));
            assert_eq!((state.proto_major, state.proto_minor), (0, 0));
        }
    }
}

#[test]
fn failed_init_is_answered_and_life_does_not_start() {
    let mut state = new_session(SessionACL::Owner);
    let before = state;
    let reply = state.finish_init(ByteOrder::Little, UNIQUE, 0, Err(libc::EPERM), 4096);
    assert_eq!(state, before);
    let mut want = vec![16, 0, 0, 0];
    want.extend_from_slice(&(-libc::EPERM).to_le_bytes());
    want.extend_from_slice(&UNIQUE.to_le_bytes());
    assert_eq!(reply, want);
}

#[test]
fn after_destroy_only_init_and_destroy_go_on() {
    let mut state = alive(SessionACL::Owner);
    assert_eq!(state.dispatch(&request(38, 5, &[])), Step::Destroy { unique: UNIQUE });
    let reply = state.finish_destroy(ByteOrder::Big, UNIQUE);
    assert_eq!(reply, [&[0u8, 0, 0, 16, 0, 0, 0, 0][..], &UNIQUE.to_be_bytes()].concat());
    assert!(state.destroyed);
    assert_eq!(state.dispatch(&request(1, OWNER, b"n\0")), refused(libc::EIO));
    assert_eq!(state.dispatch(&request(38, 5, &[])), Step::Destroy { unique: UNIQUE });
    let init = request(26, 5, &w32(&[7, 31, 0, 0]));
    assert!(matches!(state.dispatch(&init), Step::Init { .. }));
}

#[test]
fn closing_destroys_once() {
    let mut state = alive(SessionACL::Owner);
    assert!(state.close());
    assert!(state.shutdown && state.destroyed);
    assert!(!state.close());
    let mut state = alive(SessionACL::Owner);
    state.finish_destroy(ByteOrder::Little, UNIQUE);
    assert!(!state.shutdown);
    assert!(!state.close());
    assert!(state.shutdown);
}

#[test]
fn what_was_never_asked_to_initialize_is_not_destroyed() {
    let mut state = SharedSessionState::new(SessionACL::Owner);
    assert!(!state.close());
    assert!(state.shutdown && state.destroyed);
    // A kernel that is too old does not get as far as the filesystem.
    let mut state = new_session(SessionACL::Owner);
    state.dispatch(&request(26, OWNER, &w32(&[7, 5, 0, 0])));
    assert!(!state.close());
    // A filesystem that failed to initialize was asked to.
    let mut state = new_session(SessionACL::Owner);
    state.dispatch(&request(26, OWNER, &w32(&[7, 31, 0, 0])));
    state.finish_init(ByteOrder::Little, UNIQUE, 0, Err(libc::EIO), 4096);
    assert!(!state.initialized);
    assert!(state.close());
    assert!(!state.close());
}

#[test]
fn a_failed_reader_fails_the_session() {
    assert_eq!(readers_result::<i32>(Ok(()), vec![]), Ok(()));
    assert_eq!(readers_result::<i32>(Ok(()), vec![Some(Ok(())), None]), Ok(()));
    assert_eq!(readers_result(Err(1), vec![Some(Err(2))]), Err(1));
    let others = vec![None, Some(Ok(())), Some(Err(3)), Some(Err(4)), Some(Ok(()))];
    assert_eq!(readers_result(Ok(()), others), Err(3));
}

#[test]
fn refusals_are_sent_as_errors() {
    let req = request(1, 5, b"name\0");
    let step = alive(SessionACL::Owner).dispatch(&req);
    let mut want = Vec::new();
    want.extend_from_slice(&16u32.to_ne_bytes());
    want.extend_from_slice(&(-libc::EACCES).to_ne_bytes());
    want.extend_from_slice(&UNIQUE.to_ne_bytes());
    assert_eq!(refusal_reply(req.order(), &step), Some(want));
}

#[test]
fn unserved_operations_are_refused() {
    assert_eq!(
        alive(SessionACL::Owner).dispatch(&request(36, OWNER, &[0; 8])),
        refused(libc::ENOSYS)
    );
    assert_eq!(alive(SessionACL::Owner).dispatch(&request(41, OWNER, &[])), refused(libc::ENOSYS));
    assert_eq!(
        alive(SessionACL::Owner).dispatch(&request(4096, OWNER, &[0; 16])),
        refused(libc::ENOSYS)
    );
    let unrestricted = [w64(&[1]), w32(&[2, 3]), w64(&[0]), w32(&[0, 0])].concat();
    assert_eq!(
        alive(SessionACL::Owner).dispatch(&request(39, OWNER, &unrestricted)),
        refused(libc::ENOSYS)
    );
    let restricted = [w64(&[1]), w32(&[1, 3]), w64(&[0]), w32(&[0, 9])].concat();
    let req = request(39, OWNER, &restricted);
    assert_eq!(
        alive(SessionACL::Owner).dispatch(&req),
        Step::Call {
            unique: UNIQUE,
            call: FsCall::IoCtl {
                ino: NODE,
                fh: 1,
                flags: 1,
                cmd: 3,
                in_data: &[][..],
                out_size: 9
            }
        }
    );
}

#[test]
fn calls_get_their_arguments() {
    let check = |opcode: u32, body: &[u8], want: FsCall<&[u8], Vec<ForgetOne>>| {
        assert_eq!(call_for(opcode, body), format!("{:?}", want));
    };
    check(2, &w64(&[3]), FsCall::Forget { ino: NODE, nlookup: 3 });
    check(5, &[], FsCall::ReadLink { ino: NODE });
    check(17, &[], FsCall::StatFs { ino: NODE });
    check(6, b"l\0t\0", FsCall::SymLink { parent: NODE, link_name: b"l", target: b"t" });
    check(
        8,
        &[w32(&[1, 2, 3, 0]), b"n\0".to_vec()].concat(),
        FsCall::MkNod { parent: NODE, name: b"n", mode: 1, umask: 3, rdev: 2 },
    );
    check(
        12,
        &[w64(&[9]), b"o\0n\0".to_vec()].concat(),
        FsCall::Rename { parent: NODE, name: b"o", newparent: 9, newname: b"n", flags: 0 },
    );
    check(
        45,
        &[w64(&[9]), w32(&[0, 0]), b"o\0n\0".to_vec()].concat(),
        FsCall::Rename { parent: NODE, name: b"o", newparent: 9, newname: b"n", flags: 0 },
    );
    check(
        45,
        &[w64(&[9]), w32(&[5, 0]), b"o\0n\0".to_vec()].concat(),
        FsCall::Rename { parent: NODE, name: b"o", newparent: 9, newname: b"n", flags: 5 },
    );
    check(
        13,
        &[w64(&[9]), b"n\0".to_vec()].concat(),
        FsCall::Link { ino: 9, newparent: NODE, newname: b"n" },
    );
    check(
        35,
        &[w32(&[1, 2, 3, 0]), b"n\0".to_vec()].concat(),
        FsCall::Create { parent: NODE, name: b"n", mode: 2, umask: 3, flags: 1 },
    );
    check(
        40,
        &[w64(&[1, 2]), w32(&[3, 4])].concat(),
        FsCall::Poll { ino: NODE, fh: 1, kernel_handle: 2, events: 4, flags: 3 },
    );
    check(
        21,
        &[w32(&[1, 2]), b"n\0v".to_vec()].concat(),
        FsCall::SetXAttr { ino: NODE, name: b"n", value: b"v", flags: 2, position: 0 },
    );
}

#[test]
fn waiting_for_a_lock_is_a_flag() {
    let body = [w64(&[1, 2, 3, 4]), w32(&[5, 6, 0, 0])].concat();
    assert!(call_for(32, &body).contains("sleep: false"));
    assert!(call_for(33, &body).contains("sleep: true"));
    assert!(call_for(31, &body).starts_with("GetLk"));
}

#[test]
fn wide_copy_flags_are_dropped() {
    let body = |flags: u64| w64(&[1, 2, 3, 4, 5, 6, flags]);
    let wide = call_for(47, &body(1 << 32));
    assert!(wide.contains("flags: 0"));
    assert!(wide.contains("ino_in: 42") && wide.contains("ino_out: 3"));
    assert!(call_for(47, &body(7)).contains("flags: 7"));
    assert!(call_for(47, &body(u32::MAX as u64)).contains("flags: 4294967295"));
}

#[test]
fn readers_stop_on_a_signal() {
    let mut state = alive(SessionACL::Owner);
    assert_eq!(state.next_reader_step(), ReaderStep::Read);
    state.signal_shutdown();
    assert_eq!(state.next_reader_step(), ReaderStep::Stop);
}

#[test]
fn readers_go_on_after_transient_errors() {
    assert_eq!(after_read(Errnos::native(), Ok(80)), AfterRead::Dispatch(80));
    assert_eq!(after_read(Errnos::native(), Ok(0)), AfterRead::Dispatch(0));
    for errno in [libc::ENOENT, libc::EINTR, libc::EAGAIN] {
        assert_eq!(after_read(Errnos::native(), Err(Some(errno))), AfterRead::Retry);
    }
    assert_eq!(after_read(Errnos::native(), Err(Some(libc::ENODEV))), AfterRead::Stop);
    assert_eq!(after_read(Errnos::native(), Err(Some(libc::EIO))), AfterRead::Fail);
    assert_eq!(after_read(Errnos::native(), Err(None)), AfterRead::Fail);
}

#[test]
fn there_is_at_least_one_reader() {
    assert_eq!(reader_plan(0), ReaderPlan { clones: 0, signals_shutdown: false });
    assert_eq!(reader_plan(1), ReaderPlan { clones: 0, signals_shutdown: false });
    assert_eq!(reader_plan(4), ReaderPlan { clones: 3, signals_shutdown: true });
}

#[test]
fn cloning_a_descriptor() {
    assert_eq!(clone_fuse_fd(Os::Linux), CloneStep::Open);
    assert_eq!(clone_fuse_fd(Os::MacOs), CloneStep::Unsupported);
    assert_eq!(clone_after_open(-1), CloneStep::Fail);
    assert_eq!(
        clone_after_open(5),
        CloneStep::Attach { fd: 5, request: FUSE_DEV_IOC_CLONE }
    );
    assert_eq!(FUSE_DEV_IOC_CLONE, 0x8004_e500);
    assert_eq!(clone_after_attach(5, -1), CloneStep::CloseAndFail { fd: 5 });
    assert_eq!(clone_after_attach(5, 0), CloneStep::Done { fd: 5 });
}

#[test]
fn aligned_part_of_a_buffer() {
    assert_eq!(BUFFER_SIZE, 16 * 1024 * 1024 + 4096);
    for start in 0..8usize {
        let mut store = vec![0u8; 64];
        let buf = &mut store[start..];
        let (address, len) = (buf.as_ptr() as usize, buf.len());
        let part = aligned_sub_buf(buf, 8);
        assert_eq!(part.as_ptr() as usize % 8, 0);
        assert!(part.as_ptr() as usize - address < 8);
        assert_eq!(part.len(), len - (part.as_ptr() as usize - address));
        part[0] = 1;
        assert_eq!(store.iter().map(|b| *b as usize).sum::<usize>(), 1);
    }
    let mut buf = [0u8, 1, 2, 3, 4];
    assert_eq!(aligned_sub_buf_at(&mut buf, 13, 8), [3, 4]);
    assert_eq!(aligned_sub_buf_at(&mut buf, 16, 8), [0, 1, 2, 3, 4]);
    assert_eq!(aligned_sub_buf_at(&mut buf, 11, 8), []);
}

#[test]
fn who_may_use_a_mount() {
    assert_eq!(session_acl(&[]), SessionACL::Owner);
    assert_eq!(session_acl(&[MountOption::RO, MountOption::AllowOther]), SessionACL::All);
    assert_eq!(session_acl(&[MountOption::AllowRoot]), SessionACL::RootAndOwner);
    assert_eq!(
        session_acl(&[MountOption::AllowOther, MountOption::AllowRoot]),
        SessionACL::RootAndOwner
    );
    assert_eq!(session_acl(&[MountOption::AutoUnmount]), SessionACL::Owner);
}

#[test]
fn automatic_unmount_opens_the_mount() {
    let name = MountOption::FSName(String::from("fs"));
    assert_eq!(
        mount_options(vec![MountOption::AutoUnmount, name.clone()]),
        [MountOption::AutoUnmount, name, MountOption::AllowOther]
    );
    for kept in [
        vec![MountOption::AutoUnmount, MountOption::AllowRoot],
        vec![MountOption::AllowOther, MountOption::AutoUnmount],
    ] {
        assert_eq!(mount_options(kept.clone()), kept);
    }
    assert_eq!(mount_options(vec![MountOption::RO]), [MountOption::RO]);
}

#[test]
fn mounting_settles_options_access_and_readers() {
    let native = Platform::native();
    let mount = mount_async(native, vec![MountOption::AutoUnmount], 3).unwrap();
    assert_eq!(mount.options, [MountOption::AutoUnmount, MountOption::AllowOther]);
    assert_eq!(mount.state.allowed, SessionACL::Owner);
    assert_eq!(mount.state.session_owner, nix::unistd::geteuid().as_raw());
    assert_eq!(mount.plan, reader_plan(3));
}

#[test]
fn mounting_is_supported_on_linux_only() {
    for os in [Os::MacOs, Os::Other] {
        let platform = Platform { os, ..Platform::native() };
        assert_eq!(mount_async(platform, vec![], 1).err(), Some(Unsupported));
    }
}

#[test]
fn a_failed_mount_runs_nothing() {
    assert!(matches!(after_mount(7, Err("full")), AfterMount::<i32, &str>::Fail("full")));
    assert!(matches!(after_mount(7, Ok(())), AfterMount::<i32, &str>::Run(7)));
}

#[test]
fn a_read_brings_in_a_request_that_owns_its_bytes() {
    let reader = FuseReader::new(ChannelSender::new(Arc::new(5u8)));
    let errnos = Errnos::native();
    let mut buf = [1u8, 2, 3, 4];
    let first = read_step(&reader, errnos, &buf, Ok(3));
    buf = [9; 4];
    match (first, read_step(&reader, errnos, &buf, Ok(1))) {
        (ReadStep::Dispatch(first), ReadStep::Dispatch(second)) => {
            assert_eq!(first.data(), [1, 2, 3]);
            assert_eq!(*first.sender().device(), 5);
            assert_eq!(second.data(), [9]);
        }
        other => panic!("unexpected {:?}", other),
    }
    let step = |errno: Option<i32>| read_step(&reader, errnos, &[], Err(errno));
    assert!(matches!(step(Some(libc::EINTR)), ReadStep::Retry));
    assert!(matches!(step(Some(libc::ENODEV)), ReadStep::Stop));
    assert!(matches!(step(Some(libc::EIO)), ReadStep::Fail));
    assert!(matches!(step(None), ReadStep::Fail));
}

#[test]
fn refusals_use_the_numbers_of_the_system() {
    let mut state = alive(SessionACL::Owner);
    state.platform.errnos.enosys = 89;
    assert_eq!(state.dispatch(&request(99, OWNER, &[])), refused(89));
    let mut state = alive(SessionACL::Owner);
    assert_eq!(state.dispatch(&request(62, OWNER, &[])), refused(libc::ENOSYS));
    state.platform.os = Os::MacOs;
    assert_eq!(
        state.dispatch(&request(62, OWNER, &[])),
        Step::Call { unique: UNIQUE, call: FsCall::GetXTimes { ino: NODE } }
    );
}

#[test]
fn a_reader_checks_before_it_reads() {
    let next = |phase, event| next_reader_phase(Errnos::native(), phase, event);
    let go_on = ReaderEvent::Checked(ReaderStep::Read);
    let failed = |errno| ReaderEvent::ReadDone(Err(Some(errno)));
    assert_eq!(next(ReaderPhase::CheckShutdown, go_on), ReaderPhase::Read);
    assert_eq!(
        next(ReaderPhase::CheckShutdown, ReaderEvent::Checked(ReaderStep::Stop)),
        ReaderPhase::Finish
    );
    assert_eq!(next(ReaderPhase::Read, ReaderEvent::ReadDone(Ok(3))), ReaderPhase::Dispatch);
    assert_eq!(next(ReaderPhase::Dispatch, ReaderEvent::Dispatched), ReaderPhase::CheckShutdown);
    assert_eq!(next(ReaderPhase::Read, failed(libc::EAGAIN)), ReaderPhase::CheckShutdown);
    assert_eq!(next(ReaderPhase::Read, failed(libc::ENODEV)), ReaderPhase::Finish);
    assert_eq!(next(ReaderPhase::Read, failed(libc::EIO)), ReaderPhase::Fail);
    // What cannot come of a phase changes nothing.
    assert_eq!(next(ReaderPhase::Read, go_on), ReaderPhase::Read);
}
