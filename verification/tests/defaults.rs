//! What a filesystem does about calls that it does not implement, and replies.
use fuse_session::async_fs::{
    default_outcome, find_call, forget_calls, outcome_reply, Call, DefaultOutcome, FsCall, Statfs,
};
use fuse_session::operation::{ForgetOne, Operation};
use fuse_session::platform::Errnos;
use fuse_session::reply::{error_reply, frame_reply};
use fuse_session::wire::ByteOrder;

fn outcome(call: Call<'_>) -> DefaultOutcome {
    default_outcome(Errnos::native(), &call)
}

#[test]
fn most_calls_are_not_implemented() {
    let enosys = DefaultOutcome::Error(libc::ENOSYS);
    assert_eq!(outcome(FsCall::Lookup { parent: 1, name: b"n" }), enosys);
    assert_eq!(outcome(FsCall::GetAttr { ino: 1, fh: None }), enosys);
    assert_eq!(outcome(FsCall::ReadLink { ino: 1 }), enosys);
    assert_eq!(outcome(FsCall::Access { ino: 1, mask: 0 }), enosys);
    assert_eq!(outcome(FsCall::Flush { ino: 1, fh: 0, lock_owner: 0 }), enosys);
    assert_eq!(outcome(FsCall::ReadDir { ino: 1, fh: 0, offset: 0, size: 0 }), enosys);
    assert_eq!(
        outcome(FsCall::Rename { parent: 1, name: b"a", newparent: 1, newname: b"b", flags: 0 }),
        enosys
    );
    assert_eq!(
        outcome(FsCall::Create { parent: 1, name: b"a", mode: 0, umask: 0, flags: 0 }),
        enosys
    );
    assert_eq!(outcome(FsCall::SetVolName { name: b"v" }), enosys);
    assert_eq!(outcome(FsCall::GetXTimes { ino: 1 }), enosys);
    let call = FsCall::ReadLink { ino: 1 };
    let foreign = Errnos { enosys: 78, ..Errnos::native() };
    assert_eq!(default_outcome(foreign, &call), DefaultOutcome::Error(78));
}

#[test]
fn links_are_not_permitted() {
    let eperm = DefaultOutcome::Error(libc::EPERM);
    assert_eq!(outcome(FsCall::SymLink { parent: 1, link_name: b"l", target: b"t" }), eperm);
    assert_eq!(outcome(FsCall::Link { ino: 1, newparent: 2, newname: b"l" }), eperm);
}

#[test]
fn opening_and_releasing_succeeds() {
    let opened = DefaultOutcome::Opened { fh: 0, flags: 0 };
    assert_eq!(outcome(FsCall::Open { ino: 1, flags: 2 }), opened);
    assert_eq!(outcome(FsCall::OpenDir { ino: 1, flags: 2 }), opened);
    assert_eq!(
        outcome(FsCall::Release { ino: 1, fh: 0, flags: 0, lock_owner: None, flush: true }),
        DefaultOutcome::Empty
    );
    assert_eq!(
        outcome(FsCall::ReleaseDir { ino: 1, fh: 0, flags: 0 }),
        DefaultOutcome::Empty
    );
}

#[test]
fn forgetting_needs_no_reply() {
    assert_eq!(outcome(FsCall::Forget { ino: 1, nlookup: 1 }), DefaultOutcome::Nothing);
    assert_eq!(outcome(FsCall::BatchForget { nodes: vec![] }), DefaultOutcome::ForgetEach);
    assert_eq!(outcome_reply(ByteOrder::Little, 5, DefaultOutcome::Nothing), None);
    assert_eq!(outcome_reply(ByteOrder::Little, 5, DefaultOutcome::ForgetEach), None);
}

#[test]
fn a_batch_is_forgotten_one_by_one() {
    let nodes = [ForgetOne { nodeid: 3, nlookup: 4 }, ForgetOne { nodeid: 1, nlookup: 2 }];
    assert_eq!(
        forget_calls(&nodes),
        [FsCall::Forget { ino: 3, nlookup: 4 }, FsCall::Forget { ino: 1, nlookup: 2 }]
    );
    assert!(forget_calls(&[]).is_empty());
}

#[test]
fn statistics_have_small_defaults() {
    let st = match outcome(FsCall::StatFs { ino: 1 }) {
        DefaultOutcome::Statfs(st) => st,
        other => panic!("unexpected {:?}", other),
    };
    assert_eq!(
        st,
        Statfs {
            blocks: 0,
            bfree: 0,
            bavail: 0,
            files: 0,
            ffree: 0,
            bsize: 512,
            namelen: 255,
            frsize: 0
        }
    );
    let reply = outcome_reply(ByteOrder::Little, 5, DefaultOutcome::Statfs(st)).unwrap();
    assert_eq!(reply.len(), 96);
    assert_eq!(reply[0..4], 96u32.to_le_bytes());
    assert_eq!(reply[56..60], 512u32.to_le_bytes());
    assert_eq!(reply[60..64], 255u32.to_le_bytes());
}

#[test]
fn replies_have_a_header() {
    assert_eq!(
        frame_reply(ByteOrder::Big, 0x0102, 0, b"xy"),
        [0, 0, 0, 18, 0, 0, 0, 0, 0, 0, 0, 0, 0, 0, 1, 2, b'x', b'y']
    );
    assert_eq!(
        error_reply(ByteOrder::Little, 3, 38),
        [16, 0, 0, 0, 0xda, 0xff, 0xff, 0xff, 3, 0, 0, 0, 0, 0, 0, 0]
    );
    assert_eq!(
        outcome_reply(ByteOrder::Little, 3, DefaultOutcome::Error(38)),
        Some(error_reply(ByteOrder::Little, 3, 38))
    );
    assert_eq!(
        outcome_reply(ByteOrder::Little, 3, DefaultOutcome::Empty),
        Some(vec![16, 0, 0, 0, 0, 0, 0, 0, 3, 0, 0, 0, 0, 0, 0, 0])
    );
    assert_eq!(
        outcome_reply(ByteOrder::Little, 3, DefaultOutcome::Opened { fh: 9, flags: 7 }),
        Some(vec![
            32, 0, 0, 0, 0, 0, 0, 0, 3, 0, 0, 0, 0, 0, 0, 0, 9, 0, 0, 0, 0, 0, 0, 0, 7, 0, 0, 0, 0,
            0, 0, 0
        ])
    );
}

#[test]
fn operations_of_the_connection_have_no_call() {
    assert_eq!(find_call(1, Operation::Destroy), None);
    assert_eq!(find_call(1, Operation::Interrupt { unique: 1 }), None);
    assert_eq!(find_call(1, Operation::ReadLink), Some(FsCall::ReadLink { ino: 1 }));
}
