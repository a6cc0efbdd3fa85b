//! Queues of an io_uring session.
use fuse_session::async_session::ReaderStep;
use fuse_session::platform::Errnos;
use fuse_session::session::{MountOption, SessionACL, MAX_WRITE_SIZE};
use fuse_session::uring_session::{
    after_wait, completions_awaited, is_submit_due, mount_uring, next_worker_step, ring_setup,
    worker_cpu, worker_plan, worker_threads, workers_result, AfterWait, Completion, FuseUringCmd,
    FuseUringCmdReq, FuseUringEntInOut, FuseUringReqHeader, RingEntry, RingFull, RingQueue,
    RingQueueConfig, RingSetup, SharedSessionState, WorkerEvent, WorkerStep,
    FUSE_URING_REQ_HEADER_SZ, MAX_QUEUE_DEPTH,
};
use fuse_session::wire::ByteOrder;

#[test]
fn commands_are_laid_out_in_80_bytes() {
    let req = FuseUringCmdReq { flags: 1, commit_id: 0x0102_0304, qid: 7, padding: [9; 6] };
    let mut want = [0u8; 80];
    want[0..8].copy_from_slice(&1u64.to_ne_bytes());
    want[8..16].copy_from_slice(&0x0102_0304u64.to_ne_bytes());
    want[16..18].copy_from_slice(&7u16.to_ne_bytes());
    assert_eq!(req.to_cmd_bytes(), want);
    let big = req.to_cmd_bytes_in(ByteOrder::Big);
    assert_eq!(big[7], 1);
    assert_eq!(big[12..16], [1, 2, 3, 4]);
    assert_eq!(big[16..18], [0, 7]);
    assert!(big[18..].iter().all(|b| *b == 0));
    assert_eq!(FuseUringCmdReq::default().to_cmd_bytes(), [0; 80]);
}

#[test]
fn commands_have_numbers() {
    assert_eq!(FuseUringCmd::Invalid.code(), 0);
    assert_eq!(FuseUringCmd::Register.code(), 1);
    assert_eq!(FuseUringCmd::CommitAndFetch.code(), 2);
}

#[test]
fn new_entries_are_zero() {
    let header = FuseUringReqHeader::default();
    assert_eq!(header.in_out, [0; 128]);
    assert_eq!(header.op_in, [0; 128]);
    assert_eq!(header.ring_ent_in_out, FuseUringEntInOut::default());
    let entry = RingEntry::new(100);
    assert_eq!(entry.payload, [0; 100]);
    assert_eq!(entry.commit_id, 0);
    assert_eq!(entry.last_cmd, FuseUringCmd::Invalid);
    assert_eq!(entry.iovec_lens(), (288, 100));
    assert_eq!(FUSE_URING_REQ_HEADER_SZ, 128 + 128 + 32);
}

#[test]
fn rings_are_set_up_for_their_depth() {
    let plain = RingQueueConfig::default();
    assert_eq!(plain, RingQueueConfig { sqpoll: false, sqpoll_idle_ms: 0, pin_cpu: None });
    assert_eq!(
        ring_setup(32, plain),
        RingSetup { sq_entries: 33, cq_entries: 64, sqpoll_idle_ms: None, sqpoll_cpu: None }
    );
    let pinned = RingQueueConfig { sqpoll: true, sqpoll_idle_ms: 5, pin_cpu: Some(3) };
    assert_eq!(
        ring_setup(1, pinned),
        RingSetup { sq_entries: 2, cq_entries: 2, sqpoll_idle_ms: Some(5), sqpoll_cpu: Some(3) }
    );
    // A kernel that does not poll is not pinned.
    let unpolled = RingQueueConfig { sqpoll: false, ..pinned };
    assert_eq!(ring_setup(1, unpolled).sqpoll_cpu, None);
    assert_eq!(ring_setup(1, unpolled).sqpoll_idle_ms, None);
}

#[test]
fn a_queue_is_pinned_on_one_side() {
    let polled = RingQueueConfig { sqpoll: true, sqpoll_idle_ms: 0, pin_cpu: Some(3) };
    let unpolled = RingQueueConfig { sqpoll: false, ..polled };
    assert_eq!(worker_cpu(polled), None);
    assert_eq!(worker_cpu(unpolled), Some(3));
    assert_eq!(worker_cpu(RingQueueConfig::default()), None);
    assert_eq!(RingQueue::with_config(0, 1, 1, 0, unpolled).worker_cpu, Some(3));
    assert_eq!(RingQueue::with_config(0, 1, 1, 0, polled).worker_cpu, None);
    assert_eq!(RingQueue::new(0, 1, 1, 0).worker_cpu, None);
}

#[test]
fn a_queue_has_its_entries() {
    let mut queue = RingQueue::new(2, 4, 16, 9);
    assert_eq!(queue.depth(), 4);
    assert_eq!((queue.qid, queue.fuse_fd), (2, 9));
    assert!(queue.submits_by_call());
    queue.entry_mut(3).commit_id = 8;
    assert_eq!(queue.entries[3].commit_id, 8);
    assert_eq!(queue.entries[2].commit_id, 0);
    let polled = RingQueueConfig { sqpoll: true, ..RingQueueConfig::default() };
    assert!(!RingQueue::with_config(0, 1, 1, 0, polled).submits_by_call());
}

#[test]
fn submissions_carry_their_entry() {
    let queue = RingQueue::new(0, 4, 16, 9);
    let submission = queue.queue_register(2, 0x1000);
    assert_eq!(submission.get_user_data(), 2);
    assert_eq!(submission.get_opcode(), io_uring::opcode::UringCmd80::CODE as u32);
    let submission = queue.queue_commit_and_fetch(3);
    assert_eq!(submission.get_user_data(), 3);
}

#[test]
fn a_command_is_issued_when_the_ring_took_it() {
    let mut queue = RingQueue::new(0, 4, 16, 9);
    assert_eq!(queue.note_push(2, FuseUringCmd::Register, true), Ok(()));
    assert_eq!(queue.entries[2].last_cmd, FuseUringCmd::Register);
    assert_eq!(queue.entries[1].last_cmd, FuseUringCmd::Invalid);
    assert_eq!(queue.note_push(2, FuseUringCmd::CommitAndFetch, false), Err(RingFull));
    assert_eq!(queue.entries[2].last_cmd, FuseUringCmd::Register);
}

#[test]
fn all_entries_are_registered_in_order() {
    let mut queue = RingQueue::new(1, 3, 16, 9);
    let submissions = queue.register_all(&[10, 20, 30]);
    let marks: Vec<u64> = submissions.iter().map(|s| s.get_user_data()).collect();
    assert_eq!(marks, [0, 1, 2]);
    assert_eq!(queue.note_registered(2), Err(RingFull));
    assert_eq!(queue.entries[1].last_cmd, FuseUringCmd::Register);
    assert_eq!(queue.entries[2].last_cmd, FuseUringCmd::Invalid);
    assert_eq!(queue.note_registered(3), Ok(()));
    assert!(queue.entries.iter().all(|e| e.last_cmd == FuseUringCmd::Register));
    assert_eq!(MAX_QUEUE_DEPTH, 64);
}

#[test]
fn replies_are_committed_when_the_ring_took_them() {
    let mut queue = RingQueue::new(1, 3, 16, 9);
    assert_eq!(queue.note_committed(&[(0, true), (1, false), (0, true), (0, false)]), 2);
    assert_eq!(queue.entries[0].last_cmd, FuseUringCmd::CommitAndFetch);
    assert_eq!(queue.entries[1].last_cmd, FuseUringCmd::Invalid);
    assert_eq!(queue.note_committed(&[]), 0);
}

fn queue_with_requests() -> RingQueue {
    let mut queue = RingQueue::new(1, 3, 4, 9);
    for (i, entry) in queue.entries.iter_mut().enumerate() {
        entry.header.in_out = [i as u8 + 1; 128];
        entry.header.ring_ent_in_out.commit_id = 100 + i as u64;
        entry.header.ring_ent_in_out.payload_sz = 4;
        entry.payload = vec![7; 4];
    }
    queue
}

#[test]
fn a_request_is_refused_in_its_entry() {
    let mut queue = queue_with_requests();
    match queue.complete(1, 0) {
        Completion::Submit(submission) => assert_eq!(submission.get_user_data(), 1),
        other => panic!("unexpected {:?}", other),
    }
    let entry = &queue.entries[1];
    assert_eq!(entry.commit_id, 101);
    assert_eq!(entry.last_cmd, FuseUringCmd::Invalid);
    assert_eq!(entry.header.in_out[0..4], [2; 4]);
    assert_eq!(entry.header.in_out[4..8], (-libc::ENOSYS).to_ne_bytes());
    assert_eq!(entry.header.in_out[8..], [2; 120]);
    assert_eq!(entry.header.ring_ent_in_out.payload_sz, 0);
    assert_eq!(entry.header.ring_ent_in_out.commit_id, 101);
    assert_eq!(entry.payload, [7; 4]);
    assert_eq!(queue.entries[0].commit_id, 0);
    assert_eq!(queue.entries[0].header.in_out, [1; 128]);
}

#[test]
fn failed_completions_change_nothing() {
    let mut queue = queue_with_requests();
    assert!(matches!(queue.complete(1, -libc::ENODEV), Completion::Unmounted));
    match queue.complete(99, -libc::EINVAL) {
        Completion::Failed { errno } => assert_eq!(errno, libc::EINVAL),
        other => panic!("unexpected {:?}", other),
    }
    assert_eq!(queue.entries[1].header.in_out, [2; 128]);
    assert_eq!(queue.entries[1].last_cmd, FuseUringCmd::Invalid);
}

#[test]
fn a_batch_is_answered_in_order() {
    let mut queue = queue_with_requests();
    let answers =
        queue.complete_all(&[(2, 0), (1, -libc::EIO), (0, 5), (2, 0), (7, -libc::ENODEV)]);
    let marks: Vec<(usize, u64)> =
        answers.submissions.iter().map(|(idx, s)| (*idx, s.get_user_data())).collect();
    assert_eq!(marks, [(2, 2), (0, 0), (2, 2)]);
    assert_eq!(answers.failures, [(1, libc::EIO)]);
    assert_eq!(queue.entries[2].commit_id, 102);
    assert_eq!(queue.entries[0].commit_id, 100);
    assert_eq!(queue.entries[1].commit_id, 0);
    assert_eq!(queue.entries[2].header.in_out[8..], [3; 120]);
    assert!(queue.complete_all(&[]).submissions.is_empty());
}

#[test]
fn completions_are_drained_into_a_buffer() {
    let mut buffer = vec![(9usize, 9i32)];
    assert_eq!(RingQueue::drain_completions(&[(3, 0), (1, -5)], &mut buffer), 2);
    assert_eq!(buffer, [(3, 0), (1, -5)]);
    assert_eq!(RingQueue::drain_completions(&[], &mut buffer), 0);
    assert!(buffer.is_empty());
}

#[test]
fn waiting_goes_on_after_an_interrupt() {
    let errnos = Errnos::native();
    assert_eq!(after_wait(errnos, Ok(1)), AfterWait::Handle);
    assert_eq!(after_wait(errnos, Err(Some(libc::EINTR))), AfterWait::Retry);
    assert_eq!(after_wait(errnos, Err(Some(libc::ENODEV))), AfterWait::Stop);
    assert_eq!(after_wait(errnos, Err(Some(libc::EAGAIN))), AfterWait::Fail);
    assert_eq!(after_wait(errnos, Err(None)), AfterWait::Fail);
    assert!(is_submit_due(1));
    assert!(!is_submit_due(0));
    assert_eq!(completions_awaited(0), 1);
    assert_eq!(completions_awaited(1), 1);
    assert_eq!(completions_awaited(4), 4);
}

#[test]
fn zero_workers_mean_one_per_processor() {
    assert_eq!(worker_threads(0, Some(8)), 8);
    assert_eq!(worker_threads(0, None), 1);
    assert_eq!(worker_threads(0, Some(0)), 1);
    assert_eq!(worker_threads(3, Some(8)), 3);
}

#[test]
fn mounting_settles_workers_and_queues() {
    let mount = mount_uring(vec![MountOption::AllowOther], 1, Some(8));
    assert_eq!(mount.options, [MountOption::AllowOther]);
    assert_eq!(mount.state.allowed, SessionACL::All);
    assert_eq!(mount.plan.qids, [0]);
    assert!(mount.plan.runs_on_caller);
    assert_eq!((mount.plan.depth, mount.plan.payload_sz), (32, MAX_WRITE_SIZE));
    let plan = worker_plan(0, Some(4));
    assert_eq!(plan.qids, [0, 1, 2, 3]);
    assert!(!plan.runs_on_caller);
}

#[test]
fn results_of_workers() {
    assert_eq!(workers_result(true, vec![Some(Err(5))]), Err(5));
    assert_eq!(workers_result::<i32>(true, vec![Some(Ok(()))]), Ok(()));
    assert_eq!(workers_result(false, vec![Some(Err(5)), None]), Ok(()));
}

#[test]
fn workers_stop_on_a_signal() {
    let mut state = SharedSessionState::new(SessionACL::All);
    assert_eq!(state.next_reader_step(), ReaderStep::Read);
    assert!(state.close_uring());
    assert!(!state.close_uring());
    assert_eq!(state.next_reader_step(), ReaderStep::Stop);
}

fn steps(events: &[WorkerEvent]) -> Vec<WorkerStep> {
    let mut step = WorkerStep::Register;
    let mut all = vec![step];
    for event in events {
        step = next_worker_step(Errnos::native(), step, *event);
        all.push(step);
    }
    all
}

#[test]
fn a_worker_registers_checks_and_waits() {
    let events = [
        WorkerEvent::Registered(Ok(())),
        WorkerEvent::Submitted(true),
        WorkerEvent::Checked(ReaderStep::Read),
        WorkerEvent::Waited(Err(Some(libc::EINTR))),
        WorkerEvent::Checked(ReaderStep::Read),
        WorkerEvent::Waited(Ok(2)),
        WorkerEvent::Handled(2),
        WorkerEvent::Submitted(false),
        WorkerEvent::Checked(ReaderStep::Read),
        WorkerEvent::Waited(Ok(0)),
        WorkerEvent::Handled(0),
        WorkerEvent::Checked(ReaderStep::Stop),
    ];
    assert_eq!(
        steps(&events),
        [
            WorkerStep::Register,
            WorkerStep::SubmitRegistrations,
            WorkerStep::CheckShutdown,
            WorkerStep::Wait,
            WorkerStep::CheckShutdown,
            WorkerStep::Wait,
            WorkerStep::Handle,
            WorkerStep::SubmitReplies,
            WorkerStep::CheckShutdown,
            WorkerStep::Wait,
            WorkerStep::Handle,
            WorkerStep::CheckShutdown,
            WorkerStep::Finish,
        ]
    );
}

#[test]
fn a_worker_fails_when_it_cannot_start_or_wait() {
    let full = [WorkerEvent::Registered(Err(RingFull))];
    assert_eq!(steps(&full).last(), Some(&WorkerStep::Fail));
    let started = [WorkerEvent::Registered(Ok(())), WorkerEvent::Submitted(true)];
    let refused = [started[0], WorkerEvent::Submitted(false)];
    assert_eq!(steps(&refused).last(), Some(&WorkerStep::Fail));
    let go_on = WorkerEvent::Checked(ReaderStep::Read);
    let broken = [started[0], started[1], go_on, WorkerEvent::Waited(Err(None))];
    assert_eq!(steps(&broken).last(), Some(&WorkerStep::Fail));
    let gone = [started[0], started[1], go_on, WorkerEvent::Waited(Err(Some(libc::ENODEV)))];
    assert_eq!(steps(&gone).last(), Some(&WorkerStep::Finish));
    // What cannot come of a step changes nothing.
    assert_eq!(steps(&[go_on]).last(), Some(&WorkerStep::Register));
}
