//! What holds of a session on io_uring as a whole: what its commands carry, how its workers go
//! from step to step, and what it is set up with.
use crate::async_session::{ReaderStep, SharedSessionState};
use crate::platform::Errnos;
use crate::uring_session::{
    self, FuseUringCmd, RingEntry, RingQueue, RingQueueConfig, WorkerEvent, WorkerPlan, WorkerStep,
};
use crate::wire::{self, ByteOrder};
use vstd::prelude::*;

verus! {

/// The submission that registers an entry is the first command on the first registered file. It
/// carries the address of the areas, the number of the entry and that of the queue, and no
/// commit identifier.
pub proof fn law_what_a_registration_carries(queue: RingQueue, idx: usize, iov_ptr: u64)
    ensures
        exists|cmd: Seq<u8>|
            #![trigger uring_session::uring_cmd_entry(0, 1, cmd, Some(iov_ptr), idx as u64)]
            {
                &&& queue.register_entry(idx as int, iov_ptr) == uring_session::uring_cmd_entry(
                    0,
                    1,
                    cmd,
                    Some(iov_ptr),
                    idx as u64,
                )
                &&& cmd.len() == 80
                &&& wire::u64_at(queue.order, cmd, 0) == 0
                &&& wire::u64_at(queue.order, cmd, 8) == 0
                &&& wire::uint_at(queue.order, cmd, 16, 2) == queue.qid % 0x1_0000
                &&& forall|i: int| 18 <= i < 80 ==> cmd[i] == 0
            },
{
    uring_session::law_command_reads_back(queue.order, 0, 0, queue.command_qid());
    let cmd = uring_session::cmd_bytes(queue.order, 0, 0, queue.command_qid());
    assert(queue.register_entry(idx as int, iov_ptr) == uring_session::uring_cmd_entry(
        0,
        1,
        cmd,
        Some(iov_ptr),
        idx as u64,
    ));
}

/// The submission that commits a reply is the second command on the first registered file. It
/// carries the commit identifier of the reply, the number of the entry and that of the queue,
/// and no address.
pub proof fn law_what_a_commit_carries(queue: RingQueue, idx: usize, commit_id: u64)
    ensures
        exists|cmd: Seq<u8>|
            #![trigger uring_session::uring_cmd_entry(0, 2, cmd, None, idx as u64)]
            {
                &&& queue.commit_entry(idx as int, commit_id) == uring_session::uring_cmd_entry(
                    0,
                    2,
                    cmd,
                    None,
                    idx as u64,
                )
                &&& cmd.len() == 80
                &&& wire::u64_at(queue.order, cmd, 0) == 0
                &&& wire::u64_at(queue.order, cmd, 8) == commit_id
                &&& wire::uint_at(queue.order, cmd, 16, 2) == queue.qid % 0x1_0000
                &&& forall|i: int| 18 <= i < 80 ==> cmd[i] == 0
            },
{
    uring_session::law_command_reads_back(queue.order, 0, commit_id, queue.command_qid());
    let cmd = uring_session::cmd_bytes(queue.order, 0, commit_id, queue.command_qid());
    assert(queue.commit_entry(idx as int, commit_id) == uring_session::uring_cmd_entry(
        0,
        2,
        cmd,
        None,
        idx as u64,
    ));
}

/// The bytes of a command are its flags, the commit identifier and the number of the queue, laid
/// out one behind the other, and zeros up to eighty.
pub proof fn law_command_layout(o: ByteOrder, flags: u64, commit_id: u64, qid: u16)
    ensures
        uring_session::cmd_bytes(o, flags, commit_id, qid) == wire::uint_bytes(o, flags as nat, 8)
            + wire::uint_bytes(o, commit_id as nat, 8) + wire::uint_bytes(o, qid as nat, 2)
            + Seq::new(62, |i: int| 0u8),
{
}

/// By its number the kernel knows which command is meant.
pub proof fn law_command_numbers(cmd: FuseUringCmd)
    ensures
        cmd.number() == 0 <==> cmd is Invalid,
        cmd.number() == 1 <==> cmd is Register,
        cmd.number() == 2 <==> cmd is CommitAndFetch,
{
}

/// The number of a queue is carried as it is, as far as sixteen bits hold it.
pub proof fn law_queue_numbers_are_carried(queue: RingQueue)
    ensures
        queue.qid < 0x1_0000 ==> queue.command_qid() == queue.qid,
        (queue.qid - queue.command_qid()) % 0x1_0000 == 0,
{
}

/// Every completion that brings in a request is answered, in the order of the completions, by
/// the submission that commits a reply in its entry under the commit identifier that the header
/// of the entry holds.
pub proof fn law_answers_follow_the_completions(queue: RingQueue, completions: Seq<(usize, i32)>)
    ensures
        queue.answers(completions, completions.len() as int) == completions.filter(
            |c: (usize, i32)| c.1 >= 0,
        ).map_values(
            |c: (usize, i32)|
                (
                    c.0,
                    queue.commit_entry(
                        c.0 as int,
                        queue.entries@[c.0 as int].header.ring_ent_in_out.commit_id,
                    ),
                ),
        ),
    decreases completions.len(),
{
    reveal(Seq::filter);
    let ok = |c: (usize, i32)| c.1 >= 0;
    let answer = |c: (usize, i32)|
        (
            c.0,
            queue.commit_entry(
                c.0 as int,
                queue.entries@[c.0 as int].header.ring_ent_in_out.commit_id,
            ),
        );
    if completions.len() > 0 {
        let before = completions.drop_last();
        law_answers_follow_the_completions(queue, before);
        lemma_answers_of_prefix(queue, completions, before, before.len() as int);
        if ok(completions.last()) {
            assert(completions.filter(ok) =~= before.filter(ok).push(completions.last()));
            assert(before.filter(ok).push(completions.last()).map_values(answer) =~= before.filter(
                ok,
            ).map_values(answer).push(answer(completions.last())));
        } else {
            assert(completions.filter(ok) =~= before.filter(ok));
        }
    }
}

proof fn lemma_answers_of_prefix(
    queue: RingQueue,
    a: Seq<(usize, i32)>,
    b: Seq<(usize, i32)>,
    n: int,
)
    requires
        n <= a.len(),
        n <= b.len(),
        forall|i: int| 0 <= i < n ==> a[i] == b[i],
    ensures
        queue.answers(a, n) == queue.answers(b, n),
        queue.failures(a, n) == queue.failures(b, n),
    decreases n,
{
    if n > 0 {
        lemma_answers_of_prefix(queue, a, b, n - 1);
    }
}

/// Every completion with an error is reported with the number of the error, in the order of the
/// completions, unless the error is that the device is gone.
pub proof fn law_failures_follow_the_completions(queue: RingQueue, completions: Seq<(usize, i32)>)
    ensures
        queue.failures(completions, completions.len() as int) == completions.filter(
            |c: (usize, i32)| c.1 < 0 && c.1 + queue.errnos.enodev != 0,
        ).map_values(|c: (usize, i32)| (c.0, (-c.1) as i32)),
    decreases completions.len(),
{
    reveal(Seq::filter);
    let failed = |c: (usize, i32)| c.1 < 0 && c.1 + queue.errnos.enodev != 0;
    let report = |c: (usize, i32)| (c.0, (-c.1) as i32);
    if completions.len() > 0 {
        let before = completions.drop_last();
        law_failures_follow_the_completions(queue, before);
        lemma_answers_of_prefix(queue, completions, before, before.len() as int);
        if failed(completions.last()) {
            assert(completions.filter(failed) =~= before.filter(failed).push(completions.last()));
            assert(before.filter(failed).push(completions.last()).map_values(report)
                =~= before.filter(failed).map_values(report).push(report(completions.last())));
        } else {
            assert(completions.filter(failed) =~= before.filter(failed));
        }
    }
}

/// A request has come in for an entry exactly if a completion names the entry without an error.
pub proof fn law_what_has_come_in(completions: Seq<(usize, i32)>, i: usize)
    ensures
        uring_session::is_completed(completions, completions.len() as int, i as int) <==> exists|
            result: i32,
        | #[trigger]
            completions.contains((i, result)) && result >= 0,
{
    let n = completions.len() as int;
    if uring_session::is_completed(completions, n, i as int) {
        let k = choose|k: int|
            0 <= k < n && completions[k].1 >= 0 && #[trigger] completions[k].0 == i;
        assert(completions[k] == (i, completions[k].1));
        assert(completions.contains((i, completions[k].1)));
    }
    if exists|result: i32| #[trigger] completions.contains((i, result)) && result >= 0 {
        let result = choose|result: i32| #[trigger]
            completions.contains((i, result)) && result >= 0;
        let k = choose|k: int| 0 <= k < n && completions[k] == (i, result);
        assert(completions[k].0 == i);
    }
}

/// A submission for an entry was taken exactly if one that was is among them, and as many were
/// taken as are marked so.
pub proof fn law_what_was_taken(pushes: Seq<(usize, bool)>, i: usize)
    ensures
        uring_session::is_pushed(pushes, pushes.len() as int, i as int) <==> pushes.contains(
            (i, true),
        ),
        uring_session::count_pushed(pushes, pushes.len() as int) == pushes.filter(
            |p: (usize, bool)| p.1,
        ).len(),
{
    let n = pushes.len() as int;
    if uring_session::is_pushed(pushes, n, i as int) {
        let k = choose|k: int| 0 <= k < n && pushes[k].1 && #[trigger] pushes[k].0 == i;
        assert(pushes[k] == (i, true));
    }
    if pushes.contains((i, true)) {
        let k = choose|k: int| 0 <= k < n && pushes[k] == (i, true);
        assert(pushes[k].0 == i);
    }
    lemma_count_pushed(pushes);
}

proof fn lemma_count_pushed(pushes: Seq<(usize, bool)>)
    ensures
        uring_session::count_pushed(pushes, pushes.len() as int) == pushes.filter(
            |p: (usize, bool)| p.1,
        ).len(),
    decreases pushes.len(),
{
    reveal(Seq::filter);
    if pushes.len() > 0 {
        lemma_count_pushed(pushes.drop_last());
        lemma_count_of_prefix(pushes, pushes.drop_last(), pushes.len() - 1);
    }
}

proof fn lemma_count_of_prefix(a: Seq<(usize, bool)>, b: Seq<(usize, bool)>, n: int)
    requires
        n <= a.len(),
        n <= b.len(),
        forall|i: int| 0 <= i < n ==> a[i] == b[i],
    ensures
        uring_session::count_pushed(a, n) == uring_session::count_pushed(b, n),
    decreases n,
{
    if n > 0 {
        lemma_count_of_prefix(a, b, n - 1);
    }
}

/// To refuse the request in an entry changes the error in the header of the reply, the size of
/// the payload and the commit identifier of the entry, and nothing else.
pub proof fn law_refusing_changes_three_things(
    o: ByteOrder,
    errnos: Errnos,
    before: RingEntry,
    after: RingEntry,
)
    requires
        errnos.is_valid(),
        uring_session::is_refused(o, errnos, before, after),
    ensures
        wire::i32_at(o, after.header.in_out@, 4) == -errnos.enosys,
        after.header.in_out@.len() == before.header.in_out@.len(),
        forall|i: int|
            0 <= i < 4 || 8 <= i < after.header.in_out@.len() ==> after.header.in_out@[i]
                == before.header.in_out@[i],
        after.header.op_in@ == before.header.op_in@,
        after.header.ring_ent_in_out.flags == before.header.ring_ent_in_out.flags,
        after.header.ring_ent_in_out.commit_id == before.header.ring_ent_in_out.commit_id,
        after.header.ring_ent_in_out.payload_sz == 0,
        after.header.ring_ent_in_out.padding == before.header.ring_ent_in_out.padding,
        after.header.ring_ent_in_out.reserved == before.header.ring_ent_in_out.reserved,
        after.payload@ == before.payload@,
        after.commit_id == before.header.ring_ent_in_out.commit_id,
        after.last_cmd == before.last_cmd,
{
    uring_session::law_refusal_reads_back(o, errnos, before, after);
    wire::lemma_uint_bytes_len(o, wire::pattern32(-errnos.enosys), 4);
}

/// Everything in an entry is zero when it is made, it has room for as much payload as was asked
/// for, and no command has been issued.
pub proof fn law_fresh_entries_are_zero(entry: RingEntry, payload_sz: nat)
    requires
        uring_session::is_fresh(entry, payload_sz),
    ensures
        entry.header.in_out@.len() == 128,
        forall|i: int| 0 <= i < 128 ==> entry.header.in_out@[i] == 0,
        entry.header.op_in@.len() == 128,
        forall|i: int| 0 <= i < 128 ==> entry.header.op_in@[i] == 0,
        entry.header.ring_ent_in_out.flags == 0,
        entry.header.ring_ent_in_out.commit_id == 0,
        entry.header.ring_ent_in_out.payload_sz == 0,
        entry.header.ring_ent_in_out.padding == 0,
        entry.header.ring_ent_in_out.reserved == 0,
        entry.payload@.len() == payload_sz,
        forall|i: int| 0 <= i < payload_sz ==> entry.payload@[i] == 0,
        entry.commit_id == 0,
        entry.last_cmd == FuseUringCmd::Invalid,
{
}

/// Two queues that differ in their entries only have all else in common, and have as many
/// entries.
pub proof fn law_what_queues_have_in_common(a: RingQueue, b: RingQueue)
    ensures
        a.differs_in_entries_only(b) <==> {
            &&& a.qid == b.qid
            &&& a.fuse_fd == b.fuse_fd
            &&& a.sqpoll == b.sqpoll
            &&& a.worker_cpu == b.worker_cpu
            &&& a.order == b.order
            &&& a.errnos == b.errnos
            &&& a.entries@.len() == b.entries@.len()
        },
{
}

/// The sizes of the areas of a request, of a queue and of its entries.
pub proof fn law_sizes()
    ensures
        uring_session::FUSE_URING_IN_OUT_HEADER_SZ == 128,
        uring_session::FUSE_URING_OP_IN_OUT_SZ == 128,
        uring_session::FUSE_URING_ENT_IN_OUT_SZ == 32,
        uring_session::FUSE_URING_REQ_HEADER_SZ == 288,
        uring_session::QUEUE_DEPTH == 32,
        uring_session::MAX_QUEUE_DEPTH == 64,
        uring_session::REGISTERED_FUSE_FILE == 0,
{
}

/// What a ring takes of a number are its lowest 32 bits.
pub proof fn law_low_bits(n: int)
    ensures
        0 <= uring_session::low32(n) < 0x1_0000_0000,
        (n - uring_session::low32(n)) % 0x1_0000_0000 == 0,
        0 <= n < 0x1_0000_0000 ==> uring_session::low32(n) == n,
{
}

/// A ring has one submission more than there are entries, and twice as many completions. The
/// kernel polls for submissions exactly if it is asked to, as long as it is asked to, and on a
/// processor only if it polls and one is given.
pub proof fn law_what_a_ring_is_set_up_with(depth: usize, config: RingQueueConfig)
    requires
        depth * 2 < 0x1_0000_0000,
    ensures
        ({
            let setup = uring_session::ring_setup_of(depth, config);
            &&& setup.sq_entries == depth + 1
            &&& setup.cq_entries == depth + depth
            &&& setup.sqpoll_idle_ms is Some <==> config.sqpoll
            &&& config.sqpoll ==> setup.sqpoll_idle_ms == Some(config.sqpoll_idle_ms)
            &&& setup.sqpoll_cpu is Some <==> config.sqpoll && config.pin_cpu is Some
            &&& config.sqpoll ==> (config.pin_cpu matches Some(cpu) ==> setup.sqpoll_cpu == Some(
                (cpu as int % 0x1_0000_0000) as u32,
            ))
        }),
        uring_session::worker_cpu_of(config) is Some <==> !config.sqpoll && config.pin_cpu is Some,
        !config.sqpoll ==> uring_session::worker_cpu_of(config) == config.pin_cpu,
{
}

/// Numbers that do not fit into 32 bits are cut, each by itself.
pub proof fn law_large_rings_are_cut(depth: usize, config: RingQueueConfig)
    ensures
        (depth + 1 - uring_session::ring_setup_of(depth, config).sq_entries) % 0x1_0000_0000 == 0,
        (depth + depth - uring_session::ring_setup_of(depth, config).cq_entries) % 0x1_0000_0000
            == 0,
{
}

/// A worker handles completions whenever its wait succeeds, waits again after an interruption
/// alone, and ends well only when the device is gone.
pub proof fn law_after_a_wait(errnos: Errnos, outcome: Result<usize, Option<i32>>)
    requires
        errnos.is_valid(),
    ensures
        uring_session::after_wait_of(errnos, outcome) is Handle <==> outcome is Ok,
        uring_session::after_wait_of(errnos, outcome) is Retry <==> outcome == Err::<
            usize,
            Option<i32>,
        >(Some(errnos.eintr)),
        uring_session::after_wait_of(errnos, outcome) is Stop <==> outcome == Err::<
            usize,
            Option<i32>,
        >(Some(errnos.enodev)),
        errnos.is_of_linux() ==> {
            &&& uring_session::after_wait_of(errnos, outcome) is Retry <==> (
            outcome matches Err(Some(errno)) && errno == 4)
            &&& uring_session::after_wait_of(errnos, outcome) is Stop <==> (
            outcome matches Err(Some(errno)) && errno == 19)
        },
{
}

/// From which steps, and by which events, a worker comes to each of its steps. It comes to
/// registering by none, and stays where it is when an event cannot come of its step.
pub proof fn law_steps_of_a_worker(errnos: Errnos, step: WorkerStep, event: WorkerEvent)
    requires
        errnos.is_valid(),
    ensures
        ({
            let next = uring_session::worker_step_of(errnos, step, event);
            &&& uring_session::comes_of(step, event) ==> {
                &&& next !is Register
                &&& next is SubmitRegistrations <==> (
                event matches WorkerEvent::Registered(queued) && queued is Ok)
                &&& next is CheckShutdown <==> {
                    ||| step is SubmitRegistrations && event == WorkerEvent::Submitted(true)
                    ||| step is SubmitReplies
                    ||| event == WorkerEvent::Handled(0)
                    ||| (event matches WorkerEvent::Waited(Err(Some(errno))) && errno
                        == errnos.eintr)
                }
                &&& next is Wait <==> event == WorkerEvent::Checked(ReaderStep::Read)
                &&& next is Handle <==> (event matches WorkerEvent::Waited(Ok(_)))
                &&& next is SubmitReplies <==> (event matches WorkerEvent::Handled(n) && n > 0)
                &&& next is Finish <==> {
                    ||| event == WorkerEvent::Checked(ReaderStep::Stop)
                    ||| (event matches WorkerEvent::Waited(Err(Some(errno))) && errno
                        == errnos.enodev)
                }
                &&& next is Fail <==> {
                    ||| (event matches WorkerEvent::Registered(queued) && queued is Err)
                    ||| step is SubmitRegistrations && event == WorkerEvent::Submitted(false)
                    ||| (event matches WorkerEvent::Waited(Err(reason)) && reason != Some(
                        errnos.eintr,
                    ) && reason != Some(errnos.enodev))
                }
            }
            &&& !uring_session::comes_of(step, event) ==> next == step
        }),
{
}

/// Which events can come of each step of a worker. None comes of the last ones.
pub proof fn law_events_of_a_worker(step: WorkerStep, event: WorkerEvent)
    ensures
        uring_session::comes_of(step, event) <==> {
            ||| step is Register && event is Registered
            ||| step is SubmitRegistrations && event is Submitted
            ||| step is CheckShutdown && event is Checked
            ||| step is Wait && event is Waited
            ||| step is Handle && event is Handled
            ||| step is SubmitReplies && event is Submitted
        },
{
}

/// A worker starts by registering, and each event that comes of its step takes it one step
/// further.
pub proof fn law_workers_go_step_by_step(
    errnos: Errnos,
    events: Seq<WorkerEvent>,
    event: WorkerEvent,
)
    ensures
        uring_session::worker_after(errnos, seq![]) is Register,
        uring_session::is_worker_history(errnos, seq![]),
        uring_session::worker_after(errnos, events.push(event)) == uring_session::worker_step_of(
            errnos,
            uring_session::worker_after(errnos, events),
            event,
        ),
        uring_session::is_worker_history(errnos, events.push(event)) <==> {
            &&& uring_session::is_worker_history(errnos, events)
            &&& uring_session::comes_of(uring_session::worker_after(errnos, events), event)
        },
{
    assert(events.push(event).drop_last() =~= events);
}

/// A session has as many workers as it is asked for; asked for none, it has one per processor,
/// or one if it does not know of any.
pub proof fn law_number_of_workers(num_threads: usize, cores: Option<usize>)
    ensures
        num_threads > 0 ==> uring_session::workers_of(num_threads, cores) == num_threads,
        num_threads == 0 ==> (cores matches Some(n) ==> n > 0 ==> uring_session::workers_of(
            num_threads,
            cores,
        ) == n),
        num_threads == 0 && (cores is None || cores == Some(0usize)) ==> uring_session::workers_of(
            num_threads,
            cores,
        ) == 1,
{
}

/// A worker waits for at least one completion, and for as many as it is asked to.
pub proof fn law_completions_awaited(min_complete: usize)
    ensures
        uring_session::awaited_of(min_complete) >= 1,
        uring_session::awaited_of(min_complete) >= min_complete,
        uring_session::awaited_of(min_complete) > min_complete ==> min_complete == 0
            && uring_session::awaited_of(min_complete) == 1,
{
}

/// A session ends with an error exactly if its only worker ran on the thread of the session and
/// met that error; those of workers with threads of their own are lost.
pub proof fn law_result_of_the_workers<E>(results: Seq<Option<Result<(), E>>>)
    ensures
        uring_session::workers_result_of(false, results) is Ok,
        results.len() == 1 ==> (results[0] matches Some(Err(err)) ==> (
        uring_session::workers_result_of(true, results) matches Err(met) && met == err)),
        results.len() == 1 ==> (results[0] matches Some(Ok(_)) ==> uring_session::workers_result_of(
            true,
            results,
        ) is Ok),
{
}

/// The queue of each worker has its place among them as its number, thirty-two entries, and room
/// for sixteen mebibytes in each; the only worker of a session needs no thread of its own.
pub proof fn law_what_a_plan_is(plan: WorkerPlan, num_threads: usize, cores: Option<usize>)
    requires
        plan.is_for(num_threads, cores),
    ensures
        plan.qids@.len() == uring_session::workers_of(num_threads, cores),
        forall|i: int| 0 <= i < plan.qids@.len() ==> plan.qids@[i] == i,
        plan.runs_on_caller <==> plan.qids@.len() == 1,
        plan.depth == 32,
        plan.payload_sz == 16777216,
{
}

/// That a session on io_uring is closed destroys the filesystem exactly if it has not been
/// destroyed before, initialized or not.
pub proof fn law_closing_destroys_what_is_left(state: SharedSessionState)
    ensures
        uring_session::closing_uring_destroys(state) <==> !state.destroyed,
{
}

} // verus!
