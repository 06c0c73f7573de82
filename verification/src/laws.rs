use vstd::prelude::*;

use crate::container::{Container, RunningContainer};
use crate::launcher::{step_action, step_state, CoordinatorAction, TaskMessage};
use crate::queued_container::{QueuedContainer, QueuedContainerStatus};
use crate::running_container_id::RunningContainerId;
use crate::state::{
    containers_view, popped_spec, record_launch_spec, submit_spec, StateView,
};

verus! {

// System-wide guarantees of the queue-and-slot protocol, stated over the
// transition specs that the store's and coordinator's contracts are written
// in. Each is proved once here and holds of every run of the executable
// code, because every method's `ensures` ties it to these same specs.

/// How many instance ids the slot records.
pub open spec fn running_count(s: StateView) -> nat {
    match s.running {
        Some(_) => 1nat,
        None => 0nat,
    }
}

/// At most one running-instance id is ever recorded as current: the slot is
/// a zero-or-one cell, and no submission, coordinator step or launch record
/// can make it hold more.
pub proof fn lemma_at_most_one_running(
    s: StateView,
    c: QueuedContainer,
    id: RunningContainerId,
    msg: TaskMessage,
)
    ensures
        running_count(s) <= 1,
        running_count(submit_spec(s, c)) <= 1,
        running_count(step_state(s, msg)) <= 1,
        running_count(record_launch_spec(s, id)) <= 1,
{
}

/// Where each entry of a listing comes from: the live running entries stand
/// first, in order, followed by the queue snapshot in promotion order.
pub proof fn lemma_containers_view_entries(
    running: Seq<RunningContainer>,
    queue: Seq<QueuedContainer>,
)
    ensures
        containers_view(running, queue).len() == running.len() + queue.len(),
        forall|i: int|
            0 <= i < running.len() ==> containers_view(running, queue)[i] == Container::Running(
                running[i],
            ),
        forall|i: int|
            0 <= i < queue.len() ==> containers_view(running, queue)[running.len() + i]
                == Container::Queued(queue[i]),
{
}

/// Submitting a `Queued` request while the system is idle promotes without
/// further prompting: the submission itself wakes the coordinator (`submit`
/// returns the wake flag exactly for `Queued` arrivals), the very next
/// `CheckRun` step pops a request and demands a launch, and as soon as the
/// launch outcome is recorded the slot — what `current_running` reads — is
/// non-empty.
pub proof fn lemma_queued_submission_while_idle_promotes(
    s: StateView,
    c: QueuedContainer,
    id: RunningContainerId,
)
    requires
        s.running is None,
        c.status_spec() == QueuedContainerStatus::Queued,
    ensures
        popped_spec(submit_spec(s, c)) is Some,
        step_action(submit_spec(s, c), TaskMessage::CheckRun) matches CoordinatorAction::Launch(
            _,
        ),
        record_launch_spec(
            step_state(submit_spec(s, c), TaskMessage::CheckRun),
            id,
        ).running == Some(id),
{
}

/// Submitting while the slot is occupied changes nothing but the queue tail:
/// a `CheckRun` in that window is a no-op, and every listing taken until the
/// occupant completes shows the request, with its own status, as the last
/// entry.
pub proof fn lemma_submission_while_occupied_stays_listed(
    s: StateView,
    c: QueuedContainer,
    running: Seq<RunningContainer>,
)
    requires
        s.running is Some,
    ensures
        step_state(submit_spec(s, c), TaskMessage::CheckRun) == submit_spec(s, c),
        step_action(submit_spec(s, c), TaskMessage::CheckRun) == CoordinatorAction::NoOp,
        containers_view(running, submit_spec(s, c).queue).len() == running.len() + s.queue.len()
            + 1,
        containers_view(running, submit_spec(s, c).queue)[running.len() + s.queue.len() as int]
            == Container::Queued(c),
{
    lemma_containers_view_entries(running, submit_spec(s, c).queue);
}

/// Submitting with explicit `Paused` status never triggers promotion by
/// itself: the slot is untouched, and the wake flag that `submit` hands back
/// — the only thing that puts a `CheckRun` into the mailbox at submission
/// time — is false for anything but a `Queued` arrival.
pub proof fn lemma_paused_submission_never_promotes(s: StateView, c: QueuedContainer)
    requires
        c.status_spec() == QueuedContainerStatus::Paused,
    ensures
        submit_spec(s, c).running == s.running,
        c.status_spec() != QueuedContainerStatus::Queued,
{
}

/// After the occupant completes, the next pending request is promoted in
/// FIFO order with no external prompting: the `RunningFinished` step empties
/// the slot, keeps the queue, and demands a re-check; that `CheckRun` pops
/// exactly the head and demands its launch.
pub proof fn lemma_completion_promotes_fifo_head(s: StateView)
    requires
        s.queue.len() > 0,
    ensures
        step_action(s, TaskMessage::RunningFinished) == CoordinatorAction::Recheck,
        step_state(s, TaskMessage::RunningFinished).queue == s.queue,
        step_state(s, TaskMessage::RunningFinished).running is None,
        popped_spec(step_state(s, TaskMessage::RunningFinished)) == Some(s.queue[0]),
        step_action(step_state(s, TaskMessage::RunningFinished), TaskMessage::CheckRun)
            == CoordinatorAction::Launch(s.queue[0]),
        step_state(step_state(s, TaskMessage::RunningFinished), TaskMessage::CheckRun).queue
            == s.queue.skip(1),
{
}

/// The query surface is an idempotent read: listings and the current-running
/// id are functions of the store's state and the runtime's report alone —
/// `get_containers` and `get_running_container` pin their results to
/// `containers_view` and to the slot — so repeated calls without an
/// intervening transition return identical results.
pub proof fn lemma_reads_idempotent(s1: StateView, s2: StateView, running: Seq<RunningContainer>)
    requires
        s1 == s2,
    ensures
        containers_view(running, s1.queue) == containers_view(running, s2.queue),
        s1.running == s2.running,
{
}

} // verus!
