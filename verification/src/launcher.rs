use vstd::prelude::*;

use crate::running_container_id::RunningContainerId;
use crate::queued_container::QueuedContainer;
use crate::state::{
    clear_running_spec, pop_spec, popped_spec, record_launch_spec, State, StateView,
};
use crate::text::trim_spec;

verus! {

// The coordinator: a single consumer drains one mailbox of `TaskMessage`s and
// owns every slot transition. Each message becomes one call of
// `coordinator_step`; a `Launch` action is performed outside the store's lock
// and its outcome reported back through `finish_launch`. Serializing the
// steps is what keeps the one-slot invariant, however many submitters run
// concurrently.

/// What can go wrong while promoting and supervising a request.
#[derive(Debug)]
pub enum LauncherTaskError {
    /// The runtime's run invocation failed; carries its error output.
    RunContainerError(String),
    /// Waiting for a running instance to exit failed.
    WaitContainerError(String),
    /// A failure outside the launch protocol itself.
    UnexpectedError(String),
}

/// The coordinator's mailbox alphabet.
#[derive(Debug)]
pub enum TaskMessage {
    /// Attempt a promotion: if the slot is empty and a request is pending,
    /// run the head.
    CheckRun,
    /// The slot's occupant has exited.
    RunningFinished,
    /// A failure reported by a launcher or watcher.
    Error(LauncherTaskError),
}

impl From<LauncherTaskError> for TaskMessage {
    /// Wrap a task failure as a mailbox message.
    fn from(error: LauncherTaskError) -> (r: Self) {
        TaskMessage::Error(error)
    }
}

impl vstd::std_specs::convert::FromSpecImpl<LauncherTaskError> for TaskMessage {
    open spec fn obeys_from_spec() -> bool {
        true
    }

    open spec fn from_spec(error: LauncherTaskError) -> TaskMessage {
        TaskMessage::Error(error)
    }
}

/// What a coordinator step asks its surroundings to do.
#[derive(Debug)]
pub enum CoordinatorAction {
    /// Invoke the runtime's run operation for this promoted request and
    /// report the outcome through `finish_launch`.
    Launch(QueuedContainer),
    /// Put a fresh `CheckRun` into the mailbox, so the next pending request
    /// is evaluated.
    Recheck,
    /// Surface this failure and continue the loop.
    Report(LauncherTaskError),
    /// Nothing to do.
    NoOp,
}

/// The state after one coordinator step: `CheckRun` performs the atomic
/// promotion pop, `RunningFinished` empties the slot, an error changes
/// nothing.
pub open spec fn step_state(s: StateView, msg: TaskMessage) -> StateView {
    match msg {
        TaskMessage::CheckRun => pop_spec(s),
        TaskMessage::RunningFinished => clear_running_spec(s),
        TaskMessage::Error(_) => s,
    }
}

/// The action one coordinator step requests: launch the popped head if
/// `CheckRun` popped one, re-evaluate after every completion, report every
/// error.
pub open spec fn step_action(s: StateView, msg: TaskMessage) -> CoordinatorAction {
    match msg {
        TaskMessage::CheckRun => match popped_spec(s) {
            Some(c) => CoordinatorAction::Launch(c),
            None => CoordinatorAction::NoOp,
        },
        TaskMessage::RunningFinished => CoordinatorAction::Recheck,
        TaskMessage::Error(e) => CoordinatorAction::Report(e),
    }
}

impl State {
    /// One turn of the coordinator loop: consume a mailbox message, apply its
    /// slot/queue transition, and say what to do next. The caller performs a
    /// `Launch` action outside the lock and reports its outcome through
    /// `finish_launch`; on `Recheck` it mails `CheckRun` back to the
    /// coordinator.
    pub fn coordinator_step(&mut self, msg: TaskMessage) -> (a: CoordinatorAction)
        ensures
            final(self)@ == step_state(old(self)@, msg),
            a == step_action(old(self)@, msg),
    {
        match msg {
            TaskMessage::CheckRun => match self.try_pop_head_if_slot_empty() {
                Some(container) => CoordinatorAction::Launch(container),
                None => CoordinatorAction::NoOp,
            },
            TaskMessage::RunningFinished => {
                self.clear_running();
                CoordinatorAction::Recheck
            },
            TaskMessage::Error(e) => CoordinatorAction::Report(e),
        }
    }

    /// Record the outcome of a `Launch` action: a successful launch fills the
    /// slot with the new instance and returns its id so the caller can spawn
    /// the completion watcher; a failed launch leaves the state untouched —
    /// the popped request is dropped, not re-queued.
    pub fn finish_launch(&mut self, outcome: &Result<RunningContainerId, LauncherTaskError>) -> (watch: Option<
        RunningContainerId,
    >)
        ensures
            (*outcome) matches Ok(id) ==> final(self)@ == record_launch_spec(old(self)@, id)
                && watch == Some(id),
            (*outcome) is Err ==> final(self)@ == old(self)@ && watch is None,
    {
        match outcome {
            Ok(id) => {
                let watch = id.clone();
                self.record_launch(id.clone());
                Some(watch)
            },
            Err(_) => None,
        }
    }
}

/// What the run invocation's captured output means: any non-zero exit is a
/// failure carrying the error output; on success the instance id is the
/// standard output trimmed of surrounding whitespace.
pub fn interpret_run_output(success: bool, stdout: &str, stderr: &str) -> (r: Result<
    RunningContainerId,
    LauncherTaskError,
>)
    ensures
        success ==> (r matches Ok(id) && id@ == trim_spec(stdout@)),
        !success ==> (r matches Err(e) && e matches LauncherTaskError::RunContainerError(m) && m@
            == stderr@),
{
    if success {
        Ok(RunningContainerId::new(stdout))
    } else {
        Err(LauncherTaskError::RunContainerError(stderr.to_owned()))
    }
}

} // verus!
