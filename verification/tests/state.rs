use docker_queue::container::{Container, ContainerSummary, RunningContainer};
use docker_queue::launcher::{
    interpret_run_output, CoordinatorAction, LauncherTaskError, TaskMessage,
};
use docker_queue::queued_container::QueuedContainer;
use docker_queue::running_container_id::RunningContainerId;
use docker_queue::state::{ServerError, State};

fn queued(command: &str) -> QueuedContainer {
    let mut container = QueuedContainer::new(command).unwrap();
    container.queue();
    container
}

fn summary_of(id: &str) -> ContainerSummary {
    ContainerSummary {
        id: Some(id.to_string()),
        image: Some("alpine".to_string()),
        command: Some("sleep 5".to_string()),
        created: Some("1700000000".to_string()),
        names: Some(vec!["/one".to_string()]),
    }
}

#[test]
fn get_running_container_works() {
    let mut state = State::new();
    assert!(state.get_running_container().is_none());
    let id = RunningContainerId::new("123456");
    state.record_launch(id);
    assert!(state.get_running_container().is_some());
}

#[test]
fn running_container_id_should_not_have_whitespaces() {
    let id = RunningContainerId::new("12345 ");
    assert_eq!("12345", id.as_ref());
    let id = RunningContainerId::new("12345\n");
    assert_eq!("12345", id.as_ref());
}

#[test]
fn running_container_id_trims_any_unicode_whitespace() {
    let id = RunningContainerId::new("12345\u{85}");
    assert_eq!("12345", id.as_ref());
    let id = RunningContainerId::new("\u{a0}12345\u{2028}");
    assert_eq!("12345", id.as_ref());
}

#[test]
fn queued_submission_to_idle_system_starts_running() {
    let mut state = State::new();
    let check_run = state.submit(queued("docker run -d alpine sleep 5"));
    assert!(check_run);
    // the submission wakes the coordinator; its CheckRun step promotes
    let action = state.coordinator_step(TaskMessage::CheckRun);
    let request = match action {
        CoordinatorAction::Launch(request) => request,
        other => panic!("expected a launch, got {:?}", other),
    };
    assert_eq!(request.command(), "docker run -d alpine sleep 5");
    // the launch succeeds and is recorded; a watcher is requested
    let outcome = interpret_run_output(true, "abc123\n", "");
    let watch = state.finish_launch(&outcome);
    assert_eq!(watch.unwrap().as_ref(), "abc123");
    let current = state.get_running_container();
    assert_eq!(current.unwrap().as_ref(), "abc123");
    // the listing shows one Running entry
    let list = state.get_containers(vec![RunningContainer::Managed(summary_of("abc123"))]);
    assert_eq!(list.len(), 1);
    assert!(matches!(&list[0], Container::Running(_)));
}

#[test]
fn second_submission_queues_until_the_first_finishes() {
    let mut state = State::new();
    state.submit(queued("docker run -d alpine sleep 5"));
    let first = state.coordinator_step(TaskMessage::CheckRun);
    assert!(matches!(first, CoordinatorAction::Launch(_)));
    let outcome = interpret_run_output(true, "first-id\n", "");
    state.finish_launch(&outcome);

    // a second submission while occupied stays queued and visible
    state.submit(queued("docker run -d alpine sleep 1"));
    let action = state.coordinator_step(TaskMessage::CheckRun);
    assert!(matches!(action, CoordinatorAction::NoOp));
    let list = state.get_containers(vec![RunningContainer::Managed(summary_of("first-id"))]);
    assert_eq!(list.len(), 2);
    assert!(matches!(&list[0], Container::Running(_)));
    match &list[1] {
        Container::Queued(c) => {
            assert!(c.is_queued());
            assert_eq!(c.command(), "docker run -d alpine sleep 1");
        }
        other => panic!("expected the queued request, got {:?}", other),
    }

    // when the first finishes, the second is promoted with no prompting
    // beyond the completion report itself
    let action = state.coordinator_step(TaskMessage::RunningFinished);
    assert!(matches!(action, CoordinatorAction::Recheck));
    assert!(state.get_running_container().is_none());
    let action = state.coordinator_step(TaskMessage::CheckRun);
    match action {
        CoordinatorAction::Launch(request) => {
            assert_eq!(request.command(), "docker run -d alpine sleep 1");
        }
        other => panic!("expected the second launch, got {:?}", other),
    }
    let outcome = interpret_run_output(true, "second-id\n", "");
    state.finish_launch(&outcome);
    assert_eq!(state.get_running_container().unwrap().as_ref(), "second-id");
}

#[test]
fn paused_submission_never_starts_by_itself() {
    let mut state = State::new();
    let paused = QueuedContainer::new("docker run -d alpine sleep 5").unwrap();
    let check_run = state.submit(paused);
    // no wake: the coordinator is never told to check
    assert!(!check_run);
    assert!(state.get_running_container().is_none());
    let list = state.get_containers(vec![]);
    assert_eq!(list.len(), 1);
    match &list[0] {
        Container::Queued(c) => assert!(c.is_paused()),
        other => panic!("expected the paused request, got {:?}", other),
    }
}

#[test]
fn fifo_order_is_kept_across_promotions() {
    let mut state = State::new();
    state.submit(queued("docker run -d alpine echo 1"));
    state.submit(queued("docker run -d alpine echo 2"));
    state.submit(queued("docker run -d alpine echo 3"));
    let mut seen = Vec::new();
    for _ in 0..3 {
        match state.coordinator_step(TaskMessage::CheckRun) {
            CoordinatorAction::Launch(request) => {
                seen.push(request.command().to_string());
                let outcome = interpret_run_output(true, "some-id", "");
                state.finish_launch(&outcome);
            }
            other => panic!("expected a launch, got {:?}", other),
        }
        state.coordinator_step(TaskMessage::RunningFinished);
    }
    assert_eq!(
        seen,
        vec![
            "docker run -d alpine echo 1",
            "docker run -d alpine echo 2",
            "docker run -d alpine echo 3"
        ]
    );
}

#[test]
fn at_most_one_instance_is_recorded_as_current() {
    let mut state = State::new();
    state.submit(queued("docker run -d alpine echo 1"));
    state.submit(queued("docker run -d alpine echo 2"));
    state.coordinator_step(TaskMessage::CheckRun);
    let outcome = interpret_run_output(true, "one\n", "");
    state.finish_launch(&outcome);
    // the slot is occupied: another check pops nothing and records nothing
    let action = state.coordinator_step(TaskMessage::CheckRun);
    assert!(matches!(action, CoordinatorAction::NoOp));
    assert_eq!(state.get_running_container().unwrap().as_ref(), "one");
}

#[test]
fn failed_launch_is_dropped_and_slot_stays_idle() {
    let mut state = State::new();
    state.submit(queued("docker run -d alpine sleep 5"));
    let action = state.coordinator_step(TaskMessage::CheckRun);
    assert!(matches!(action, CoordinatorAction::Launch(_)));
    let outcome = interpret_run_output(false, "", "no such image");
    match &outcome {
        Err(LauncherTaskError::RunContainerError(stderr)) => {
            assert_eq!(stderr, "no such image");
        }
        other => panic!("expected a run failure, got {:?}", other),
    }
    let watch = state.finish_launch(&outcome);
    assert!(watch.is_none());
    assert!(state.get_running_container().is_none());
    // the popped request is dropped, not re-queued
    assert_eq!(state.get_containers(vec![]).len(), 0);
}

#[test]
fn error_messages_pass_through_the_coordinator() {
    let mut state = State::new();
    state.submit(queued("docker run -d alpine sleep 5"));
    state.record_launch(RunningContainerId::new("stuck"));
    let message = TaskMessage::from(LauncherTaskError::WaitContainerError(
        "daemon unreachable".to_string(),
    ));
    let action = state.coordinator_step(message);
    match action {
        CoordinatorAction::Report(LauncherTaskError::WaitContainerError(m)) => {
            assert_eq!(m, "daemon unreachable");
        }
        other => panic!("expected the error report, got {:?}", other),
    }
    // the state is untouched: the queue still holds the request, and a wait
    // failure does not clear the slot
    assert_eq!(state.get_containers(vec![]).len(), 1);
    assert_eq!(state.get_running_container().unwrap().as_ref(), "stuck");
}

#[test]
fn reads_are_idempotent() {
    let mut state = State::new();
    state.submit(queued("docker run -d alpine sleep 5"));
    state.record_launch(RunningContainerId::new("xyz"));
    let first = state.get_containers(vec![RunningContainer::External(summary_of("xyz"))]);
    let second = state.get_containers(vec![RunningContainer::External(summary_of("xyz"))]);
    assert_eq!(format!("{:?}", first), format!("{:?}", second));
    let a = state.get_running_container();
    let b = state.get_running_container();
    assert_eq!(format!("{:?}", a), format!("{:?}", b));
}

#[test]
fn server_error_carries_its_message() {
    let error = ServerError::UnexpectedError("Receiver dropped.".to_string());
    assert_eq!(error.message(), "Receiver dropped.");
}
