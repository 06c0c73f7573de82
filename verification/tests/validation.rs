use docker_queue::queued_container::{
    QueuedContainer, QueuedContainerError, QueuedContainerStatus,
};

#[test]
fn reject_queued_containers_without_run() {
    // Valid commands
    assert!(QueuedContainer::new("docker run -d some_image").is_ok());
    // Invalid commands
    assert!(QueuedContainer::new("docker lalala").is_err());
}

#[test]
fn reject_queued_containers_without_detach() {
    // Valid commands
    assert!(QueuedContainer::new("docker run -d some_image").is_ok());
    assert!(QueuedContainer::new("docker run --detach some_image").is_ok());
    assert!(QueuedContainer::new("docker run --detach=true some_image").is_ok());
    // Invalid commands
    assert!(QueuedContainer::new("docker run some_image").is_err());
    assert!(QueuedContainer::new("docker run --detach=false some_image").is_err());
}

#[test]
fn get_cmd_args_handle_quoted_strings() {
    let command = "docker run -d --rm alpine sh -c \"sleep 30 && echo something\"";
    let container = QueuedContainer::new(command).unwrap();
    let args = container.get_cmd_args().unwrap();
    assert_eq!(
        args,
        vec![
            "run",
            "-d",
            "--rm",
            "alpine",
            "sh",
            "-c",
            "sleep 30 && echo something"
        ]
    );
}

#[test]
fn get_cmd_args_handle_multiple_lines() {
    for command in [
        "docker run --rm -d \n\talpine sleep 3\n",
        "docker run --rm -d\\\n\talpine sleep 3\n",
        "docker run\\\n--rm\\\n-d\\\n\talpine sleep 3\n",
    ] {
        let container = QueuedContainer::new(command).unwrap();
        let args = container.get_cmd_args().unwrap();
        assert_eq!(args, vec!["run", "--rm", "-d", "alpine", "sleep", "3"]);
    }
}

#[test]
fn get_cmd_args_reports_mismatched_quotes() {
    let container = QueuedContainer::new("docker run -d alpine sh -c \"oops").unwrap();
    match container.get_cmd_args() {
        Err(QueuedContainerError::UnexpectedError(message)) => {
            assert_eq!(message, "Failed to split args.");
        }
        other => panic!("expected the splitting failure, got {:?}", other),
    }
}

#[test]
fn accepted_request_defaults_to_paused() {
    let container = QueuedContainer::new("docker run -d alpine sleep 5").unwrap();
    assert_eq!(*container.status(), QueuedContainerStatus::Paused);
    assert!(container.is_paused());
    assert!(!container.is_queued());
}

#[test]
fn accepted_request_gets_a_fresh_id() {
    let a = QueuedContainer::new("docker run -d alpine").unwrap();
    let b = QueuedContainer::new("docker run -d alpine").unwrap();
    assert_eq!(a.id().len(), 36);
    assert_eq!(b.id().len(), 36);
    assert_ne!(a.id(), b.id());
}

#[test]
fn stored_command_is_normalized_to_one_line() {
    let container = QueuedContainer::new("docker run -d\\\nalpine sleep 3").unwrap();
    assert_eq!(container.command(), "docker run -d alpine sleep 3");
}

#[test]
fn missing_prefix_is_named_in_the_error() {
    match QueuedContainer::new("launch alpine") {
        Err(QueuedContainerError::InvalidQueuedCommand(message)) => {
            assert_eq!(message, "Should start with \"docker run\": launch alpine");
        }
        other => panic!("expected a rejection, got {:?}", other),
    }
}

#[test]
fn duplicate_detach_flag_is_rejected() {
    match QueuedContainer::new("docker run -d --detach alpine sleep 1") {
        Err(QueuedContainerError::InvalidQueuedCommand(message)) => {
            assert_eq!(
                message,
                "Include a detach flag such as: \"-d\" or \"--detach\": \
                 docker run -d --detach alpine sleep 1"
            );
        }
        other => panic!("expected a rejection, got {:?}", other),
    }
}

#[test]
fn detach_flag_after_a_plain_word_does_not_count() {
    // The scan stops at the first non-option word, so a detach spelling in
    // the command's own arguments neither helps nor hurts.
    assert!(QueuedContainer::new("docker run alpine --detach").is_err());
    assert!(QueuedContainer::new("docker run -d alpine --detach").is_ok());
}

#[test]
fn any_unicode_whitespace_separates_words() {
    // a no-break space splits words just as str::split_whitespace does
    assert!(QueuedContainer::new("docker run\u{a0}-d some_image").is_ok());
    // ... so a detach flag glued to another word by one still counts, and
    // two detach flags among the leading options are rejected
    assert!(QueuedContainer::new("docker run -d -d\u{a0}q some_image").is_err());
}

#[test]
fn queue_and_pause_flip_the_status() {
    let mut container = QueuedContainer::new("docker run -d alpine").unwrap();
    container.queue();
    assert_eq!(*container.status(), QueuedContainerStatus::Queued);
    assert!(container.is_queued());
    container.pause();
    assert!(container.is_paused());
}

#[test]
fn from_script_drops_comment_lines() {
    let script = "# run a tiny container\ndocker run -d\\\nalpine sleep 1\n";
    let container = QueuedContainer::from_script(script).unwrap();
    assert_eq!(container.command(), "docker run -d alpine sleep 1");
}

#[test]
fn from_script_keeps_blank_lines_out_of_the_way() {
    let script = "docker run -d alpine\n\n# trailing note\n";
    let container = QueuedContainer::from_script(script).unwrap();
    assert_eq!(container.command(), "docker run -d alpine ");
}

#[test]
fn comment_detection_trims_any_unicode_whitespace() {
    let script = "\u{a0}# note\ndocker run -d alpine\n";
    let container = QueuedContainer::from_script(script).unwrap();
    assert_eq!(container.command(), "docker run -d alpine");
}

#[test]
fn from_script_rejects_invalid_scripts() {
    assert!(QueuedContainer::from_script("# only a comment\n").is_err());
    assert!(QueuedContainer::from_script("docker run alpine\n").is_err());
}
