use docker_queue::client_view::{
    get_max_lens, headers, show_running_id, ClientApp, ShowContainer, ShowContainerBuilder,
};
use docker_queue::container::{Container, ContainerSummary, RunningContainer};
use docker_queue::queued_container::QueuedContainer;
use docker_queue::running_container_id::RunningContainerId;

fn show(status: &str, id: &str, image: &str, command: &str, created: &str) -> ShowContainer {
    ShowContainer {
        status: status.to_string(),
        id: id.to_string(),
        image: image.to_string(),
        command: command.to_string(),
        created: created.to_string(),
        names: "-".to_string(),
    }
}

#[test]
fn long_commands_are_shortened_unless_everything_is_shown() {
    let command = "docker run -d alpine sh -c \"echo a very very long command line\"";
    assert!(command.len() > 40);
    let mut builder = ShowContainerBuilder::default();
    builder.command = command.to_string();
    let row = builder.build();
    assert_eq!(row.command.chars().count(), 40);
    assert_eq!(
        row.command,
        format!("{}...", command.chars().take(37).collect::<String>())
    );

    let mut builder = ShowContainerBuilder::default();
    builder.command = command.to_string();
    let row = builder.show_all(true).build();
    assert_eq!(row.command, command);
}

#[test]
fn short_commands_are_kept_as_they_are() {
    let mut builder = ShowContainerBuilder::default();
    builder.command = "docker run -d alpine".to_string();
    let row = builder.build();
    assert_eq!(row.command, "docker run -d alpine");
}

#[test]
fn builder_defaults_are_placeholders() {
    let row = ShowContainerBuilder::default().build();
    assert_eq!(row.status, "-");
    assert_eq!(row.id, "-");
    assert_eq!(row.image, "-");
    assert_eq!(row.command, "-");
    assert_eq!(row.created, "-");
    assert_eq!(row.names, "-");
}

#[test]
fn running_entries_fill_the_row_from_the_summary() {
    let summary = ContainerSummary {
        id: Some("abc123".to_string()),
        image: Some("alpine".to_string()),
        command: Some("sleep 5".to_string()),
        created: Some("1700000000".to_string()),
        names: Some(vec!["/one".to_string(), "/two".to_string()]),
    };
    let builder = ShowContainerBuilder::from(Container::Running(RunningContainer::External(
        summary,
    )));
    assert_eq!(builder.status, "Running");
    assert_eq!(builder.id, "abc123");
    assert_eq!(builder.image, "alpine");
    assert_eq!(builder.command, "sleep 5");
    assert_eq!(builder.created, "1700000000");
    assert_eq!(builder.names, "/one/two");
}

#[test]
fn absent_summary_fields_become_placeholders() {
    let summary = ContainerSummary {
        id: None,
        image: None,
        command: None,
        created: None,
        names: None,
    };
    let builder = ShowContainerBuilder::from(Container::Running(RunningContainer::Managed(
        summary,
    )));
    assert_eq!(builder.status, "Running");
    assert_eq!(builder.id, "-");
    assert_eq!(builder.image, "-");
    assert_eq!(builder.command, "-");
    assert_eq!(builder.created, "-");
    assert_eq!(builder.names, "-");
}

#[test]
fn queued_entries_show_their_own_status() {
    let mut request = QueuedContainer::new("docker run -d alpine").unwrap();
    let expected_id = request.id();
    let builder = ShowContainerBuilder::from(Container::Queued(request.clone()));
    assert_eq!(builder.status, "Paused");
    assert_eq!(builder.id, expected_id);
    assert_eq!(builder.command, "docker run -d alpine");
    request.queue();
    let builder = ShowContainerBuilder::from(Container::Queued(request));
    assert_eq!(builder.status, "Queued");
}

#[test]
fn column_widths_come_from_the_widest_cell() {
    let rows = vec![
        show("Running", "abcdef123456", "alpine", "sleep 5", "1700000000"),
        show("Paused", "id", "a-much-longer-image-name", "cmd", "t"),
    ];
    let lens = get_max_lens(&rows, 2);
    assert_eq!(lens.len(), 6);
    assert_eq!(lens[0], "Running".len() + 2);
    assert_eq!(lens[1], "abcdef123456".len() + 2);
    assert_eq!(lens[2], "a-much-longer-image-name".len() + 2);
    assert_eq!(lens[3], "command".len() + 2);
    assert_eq!(lens[4], "1700000000".len() + 2);
    assert_eq!(lens[5], 2);
}

#[test]
fn empty_listings_fall_back_to_header_widths() {
    let lens = get_max_lens(&vec![], 2);
    let names = headers();
    assert_eq!(names.len(), 6);
    for j in 0..5 {
        assert_eq!(lens[j], names[j].len() + 2);
    }
    assert_eq!(lens[5], 2);
}

#[test]
fn current_running_display_falls_back_to_a_dash() {
    assert_eq!(show_running_id(&None), "-");
    let id = RunningContainerId::new(" abc123\n");
    assert_eq!(show_running_id(&Some(id)), "abc123");
}

#[test]
fn client_app_keeps_its_port_and_writer() {
    let client = ClientApp::new(12000, Vec::<u8>::new());
    assert_eq!(client.port, 12000);
    assert!(client.writer.is_empty());
}
