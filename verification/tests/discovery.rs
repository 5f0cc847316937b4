use devme_tui::discovery::{scan_sockets, AttachEvent, AttachStep, SocketBook};
use devme_tui::protocol::{ClientMessage, InstanceInfo, ServerMessage};
use devme_tui::task_activity::{is_activity_dir, is_activity_file, scan, TaskActivity};

#[test]
fn scan_sockets_finds_only_dot_sock_files() {
    let mut found =
        scan_sockets(&vec!["a.sock".into(), "b.sock".into(), "slots.json".into()]);
    found.sort();
    assert_eq!(found.len(), 2);
    assert!(found[0].ends_with("a.sock"));
    assert!(found[1].ends_with("b.sock"));
    assert!(scan_sockets(&vec![".sock".into(), "sock".into()]).is_empty());
}

#[test]
fn scan_sockets_returns_empty_for_missing_dir() {
    assert!(scan_sockets(&vec![]).is_empty());
}

fn introduction() -> ServerMessage {
    ServerMessage::Subscribed {
        instance: InstanceInfo { id: "a".into(), label: "a".into(), cwd: "/".into() },
        services: vec![],
        steps: vec![],
    }
}

#[test]
fn a_socket_is_attached_to_once() {
    let mut book = SocketBook::new();
    assert_eq!(book.attach("x.sock"), Some(AttachStep::Connect));
    // File events come in bursts.
    assert_eq!(book.attach("x.sock"), None);
    assert_eq!(
        book.attach_one("x.sock", &AttachEvent::Connected),
        AttachStep::Subscribe(ClientMessage::Subscribe { services: vec![] })
    );
    assert_eq!(book.attach_one("x.sock", &AttachEvent::Sent), AttachStep::AwaitReply);
    assert!(!book.is_attached("a"));
    assert_eq!(
        book.attach_one("x.sock", &AttachEvent::Reply(introduction())),
        AttachStep::Serve("a".into())
    );
    assert!(book.is_attached("a"));
    book.retire("a", "x.sock");
    assert!(!book.is_attached("a"));
    assert_eq!(book.attach("x.sock"), Some(AttachStep::Connect));
}

#[test]
fn a_daemon_that_does_not_introduce_itself_is_left_alone() {
    let mut book = SocketBook::new();
    book.attach("x.sock");
    let other = AttachEvent::Reply(ServerMessage::Goodbye { reason: "bye".into() });
    assert_eq!(book.attach_one("x.sock", &other), AttachStep::GiveUp);
    assert_eq!(book.attach("x.sock"), Some(AttachStep::Connect));
    assert_eq!(book.attach_one("x.sock", &AttachEvent::Failed), AttachStep::GiveUp);
    assert_eq!(book.attach("x.sock"), Some(AttachStep::Connect));
}

fn activity(run: &str, started_at: u64) -> TaskActivity {
    TaskActivity {
        run_id: run.into(),
        instance_id: "abc".into(),
        cwd: "/repo".into(),
        task: "verify".into(),
        message: "Preparing verify".into(),
        started_at,
    }
}

#[test]
fn scan_reads_only_task_activity_directories() {
    assert!(is_activity_dir("abc-task-activity"));
    assert!(is_activity_file("run-1.json", Some("abc-task-activity")));
    assert!(!is_activity_file("ignored.json", Some("runtime")));
    assert!(!is_activity_file("ignored.json", None));
    assert!(!is_activity_file("run-1.txt", Some("abc-task-activity")));
    assert_eq!(scan(vec![activity("run-1", 1)]), vec![activity("run-1", 1)]);
}

#[test]
fn activities_come_in_the_order_they_started() {
    let found = vec![activity("b", 2), activity("c", 1), activity("a", 2)];
    assert_eq!(scan(found), vec![activity("c", 1), activity("a", 2), activity("b", 2)]);
}

#[test]
fn a_socket_is_one_however_its_path_is_written() {
    let mut book = SocketBook::new();
    assert_eq!(book.attach("/run/devme/a.sock"), Some(AttachStep::Connect));
    assert_eq!(book.attach("/run//devme/a.sock"), None);
    assert_eq!(book.attach_one("/run/devme/./a.sock", &AttachEvent::Failed), AttachStep::GiveUp);
    assert_eq!(book.attach("/run/devme/a.sock"), Some(AttachStep::Connect));
}
