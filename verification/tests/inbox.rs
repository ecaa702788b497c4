use codex_feedback::inbox::external_task_feedback_envelope_version;
use codex_feedback::inbox::external_task_feedback_inbox_dir;
use codex_feedback::inbox::external_task_feedback_session_registry_path;
use codex_feedback::inbox::external_task_feedback_targets_thread;
use codex_feedback::inbox::file_name_targets_thread;
use codex_feedback::inbox::forwarded_event;
use codex_feedback::inbox::register_inbox;
use codex_feedback::inbox::ExternalTaskFeedbackInboxWatcherEvent;
use codex_feedback::inbox::ThreadId;

fn thread(text: &str) -> ThreadId {
    ThreadId {
        text: text.to_string(),
    }
}

const THREAD: &str = "0198f3a2-6c1e-7b40-9d5c-2f4a8e61b7c3";

#[test]
fn target_file_filter_matches_expected_pattern() {
    let thread_id = thread(THREAD);
    assert!(external_task_feedback_targets_thread(
        &format!("{THREAD}.blocked.json"),
        &thread_id
    ));
    assert!(!external_task_feedback_targets_thread(
        "not-a-match.json",
        &thread_id
    ));
    assert!(!external_task_feedback_targets_thread(
        &format!("{THREAD}.blocked.tmp"),
        &thread_id
    ));
}

#[test]
fn only_the_last_component_of_a_path_counts() {
    let thread_id = thread("t1");
    assert!(external_task_feedback_targets_thread(
        "/home/u/ipc/external-task-feedback/inbox/t1.command.42.json",
        &thread_id
    ));
    assert!(!external_task_feedback_targets_thread(
        "t1.command.json/other.json",
        &thread_id
    ));
    assert!(!external_task_feedback_targets_thread(
        "inbox/t1.command.json/..",
        &thread_id
    ));
}

#[test]
fn separators_at_the_end_make_no_difference() {
    let thread_id = thread("t1");
    for slashes in ["/", "//", "///"] {
        assert!(external_task_feedback_targets_thread(
            &format!("inbox/t1.command.json{slashes}"),
            &thread_id
        ));
        assert!(external_task_feedback_targets_thread(
            &format!("t1.command.json{slashes}"),
            &thread_id
        ));
        assert!(!external_task_feedback_targets_thread(
            &format!("inbox/t2.command.json{slashes}"),
            &thread_id
        ));
        assert!(!external_task_feedback_targets_thread(
            &format!("t1.command.json/..{slashes}"),
            &thread_id
        ));
    }
}

#[test]
fn dots_at_the_end_make_no_difference() {
    let thread_id = thread("t1");
    for tail in ["/.", "/./", "/.//", "/././."] {
        assert!(external_task_feedback_targets_thread(
            &format!("inbox/t1.command.json{tail}"),
            &thread_id
        ));
        assert!(external_task_feedback_targets_thread(
            &format!("t1.command.json{tail}"),
            &thread_id
        ));
        assert!(!external_task_feedback_targets_thread(
            &format!("t1.command.json/..{tail}"),
            &thread_id
        ));
        assert!(!external_task_feedback_targets_thread(
            &format!("t1.command.json/...{tail}"),
            &thread_id
        ));
    }
}

#[test]
fn colons_are_part_of_a_name_below_a_directory() {
    let thread_id = thread("t1");
    assert!(external_task_feedback_targets_thread(
        "inbox/t1.path:2.json",
        &thread_id
    ));
    assert!(external_task_feedback_targets_thread(
        "C:/inbox/t1.path:2.json",
        &thread_id
    ));
    assert!(!external_task_feedback_targets_thread(
        "inbox/C:t1.path.json",
        &thread_id
    ));
    assert!(external_task_feedback_targets_thread(
        "inbox/C:t1.path.json",
        &thread("C:t1")
    ));
}

#[test]
fn message_is_found_in_any_directory() {
    let thread_id = thread(THREAD);
    for directory in ["/", "./", "../", "a b/", "C:/Users/u/", "C:\\Users\\u/"] {
        assert!(external_task_feedback_targets_thread(
            &format!("{directory}{THREAD}.session.0001.json"),
            &thread_id
        ));
    }
}

#[test]
fn paths_without_a_file_name_concern_no_thread() {
    let thread_id = thread("");
    assert!(!external_task_feedback_targets_thread("", &thread_id));
    assert!(!external_task_feedback_targets_thread("/", &thread_id));
    assert!(!external_task_feedback_targets_thread("..", &thread_id));
    assert!(!external_task_feedback_targets_thread(".", &thread_id));
    assert!(!external_task_feedback_targets_thread("./.", &thread_id));
    assert!(!file_name_targets_thread(None, &thread_id));
    assert!(file_name_targets_thread(Some(".json"), &thread_id));
}

#[test]
fn prefix_and_suffix_may_share_the_dot() {
    assert!(file_name_targets_thread(Some("t1.json"), &thread("t1")));
    assert!(!file_name_targets_thread(Some("t1json"), &thread("t1")));
    assert!(!file_name_targets_thread(Some("t12.x.json"), &thread("t1")));
    assert!(!file_name_targets_thread(Some("t1.x.jsonl"), &thread("t1")));
    assert!(!file_name_targets_thread(Some("xt1.x.json"), &thread("t1")));
}

#[test]
fn delivered_messages_concern_their_thread_alone() {
    let name = "t1.session.0001.json";
    assert!(file_name_targets_thread(Some(name), &thread("t1")));
    assert!(!file_name_targets_thread(Some(name), &thread("t2")));
    assert!(!file_name_targets_thread(Some(name), &thread("t")));
}

#[test]
fn dotted_identifiers_can_share_a_file() {
    assert!(file_name_targets_thread(Some("a.b.json"), &thread("a")));
    assert!(file_name_targets_thread(Some("a.b.json"), &thread("a.b")));
}

#[test]
fn inbox_lies_below_the_home_directory() {
    let home = "/home/u/.codex";
    let dir = external_task_feedback_inbox_dir(&home);
    assert_eq!(*dir.home, home);
    assert_eq!(dir.names, vec!["ipc", "external-task-feedback", "inbox"]);
}

#[test]
fn each_session_registers_under_its_thread() {
    let home = "/home/u/.codex";
    let path = external_task_feedback_session_registry_path(&home, &thread("thread-123"));
    assert_eq!(*path.home, home);
    assert_eq!(path.names, vec!["ipc", "sessions", "thread-123.json"]);
    let other = external_task_feedback_session_registry_path(&home, &thread("thread-124"));
    assert_ne!(path.names, other.names);
    let inbox = external_task_feedback_inbox_dir(&home);
    assert!(!path.names.starts_with(&inbox.names));
    assert!(!inbox.names.starts_with(&path.names));
    assert!(!path.names[2].contains(['/', '\\', ':']));
}

#[test]
fn forwards_file_watcher_events() {
    let event = forwarded_event(Some(vec!["feedback-inbox/blocked.json".to_string()]));
    let Some(ExternalTaskFeedbackInboxWatcherEvent::InboxChanged { paths }) = event else {
        panic!("feedback inbox watcher event");
    };
    assert_eq!(paths, vec!["feedback-inbox/blocked.json".to_string()]);
}

#[test]
fn watcher_stops_after_the_last_batch() {
    assert!(forwarded_event::<String>(None).is_none());
}

#[test]
fn inbox_is_watched_once_it_exists() {
    let home = "home";
    let paths = register_inbox::<&str, String>(&home, Ok(())).unwrap_or_default();
    assert_eq!(paths.len(), 1);
    assert_eq!(*paths[0].path.home, home);
    assert_eq!(
        paths[0].path.names,
        vec!["ipc", "external-task-feedback", "inbox"]
    );
    assert!(!paths[0].recursive);
}

#[test]
fn inbox_that_cannot_be_created_is_not_watched() {
    let home = "home";
    let paths = register_inbox(&home, Err("read-only file system".to_string()));
    assert_eq!(paths.err(), Some("read-only file system".to_string()));
}

#[test]
fn envelope_version_defaults_to_one() {
    assert_eq!(external_task_feedback_envelope_version(), 1);
}
