use parrun::event::Event;
use parrun::registry::Registry;
use parrun::task::Status;

fn completed(id: usize, success: bool, stdout: &str, stderr: &str) -> Event {
    Event::Completed {
        id,
        success,
        stdout: stdout.as_bytes().to_vec(),
        stderr: stderr.as_bytes().to_vec(),
    }
}

#[test]
fn launch_assigns_ascending_ids() {
    let mut reg = Registry::new();
    let a = reg.launch("true".to_string(), 0);
    let b = reg.launch("false".to_string(), 5);
    let c = reg.launch("sleep 5 && true".to_string(), 9);
    assert_eq!((a, b, c), (0, 1, 2));
    assert_eq!(reg.len(), 3);
    assert_eq!(reg.task_at(0).command, "true");
    assert_eq!(reg.task_at(2).command, "sleep 5 && true");
    assert_eq!(reg.task_at(1).status, Status::Running);
    assert_eq!(reg.task_at(1).started_at_ms, 5);
    assert_eq!(reg.task_at(1).output, "");
}

#[test]
fn event_moves_task_to_terminal_state() {
    let mut reg = Registry::new();
    reg.launch("true".to_string(), 0);
    assert!(reg.apply_event(&completed(0, true, "", "")));
    assert_eq!(reg.task_at(0).status, Status::Succeeded);
}

#[test]
fn nonzero_exit_is_failed_with_output_kept() {
    let mut reg = Registry::new();
    reg.launch("false".to_string(), 0);
    assert!(reg.apply_event(&completed(0, false, "partial\n", "boom\n")));
    assert_eq!(reg.task_at(0).status, Status::Failed);
    assert_eq!(
        reg.task_at(0).output,
        "====STDOUT====\npartial\n====STDERR====\nboom\n"
    );
}

#[test]
fn empty_streams_leave_output_empty() {
    let mut reg = Registry::new();
    reg.launch("true".to_string(), 0);
    reg.apply_event(&completed(0, true, "", ""));
    assert_eq!(reg.task_at(0).output, "");
}

#[test]
fn only_stderr_gets_only_its_banner() {
    let mut reg = Registry::new();
    reg.launch("x".to_string(), 0);
    reg.apply_event(&completed(0, false, "", "oops"));
    assert_eq!(reg.task_at(0).output, "====STDERR====\noops");
}

#[test]
fn launch_error_records_detail_and_never_runs_again() {
    let mut reg = Registry::new();
    reg.launch("nonexistent-binary-xyz".to_string(), 0);
    let ev = Event::LaunchFailed {
        id: 0,
        detail: "No such file or directory (os error 2)".to_string(),
    };
    assert!(reg.apply_event(&ev));
    assert_eq!(reg.task_at(0).status, Status::LaunchError);
    assert_eq!(
        reg.task_at(0).output,
        "No such file or directory (os error 2)"
    );
    assert!(reg.should_exit());
    // a later completion for the same task is a duplicate and is ignored
    assert!(!reg.apply_event(&completed(0, true, "late", "")));
    assert_eq!(reg.task_at(0).status, Status::LaunchError);
    assert_eq!(
        reg.task_at(0).output,
        "No such file or directory (os error 2)"
    );
}

#[test]
fn exactly_n_events_in_any_order_reach_all_terminal() {
    let mut reg = Registry::new();
    for i in 0..4 {
        reg.launch(format!("cmd{}", i), 0);
    }
    // scrambled completion order
    for id in [2usize, 0, 3, 1] {
        assert!(reg.apply_event(&completed(id, true, "", "")));
    }
    for i in 0..4 {
        assert_ne!(reg.task_at(i).status, Status::Running);
    }
    assert!(reg.should_exit());
    // a fifth, duplicated event is not applied
    assert!(!reg.apply_event(&completed(2, false, "", "")));
    assert_eq!(reg.task_at(2).status, Status::Succeeded);
}

#[test]
fn unknown_id_is_ignored() {
    let mut reg = Registry::new();
    reg.launch("true".to_string(), 0);
    assert!(!reg.apply_event(&completed(7, true, "", "")));
    assert_eq!(reg.task_at(0).status, Status::Running);
}

#[test]
fn mixed_outcome_exits_early_without_waiting() {
    // commands ["true", "false", "sleep 5 && true"]: task 0 succeeds
    // quickly, task 1 fails quickly, and the loop exits on that failure
    // without waiting for task 2, whose output is never captured.
    let mut reg = Registry::new();
    reg.launch("true".to_string(), 0);
    reg.launch("false".to_string(), 0);
    reg.launch("sleep 5 && true".to_string(), 0);
    assert!(reg.apply_event(&completed(0, true, "", "")));
    assert!(!reg.should_exit());
    assert!(reg.apply_event(&completed(1, false, "", "")));
    assert!(reg.should_exit());
    assert_eq!(reg.task_at(0).status, Status::Succeeded);
    assert_eq!(reg.task_at(1).status, Status::Failed);
    assert_eq!(reg.task_at(2).status, Status::Running);
    assert_eq!(reg.task_at(2).output, "");
}

#[test]
fn empty_input_exits_immediately() {
    let reg = Registry::new();
    assert_eq!(reg.len(), 0);
    assert!(reg.should_exit());
    assert_eq!(parrun::render::render_report(&reg), "");
}

#[test]
fn non_utf8_bytes_are_replaced_not_fatal() {
    let mut reg = Registry::new();
    reg.launch("x".to_string(), 0);
    let ev = Event::Completed {
        id: 0,
        success: true,
        stdout: vec![0x68, 0x69, 0xff],
        stderr: vec![],
    };
    assert!(reg.apply_event(&ev));
    assert_eq!(reg.task_at(0).output, "====STDOUT====\nhi\u{fffd}");
}
