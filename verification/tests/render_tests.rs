use parrun::event::Event;
use parrun::numfmt::u64_to_string;
use parrun::registry::Registry;
use parrun::render::{render_frame, render_line, render_report};
use parrun::watch::loop_step;

#[test]
fn decimal_rendering_exact() {
    assert_eq!(u64_to_string(0), "0");
    assert_eq!(u64_to_string(7), "7");
    assert_eq!(u64_to_string(42), "42");
    assert_eq!(u64_to_string(1000), "1000");
    assert_eq!(u64_to_string(1234567890), "1234567890");
    assert_eq!(u64_to_string(u64::MAX), "18446744073709551615");
}

#[test]
fn running_line_shows_elapsed_seconds() {
    let mut reg = Registry::new();
    reg.launch("sleep 9".to_string(), 500);
    // 2400ms after launch: 2 whole seconds elapsed
    let line = render_line(reg.task_at(0), 2900);
    assert_eq!(
        line,
        "\u{1b}[33mrunning 2s: \u{1b}[0m\u{1b}[37msleep 9\u{1b}[0m"
    );
}

#[test]
fn done_and_error_lines_exact() {
    let mut reg = Registry::new();
    reg.launch("true".to_string(), 0);
    reg.launch("false".to_string(), 0);
    reg.apply_event(&Event::Completed {
        id: 0,
        success: true,
        stdout: vec![],
        stderr: vec![],
    });
    reg.apply_event(&Event::Completed {
        id: 1,
        success: false,
        stdout: vec![],
        stderr: vec![],
    });
    assert_eq!(
        render_line(reg.task_at(0), 99),
        "\u{1b}[32mdone: \u{1b}[0m\u{1b}[37mtrue\u{1b}[0m"
    );
    assert_eq!(
        render_line(reg.task_at(1), 99),
        "\u{1b}[31merror: \u{1b}[0m\u{1b}[37mfalse\u{1b}[0m"
    );
}

#[test]
fn first_frame_has_header_and_one_line_per_task() {
    let mut reg = Registry::new();
    reg.launch("true".to_string(), 0);
    let frame = render_frame(&reg, 0, true);
    assert_eq!(
        frame,
        "\u{1b}[1;4;37mRunning Parallel\u{1b}[0m\u{1b}[K\n\u{1b}[33mrunning 0s: \u{1b}[0m\u{1b}[37mtrue\u{1b}[0m\u{1b}[K\n"
    );
}

#[test]
fn redraw_moves_cursor_up_over_previous_frame() {
    let mut reg = Registry::new();
    reg.launch("a".to_string(), 0);
    reg.launch("b".to_string(), 0);
    let frame = render_frame(&reg, 0, false);
    assert!(frame.starts_with("\u{1b}[3A\u{1b}[1;4;37mRunning Parallel"));
}

#[test]
fn redraw_with_unchanged_elapsed_is_byte_identical() {
    let mut reg = Registry::new();
    reg.launch("slow".to_string(), 1000);
    reg.launch("quick".to_string(), 1000);
    reg.apply_event(&Event::Completed {
        id: 1,
        success: true,
        stdout: vec![],
        stderr: vec![],
    });
    // both clock readings are within the same elapsed second
    let f1 = render_frame(&reg, 1100, false);
    let f2 = render_frame(&reg, 1900, false);
    assert_eq!(f1, f2);
}

#[test]
fn elapsed_display_is_monotone_across_frames() {
    let mut reg = Registry::new();
    reg.launch("sleep 5".to_string(), 0);
    let mut last = 0u64;
    for now in [0u64, 400, 1100, 2050, 2051, 9000] {
        let line = render_line(reg.task_at(0), now);
        let start = line.find("running ").unwrap() + "running ".len();
        let end = line.find("s: ").unwrap();
        let secs: u64 = line[start..end].parse().unwrap();
        assert_eq!(secs, now / 1000);
        assert!(secs >= last);
        last = secs;
    }
}

#[test]
fn report_lists_outputs_in_id_order_and_skips_empty() {
    let mut reg = Registry::new();
    reg.launch("first".to_string(), 0);
    reg.launch("second".to_string(), 0);
    reg.launch("third".to_string(), 0);
    reg.apply_event(&Event::Completed {
        id: 2,
        success: false,
        stdout: vec![],
        stderr: b"bad\n".to_vec(),
    });
    reg.apply_event(&Event::Completed {
        id: 0,
        success: true,
        stdout: b"hello\n".to_vec(),
        stderr: vec![],
    });
    // task 1 finished with no output at all and is skipped
    reg.apply_event(&Event::Completed {
        id: 1,
        success: true,
        stdout: vec![],
        stderr: vec![],
    });
    assert_eq!(
        render_report(&reg),
        "Output for first:\n====STDOUT====\nhello\n\n\n\nOutput for third:\n====STDERR====\nbad\n\n\n\n"
    );
}

#[test]
fn loop_step_applies_renders_and_decides() {
    let mut reg = Registry::new();
    reg.launch("only".to_string(), 0);
    let (frame, done) = loop_step(&mut reg, None, 0, true);
    assert!(frame.contains("running 0s"));
    assert!(!done);
    let ev = Event::Completed {
        id: 0,
        success: true,
        stdout: vec![],
        stderr: vec![],
    };
    let (frame, done) = loop_step(&mut reg, Some(&ev), 500, false);
    assert!(frame.contains("done: "));
    assert!(done);
}

#[test]
fn empty_registry_frame_is_header_only() {
    let mut reg = Registry::new();
    let (frame, done) = loop_step(&mut reg, None, 0, true);
    assert_eq!(frame, "\u{1b}[1;4;37mRunning Parallel\u{1b}[0m\u{1b}[K\n");
    assert!(done);
    assert_eq!(render_report(&reg), "");
}
