use chatdbg::lifecycle::FileDisposition;
use chatdbg::message::{
    format_message, log_record, push_decimal, CrashEvent, SourceLocation, UNKNOWN_PAYLOAD,
    UNNAMED_THREAD,
};

fn event(name: Option<&str>, payload: Option<&str>, site: Option<(&str, u32)>) -> CrashEvent {
    CrashEvent {
        thread_name: name.map(String::from),
        payload: payload.map(String::from),
        location: site.map(|(file, line)| SourceLocation { file: String::from(file), line }),
    }
}

fn write(file: &mut String, created: &mut bool, message: &str) {
    let disposition = FileDisposition::from_previous_flag(*created);
    *created = true;
    if disposition == FileDisposition::Truncate {
        file.clear();
    }
    file.push_str(&log_record(message));
}

#[test]
fn format_fidelity() {
    let e = event(Some("worker-1"), Some("x != 0.0"), Some(("main.rs", 7)));
    assert_eq!(
        format_message(&e),
        "thread 'worker-1' panicked with 'x != 0.0' at 'main.rs' line 7"
    );
}

#[test]
fn missing_metadata_defaults() {
    let e = event(None, Some("boom"), None);
    let m = format_message(&e);
    assert_eq!(m, "thread '<unnamed>' panicked with 'boom'");
    assert!(!m.contains(" at "));
    assert_eq!(UNNAMED_THREAD, "<unnamed>");
}

#[test]
fn non_text_payload() {
    let e = event(Some("main"), None, Some(("src/lib.rs", 12)));
    assert_eq!(
        format_message(&e),
        "thread 'main' panicked with 'Box<Any>' at 'src/lib.rs' line 12"
    );
    assert_eq!(UNKNOWN_PAYLOAD, "Box<Any>");
}

#[test]
fn nothing_known_of_the_fault() {
    let e = event(None, None, None);
    assert_eq!(format_message(&e), "thread '<unnamed>' panicked with 'Box<Any>'");
}

#[test]
fn empty_name_and_payload_are_kept() {
    let e = event(Some(""), Some(""), Some(("", 0)));
    assert_eq!(format_message(&e), "thread '' panicked with '' at '' line 0");
}

#[test]
fn line_numbers_in_decimal() {
    for (n, text) in [
        (0u32, "0"),
        (9, "9"),
        (10, "10"),
        (100, "100"),
        (4096, "4096"),
        (u32::MAX, "4294967295"),
    ] {
        let mut s = String::from("line ");
        push_decimal(&mut s, n);
        assert_eq!(s, format!("line {}", text));
    }
}

#[test]
fn record_is_message_and_line_break() {
    assert_eq!(log_record("thread 'a' panicked with 'b'"), "thread 'a' panicked with 'b'\n");
    assert_eq!(log_record(""), "\n");
}

#[test]
fn first_record_truncates_later_ones_append() {
    assert_eq!(FileDisposition::from_previous_flag(false), FileDisposition::Truncate);
    assert_eq!(FileDisposition::from_previous_flag(true), FileDisposition::Append);
}

#[test]
fn many_faults_leave_one_line_each() {
    let mut file = String::from("left by an earlier run\nsecond old line\n");
    let mut created = false;
    let n: u32 = 5;
    for i in 0..n {
        let name = format!("worker-{}", i);
        let payload = format!("fault {}", i);
        let e = event(Some(&name), Some(&payload), Some(("main.rs", i + 1)));
        write(&mut file, &mut created, &format_message(&e));
    }
    let lines: Vec<&str> = file.lines().collect();
    assert_eq!(lines.len(), n as usize);
    for (i, line) in lines.iter().enumerate() {
        assert_eq!(
            *line,
            format!("thread 'worker-{}' panicked with 'fault {}' at 'main.rs' line {}", i, i, i + 1)
        );
    }
    assert!(!file.contains("earlier run"));
}

#[test]
fn two_faulting_threads_both_recorded() {
    let mut file = String::from("stale\n");
    let mut created = false;
    let a = format_message(&event(Some("first"), Some("A"), None));
    let b = format_message(&event(Some("second"), Some("B"), None));
    write(&mut file, &mut created, &b);
    write(&mut file, &mut created, &a);
    let lines: Vec<&str> = file.lines().collect();
    assert_eq!(lines.len(), 2);
    assert_eq!(lines[0], "thread 'second' panicked with 'B'");
    assert_eq!(lines[1], "thread 'first' panicked with 'A'");
    assert!(created);
}
