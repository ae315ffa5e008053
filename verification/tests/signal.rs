use std::collections::HashSet;

use dispatch::json::{Fields, Json};
use dispatch::signal::{SignalEntry, SignalKind, SignalWindow, Timestamp};

fn moment(clock: &str) -> Timestamp {
    Timestamp {
        clock: clock.to_string(),
        rfc3339: format!("2024-05-06T{}+02:00", clock),
    }
}

#[test]
fn window_capacity() {
    let mut window = SignalWindow::new(3);
    for i in 1..=5 {
        window.push(SignalEntry::new(i, SignalKind::Init, &format!("task {}", i)));
    }
    assert_eq!(window.len(), 3);
    let all = window.all();
    assert_eq!(all[0].pid, 3);
    assert_eq!(all[1].pid, 4);
    assert_eq!(all[2].pid, 5);
}

#[test]
fn last_n() {
    let mut window = SignalWindow::new(10);
    for i in 1..=5 {
        window.push(SignalEntry::new(i, SignalKind::Exit, &format!("done {}", i)));
    }
    let last2 = window.last(2);
    assert_eq!(last2.len(), 2);
    assert_eq!(last2[0].pid, 4);
    assert_eq!(last2[1].pid, 5);
}

#[test]
fn format_window_for_pids_filters_correctly() {
    let mut window = SignalWindow::new(20);
    window.push(SignalEntry::new(1, SignalKind::Init, "old task"));
    window.push(SignalEntry::new(1, SignalKind::Exit, "old result"));
    window.push(SignalEntry::new(2, SignalKind::Init, "current task"));
    window.push(SignalEntry::new(2, SignalKind::Remind, "running"));

    let mut pids = HashSet::new();
    pids.insert(2u64);
    let text = window.format_window_for_pids(20, &pids);

    assert!(text.contains("PID 2"), "should show current PID");
    assert!(!text.contains("PID 1"), "should not show old PID");
}

#[test]
fn nonce_stored_on_entry_but_not_in_display() {
    let entry = SignalEntry::new(7, SignalKind::Exit, "[hash=a3f2c1] 200").with_nonce("a3f2c1");
    assert_eq!(entry.nonce.as_deref(), Some("a3f2c1"));
    let s = entry.line();
    assert!(s.contains("[hash=a3f2c1]"), "message should contain hash prefix: {}", s);
    assert!(s.contains("200"), "message should contain status code: {}", s);
}

#[test]
fn init_signal_has_no_hash_in_display() {
    let entry = SignalEntry::new(7, SignalKind::Init, "shellmcp/run_command");
    let s = entry.line();
    assert!(!s.contains("[hash="), "INIT should not contain hash prefix: {}", s);
}

#[test]
fn line_format() {
    let entry = SignalEntry::at(moment("14:02:01"), 42, SignalKind::Remind, "timer \"x\"");
    assert_eq!(entry.line(), "[14:02:01] PID 42 REMIND timer \"x\"");
    let plain = entry.line();
    assert_eq!(entry.with_nonce("beef").line(), plain);
}

#[test]
fn kinds_have_their_names() {
    let names: Vec<&str> = vec![
        SignalKind::Init.name(),
        SignalKind::Exit.name(),
        SignalKind::Remind.name(),
        SignalKind::Wait.name(),
        SignalKind::Kill.name(),
    ];
    assert_eq!(names, vec!["INIT", "EXIT", "REMIND", "WAIT", "KILL"]);
}

#[test]
fn clock_reads_hours_minutes_seconds() {
    let before = chrono::Local::now();
    let entry = SignalEntry::new(1, SignalKind::Init, "x");
    let after = chrono::Local::now();
    let clock: Vec<char> = entry.timestamp.clock.chars().collect();
    assert_eq!(clock.len(), 8);
    for (i, c) in clock.iter().enumerate() {
        if i == 2 || i == 5 {
            assert_eq!(*c, ':');
        } else {
            assert!(c.is_ascii_digit());
        }
    }
    assert!(entry.timestamp.rfc3339.contains(&format!("T{}", entry.timestamp.clock)));
    let number = |i: usize| entry.timestamp.clock[i..i + 2].parse::<u32>().unwrap();
    assert!(number(0) < 24 && number(3) < 60 && number(6) <= 60);
    let stamp = chrono::DateTime::parse_from_rfc3339(&entry.timestamp.rfc3339).unwrap();
    assert!(before <= stamp && stamp <= after);
    assert_eq!(stamp.format("%H:%M:%S").to_string(), entry.timestamp.clock);
    // The notation is the one in which chrono serializes a moment.
    let serialized = serde_json::to_value(stamp.with_timezone(&chrono::Local)).unwrap();
    assert_eq!(serialized.as_str(), Some(entry.timestamp.rfc3339.as_str()));
}

#[test]
fn window_text_counts_and_lists() {
    let mut window = SignalWindow::new(20);
    assert_eq!(window.format_window(20), "Signal window: (empty)");
    assert!(window.is_empty());
    window.push(SignalEntry::at(moment("10:00:00"), 1, SignalKind::Init, "git/pull"));
    window.push(SignalEntry::at(moment("10:00:01"), 1, SignalKind::Exit, "done"));
    assert_eq!(
        window.format_window(20),
        "Signal window (last 2):\n[10:00:00] PID 1 INIT git/pull\n[10:00:01] PID 1 EXIT done\n"
    );
    assert_eq!(
        window.format_window(1),
        "Signal window (last 1):\n[10:00:01] PID 1 EXIT done\n"
    );
    assert_eq!(window.format_window(0), "Signal window: (empty)");
    assert!(!window.is_empty());
}

#[test]
fn window_for_pids_takes_the_last_of_those() {
    let mut window = SignalWindow::new(20);
    for i in 0..6u64 {
        let message = format!("m{}", i);
        window.push(SignalEntry::at(moment("10:00:00"), 1 + i % 2, SignalKind::Wait, &message));
    }
    let mut pids = HashSet::new();
    assert_eq!(window.format_window_for_pids(20, &pids), "Signal window: (empty)");
    pids.insert(2u64);
    assert_eq!(
        window.format_window_for_pids(2, &pids),
        "Signal window (last 2):\n[10:00:00] PID 2 WAIT m3\n[10:00:00] PID 2 WAIT m5\n"
    );
    assert_eq!(window.format_window_for_pids(0, &pids), "Signal window (last 0):\n");
    pids.insert(1u64);
    assert_eq!(window.format_window_for_pids(20, &pids), window.format_window(20));
}

#[test]
fn window_without_room_keeps_nothing() {
    let mut window = SignalWindow::new(0);
    window.push(SignalEntry::new(1, SignalKind::Init, "x"));
    window.push(SignalEntry::new(2, SignalKind::Init, "y"));
    assert_eq!(window.len(), 0);
}

#[test]
fn entries_as_json() {
    let mut window = SignalWindow::new(20);
    window.push(SignalEntry::at(moment("10:00:00"), 3, SignalKind::Exit, "out").with_nonce("0f0f"));
    let mut with_payload = SignalEntry::at(moment("10:00:01"), 4, SignalKind::Kill, "gone");
    with_payload.payload = Some(Json::number(5));
    window.push(with_payload);
    let first = Fields::new()
        .with("timestamp", Json::text("2024-05-06T10:00:00+02:00"))
        .with("pid", Json::number(3))
        .with("kind", Json::text("EXIT"))
        .with("message", Json::text("out"))
        .with("nonce", Json::text("0f0f"))
        .object();
    let second = Fields::new()
        .with("timestamp", Json::text("2024-05-06T10:00:01+02:00"))
        .with("pid", Json::number(4))
        .with("kind", Json::text("KILL"))
        .with("message", Json::text("gone"))
        .with("payload", Json::number(5))
        .object();
    assert_eq!(window.to_json(20), Json::Array(vec![first, second]));
    match window.to_json(1) {
        Json::Array(items) => assert_eq!(items.len(), 1),
        other => panic!("not a list: {:?}", other),
    }
}

#[test]
fn entries_that_fit_stay_before_the_new_ones() {
    let mut window = SignalWindow::new(3);
    for pid in 1..=3 {
        window.push(SignalEntry::at(moment("10:00:00"), pid, SignalKind::Init, "x"));
        let pids: Vec<u64> = window.all().iter().map(|e| e.pid).collect();
        assert_eq!(pids, (1..=pid).collect::<Vec<u64>>());
    }
    window.push(SignalEntry::at(moment("10:00:01"), 9, SignalKind::Exit, "y"));
    let pids: Vec<u64> = window.all().iter().map(|e| e.pid).collect();
    assert_eq!(pids, vec![2, 3, 9]);
}
