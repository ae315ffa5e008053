use std::collections::HashMap;
use std::time::Duration;

use dispatch::error::DispatchError;
use dispatch::event::{Action, TaskResult, WaitEvent};
use dispatch::json::{Fields, Json};
use dispatch::orchestrator::Orchestrator;
use dispatch::reminder::ReminderEvent;
use dispatch::signal::SignalKind;
use dispatch::task::{TaskDef, TaskState, TaskStatusKind, TimerDef};
use tokio::sync::mpsc;

/// Helper: create a TimerDef with optional metadata.
fn timer_def(label: &str, duration: u64, metadata: Option<Json>) -> TimerDef {
    TimerDef {
        label: label.to_string(),
        duration,
        metadata,
    }
}

fn task_def(server: &str) -> TaskDef {
    TaskDef {
        server: server.to_string(),
        tool: "run".to_string(),
        params: Json::Null,
        remind_after: None,
        fire_wake: false,
        defer_output: false,
    }
}

/// An orchestrator whose timers sleep on the tokio clock.
struct Clockwork {
    orch: Orchestrator,
    tx: mpsc::Sender<TaskResult>,
    rx: mpsc::Receiver<TaskResult>,
    handles: HashMap<u64, tokio::task::AbortHandle>,
}

impl Clockwork {
    fn new() -> Clockwork {
        let (tx, rx) = mpsc::channel(64);
        Clockwork {
            orch: Orchestrator::new(),
            tx,
            rx,
            handles: HashMap::new(),
        }
    }

    fn act(&mut self) {
        for action in self.orch.take_actions() {
            match action {
                Action::Sleep { pid, label, duration, metadata } => {
                    let tx = self.tx.clone();
                    let sleep = tokio::spawn(async move {
                        tokio::time::sleep(Duration::from_secs(duration)).await;
                        let _ = tx.send(TaskResult::of_timer(pid, label, metadata, duration)).await;
                    });
                    self.handles.insert(pid, sleep.abort_handle());
                }
                Action::Abort { pid } => {
                    if let Some(handle) = self.handles.remove(&pid) {
                        handle.abort();
                    }
                }
                _ => {}
            }
        }
    }

    fn dispatch_timer(&mut self, def: TimerDef) -> u64 {
        let pid = self.orch.dispatch_timer(def);
        self.act();
        pid
    }

    fn kill(&mut self, pids: &[u64]) -> Result<Vec<u64>, DispatchError> {
        let killed = self.orch.kill(pids);
        self.act();
        killed
    }

    fn drain_results(&mut self) {
        let mut results = Vec::new();
        while let Ok(result) = self.rx.try_recv() {
            results.push(result);
        }
        self.orch.drain_results(results);
    }

    async fn wait_for_event(&mut self) -> Result<String, DispatchError> {
        let mut event = WaitEvent::Start;
        loop {
            if let Some(text) = self.orch.wait_for_event(event)? {
                return Ok(text);
            }
            event = match self.rx.recv().await {
                Some(result) => WaitEvent::TaskDone(result),
                None => WaitEvent::Closed,
            };
        }
    }
}

fn on_paused_clock<F: std::future::Future<Output = ()>>(test: F) {
    tokio::runtime::Builder::new_current_thread()
        .enable_time()
        .start_paused(true)
        .build()
        .unwrap()
        .block_on(test);
}

#[test]
fn basic_timer_fires_init_remind_exit() {
    on_paused_clock(async {
        let mut orch = Clockwork::new();
        let pid = orch.dispatch_timer(timer_def("test_timer", 2, None));
        assert!(pid > 0);

        // INIT should already be in the signal window
        let signals = orch.orch.signal_window().all();
        assert_eq!(signals.len(), 1);
        assert_eq!(signals[0].kind, SignalKind::Init);
        assert!(signals[0].message.contains("test_timer"));

        // Task should be running
        assert!(orch.orch.has_running_tasks());

        // Wait for the timer to fire
        let result = orch.wait_for_event().await;
        assert!(result.is_ok());

        // After timer fires we should have: INIT, REMIND, EXIT
        let signals = orch.orch.signal_window().all();
        assert_eq!(signals.len(), 3);
        assert_eq!(signals[0].kind, SignalKind::Init);
        assert_eq!(signals[1].kind, SignalKind::Remind);
        assert_eq!(signals[2].kind, SignalKind::Exit);

        // REMIND payload should contain the correct fields
        let payload = signals[1].payload.as_ref().expect("REMIND should have payload");
        assert_eq!(payload.str_field("type").as_deref(), Some("REMIND"));
        assert_eq!(payload.str_field("label").as_deref(), Some("test_timer"));
        assert_eq!(payload.u64_field("elapsed"), Some(2));
        assert_eq!(payload.u64_field("pid"), Some(pid));

        // EXIT message should indicate timer completed
        assert!(signals[2].message.contains("timer completed"));

        // Timer signals carry no nonce
        assert!(signals[0].nonce.is_none());
        assert!(signals[2].nonce.is_none());

        // No more running tasks
        assert!(!orch.orch.has_running_tasks());
    });
}

#[test]
fn kill_timer_prevents_remind() {
    on_paused_clock(async {
        let mut orch = Clockwork::new();
        let pid = orch.dispatch_timer(timer_def("kill_me", 60, None));

        // Advance a bit (but not to 60s)
        tokio::time::advance(Duration::from_secs(1)).await;

        // Kill the timer
        let killed = orch.kill(&[pid]).expect("kill should succeed");
        assert_eq!(killed, vec![pid]);

        // Should have INIT + KILL
        let signals = orch.orch.signal_window().all();
        assert_eq!(signals.len(), 2);
        assert_eq!(signals[0].kind, SignalKind::Init);
        assert_eq!(signals[1].kind, SignalKind::Kill);
        assert!(signals[1].message.contains("cancelled"));

        // Advance past the original duration — no REMIND should appear
        tokio::time::advance(Duration::from_secs(120)).await;
        orch.drain_results();

        let signals = orch.orch.signal_window().all();
        assert_eq!(signals.len(), 2); // Still just INIT + KILL

        assert!(!orch.orch.has_running_tasks());
    });
}

#[test]
fn multiple_timers_fire_independently() {
    on_paused_clock(async {
        let mut orch = Clockwork::new();

        let pid1 = orch.dispatch_timer(timer_def("fast", 1, None));
        let pid2 = orch.dispatch_timer(timer_def("medium", 3, None));
        let pid3 = orch.dispatch_timer(timer_def("slow", 5, None));

        // 3 INIT signals
        assert_eq!(orch.orch.signal_window().all().len(), 3);

        // All 3 should be done after wait_for_event (since it loops until no running tasks)
        let _ = orch.wait_for_event().await;
        let signals = orch.orch.signal_window().all();

        // 3 INIT + 3 REMIND + 3 EXIT = 9
        assert_eq!(signals.len(), 9);

        // Verify each timer got its own REMIND
        let reminds: Vec<_> = signals.iter().filter(|s| s.kind == SignalKind::Remind).collect();
        assert_eq!(reminds.len(), 3);

        // Verify PIDs are distinct
        let mut remind_pids: Vec<u64> = reminds.iter().map(|s| s.pid).collect();
        assert_eq!(remind_pids, vec![pid1, pid2, pid3]);
        remind_pids.sort();
        remind_pids.dedup();
        assert_eq!(remind_pids.len(), 3);

        // All three PIDs should be present
        assert!(remind_pids.contains(&pid1));
        assert!(remind_pids.contains(&pid2));
        assert!(remind_pids.contains(&pid3));

        assert!(!orch.orch.has_running_tasks());
    });
}

#[test]
fn metadata_passthrough() {
    on_paused_clock(async {
        let meta = Fields::new()
            .with("goal_id", Json::text("abc123"))
            .with("type", Json::text("goal_defer"))
            .with("priority", Json::number(5))
            .object();

        let mut orch = Clockwork::new();
        let pid = orch.dispatch_timer(timer_def("goal_reminder", 2, Some(meta.clone())));

        // INIT payload should carry metadata
        let init_payload = orch.orch.signal_window().all()[0]
            .payload
            .as_ref()
            .expect("INIT should have payload")
            .clone();
        assert_eq!(init_payload.get("metadata"), Some(&meta));

        // Wait for timer to fire
        let _ = orch.wait_for_event().await;

        // REMIND payload should carry the same metadata, unchanged
        let signals = orch.orch.signal_window().all();
        let remind = signals.iter().find(|s| s.kind == SignalKind::Remind).unwrap();
        let remind_payload = remind.payload.as_ref().expect("REMIND should have payload");
        assert_eq!(remind_payload.get("metadata"), Some(&meta));
        assert_eq!(remind_payload.str_field("label").as_deref(), Some("goal_reminder"));
        assert_eq!(remind_payload.u64_field("pid"), Some(pid));
    });
}

#[test]
fn status_shows_timer_with_remaining_time() {
    on_paused_clock(async {
        let mut orch = Clockwork::new();
        orch.dispatch_timer(timer_def("check_build", 60, None));

        // Advance 10 seconds
        tokio::time::advance(Duration::from_secs(10)).await;

        let statuses = orch.orch.status();
        assert_eq!(statuses.len(), 1);

        let status = &statuses[0];
        assert_eq!(status.state, TaskState::Running);
        match &status.kind {
            TaskStatusKind::Timer { label, fires_in } => {
                assert_eq!(label, "check_build");
                // fires_in should be ~50 (60 - 10)
                assert!(*fires_in <= 50, "fires_in should be <= 50, got {}", fires_in);
                assert!(*fires_in >= 49, "fires_in should be >= 49, got {}", fires_in);
            }
            other => panic!("Expected timer status, got {:?}", other),
        }
    });
}

#[test]
fn kill_nonexistent_pid_returns_error() {
    let mut orch = Orchestrator::new();
    let result = orch.kill(&[999]);
    assert!(result.is_err());
    assert_eq!(result, Err(DispatchError::TaskNotFound(999)));
}

#[test]
fn dispatch_assigns_pids_and_queues_calls() {
    let mut orch = Orchestrator::new();
    let mut reminded = task_def("browser");
    reminded.remind_after = Some(15);
    let mut never = task_def("shell");
    never.remind_after = Some(0);
    let pids = orch.dispatch(vec![task_def("git"), reminded, never], None, None);
    assert_eq!(pids, vec![1, 2, 3]);
    let call = |pid: u64, server: &str| Action::Call {
        pid,
        server: server.to_string(),
        tool: "run".to_string(),
        params: Json::Null,
    };
    assert_eq!(
        orch.take_actions(),
        vec![
            call(1, "git"),
            Action::StartReminder { pid: 2, secs: 15 },
            call(2, "browser"),
            call(3, "shell"),
        ]
    );
    assert_eq!(orch.take_actions(), vec![]);
    let entries = orch.signal_window().all();
    assert_eq!(entries.len(), 3);
    for (entry, pid) in entries.iter().zip(1u64..) {
        assert_eq!(entry.pid, pid);
        assert_eq!(entry.kind, SignalKind::Init);
        assert_eq!(entry.nonce, None);
        assert_eq!(orch.get_nonce(pid).map(|n| n.len()), Some(4));
    }
    assert_eq!(entries[0].message, "git/run");
    assert_eq!(orch.dispatch_timer(timer_def("t", 1, None)), 4);
}

#[test]
fn window_keeps_the_last_twenty() {
    let mut orch = Orchestrator::new();
    let defs: Vec<TaskDef> = (0..25).map(|_| task_def("git")).collect();
    orch.dispatch(defs, None, None);
    let entries = orch.signal_window().all();
    assert_eq!(entries.len(), 20);
    assert_eq!(entries[0].pid, 6);
    assert_eq!(entries[19].pid, 25);
    assert!(orch.log_text(20).starts_with("Signal window (last 20):\n"));
    assert!(orch.log_text(3).starts_with("Signal window (last 3):\n"));
}

fn done(pid: u64, output: &str) -> WaitEvent {
    WaitEvent::TaskDone(TaskResult::of_call(pid, Ok(output.to_string())))
}

fn failed(pid: u64, error: &str) -> WaitEvent {
    WaitEvent::TaskDone(TaskResult::of_call(
        pid,
        Err(DispatchError::DmcpError(error.to_string())),
    ))
}

fn last_message(orch: &Orchestrator) -> String {
    orch.signal_window().last(1)[0].message.clone()
}

#[test]
fn exit_output_stands_between_nonces() {
    let mut orch = Orchestrator::new();
    orch.dispatch(vec![task_def("a"), task_def("b"), task_def("c")], None, None);
    let nonce = |orch: &Orchestrator, pid: u64| orch.get_nonce(pid).unwrap();

    assert_eq!(orch.wait_for_event(done(1, "hello")), Ok(None));
    let h = nonce(&orch, 1);
    assert_eq!(last_message(&orch), format!("[hash={}] 200 <{}>hello</{}>", h, h, h));
    assert_eq!(orch.signal_window().last(1)[0].nonce, Some(h));
    assert_eq!(orch.get_output(1), Some("hello".to_string()));

    assert_eq!(orch.wait_for_event(done(2, "")), Ok(None));
    let h = nonce(&orch, 2);
    assert_eq!(last_message(&orch), format!("[hash={}] 200 <{}>(no output)</{}>", h, h, h));
    assert_eq!(orch.get_output(2), Some(String::new()));

    let woken = orch.wait_for_event(failed(3, "404")).unwrap();
    let h = nonce(&orch, 3);
    assert_eq!(
        last_message(&orch),
        format!("<{}>Error: dmcp invocation failed: 404</{}>", h, h)
    );
    assert_eq!(orch.get_output(3), None);
    assert_eq!(woken, Some(orch.log_text(20)));
}

#[test]
fn deferred_output_stays_out_of_the_signal() {
    let mut orch = Orchestrator::new();
    let mut first = task_def("a");
    first.defer_output = true;
    let mut second = task_def("b");
    second.defer_output = true;
    orch.dispatch(vec![first, second], None, None);
    orch.wait_for_event(done(1, "large")).unwrap();
    let h = orch.get_nonce(1).unwrap();
    assert_eq!(last_message(&orch), format!("[hash={}] 200 (deferred)", h));
    assert_eq!(orch.get_output(1), Some("large".to_string()));
    orch.wait_for_event(failed(2, "no")).unwrap();
    let h = orch.get_nonce(2).unwrap();
    assert_eq!(
        last_message(&orch),
        format!("<{}>Error: dmcp invocation failed: no</{}>", h, h)
    );
}

#[test]
fn wakes_when_the_last_task_ends() {
    let mut orch = Orchestrator::new();
    assert_eq!(
        orch.wait_for_event(WaitEvent::Start),
        Ok(Some("Signal window: (empty)".to_string()))
    );
    orch.dispatch(vec![task_def("a"), task_def("b")], None, None);
    assert_eq!(orch.wait_for_event(WaitEvent::Start), Ok(None));
    assert_eq!(orch.wait_for_event(done(2, "x")), Ok(None));
    let text = orch.wait_for_event(done(1, "y")).unwrap().unwrap();
    assert_eq!(text, orch.log_text(20));
    assert_eq!(text.lines().count(), 5);
    assert!(!orch.has_running_tasks());
}

#[test]
fn closed_channel_is_restarted() {
    let mut orch = Orchestrator::new();
    orch.dispatch(vec![task_def("a")], None, None);
    orch.take_actions();
    let before = orch.log_text(20);
    assert_eq!(orch.wait_for_event(WaitEvent::Closed), Ok(None));
    assert_eq!(orch.take_actions(), vec![Action::RestartChannel]);
    assert_eq!(orch.log_text(20), before);
    assert!(orch.has_running_tasks());
}

#[test]
fn fire_wake_wakes_at_once() {
    let mut orch = Orchestrator::new();
    let mut urgent = task_def("a");
    urgent.fire_wake = true;
    orch.dispatch(vec![urgent, task_def("b")], None, None);
    let text = orch.wait_for_event(done(1, "x")).unwrap();
    assert_eq!(text, Some(orch.log_text(20)));
    assert!(orch.has_running_tasks());
    // A second report on the same task does not.
    assert_eq!(orch.wait_for_event(done(1, "x")), Ok(None));
}

#[test]
fn reminder_wakes_and_comes_again() {
    let mut orch = Orchestrator::new();
    let mut slow = task_def("a");
    slow.remind_after = Some(60);
    orch.dispatch(vec![slow], None, None);
    let event = orch.reminder_due(1).unwrap();
    assert_eq!(event, ReminderEvent { pid: 1, elapsed_secs: 60 });
    let text = orch.wait_for_event(WaitEvent::Reminder(event)).unwrap();
    assert_eq!(text, Some(orch.log_text(20)));
    assert_eq!(last_message(&orch), "Running for 60s");
    assert_eq!(orch.wait(&[1]), Ok(vec![1]));
    assert_eq!(last_message(&orch), "LLM decided to continue waiting");
    assert_eq!(orch.signal_window().last(1)[0].kind, SignalKind::Wait);
    assert_eq!(orch.reminder_due(1), Some(ReminderEvent { pid: 1, elapsed_secs: 120 }));
    orch.take_actions();
    orch.wait_for_event(done(1, "x")).unwrap();
    assert_eq!(orch.reminder_due(1), None);
    assert_eq!(orch.take_actions(), vec![Action::CancelReminder { pid: 1 }]);
    let late = ReminderEvent { pid: 1, elapsed_secs: 180 };
    let before = orch.log_text(20);
    assert_eq!(orch.wait_for_event(WaitEvent::Reminder(late)), Ok(None));
    assert_eq!(orch.log_text(20), before);
}

#[test]
fn kill_stops_at_an_unknown_pid() {
    let mut orch = Orchestrator::new();
    orch.dispatch(vec![task_def("a"), task_def("b")], None, None);
    orch.take_actions();
    assert_eq!(orch.kill(&[1, 1, 9, 2]), Err(DispatchError::TaskNotFound(9)));
    assert_eq!(
        orch.take_actions(),
        vec![Action::Abort { pid: 1 }, Action::CancelReminder { pid: 1 }]
    );
    assert_eq!(last_message(&orch), "Terminated by LLM");
    assert!(orch.has_running_tasks());
    assert_eq!(orch.kill(&[1, 2]), Ok(vec![2]));
    assert!(!orch.has_running_tasks());
    assert_eq!(orch.wait(&[1, 2]), Ok(vec![]));
    assert_eq!(orch.wait(&[1, 8, 9]), Err(DispatchError::TaskNotFound(8)));
    assert_eq!(orch.signal_window().len(), 4);
}

#[test]
fn killed_task_is_silent() {
    let mut orch = Orchestrator::new();
    let mut slow = task_def("a");
    slow.remind_after = Some(5);
    slow.fire_wake = true;
    orch.dispatch(vec![slow, task_def("b")], None, None);
    orch.kill(&[1]).unwrap();
    let before = orch.log_text(20);
    assert_eq!(orch.reminder_due(1), None);
    assert_eq!(orch.wait_for_event(done(1, "late")), Ok(None));
    assert_eq!(orch.log_text(20), before);
    assert_eq!(orch.get_output(1), None);
    let states: Vec<TaskState> =
        orch.status().iter().filter(|s| s.pid == 1).map(|s| s.state).collect();
    assert_eq!(states, vec![TaskState::Killed]);
}

#[test]
fn timer_signals_have_payloads() {
    let mut orch = Orchestrator::new();
    let pid = orch.dispatch_timer(timer_def("tea", 180, None));
    let other = orch.dispatch_timer(timer_def("egg", 300, None));
    assert_eq!(
        orch.take_actions(),
        vec![
            Action::Sleep { pid, label: "tea".to_string(), duration: 180, metadata: None },
            Action::Sleep { pid: other, label: "egg".to_string(), duration: 300, metadata: None },
        ]
    );
    let event = WaitEvent::TaskDone(TaskResult::of_timer(pid, "tea".to_string(), None, 180));
    assert_eq!(orch.wait_for_event(event), Ok(None));
    orch.kill(&[other]).unwrap();
    let entries = orch.signal_window().all();
    let messages: Vec<&str> = entries.iter().map(|e| e.message.as_str()).collect();
    assert_eq!(
        messages,
        vec![
            "timer \"tea\" (180s)",
            "timer \"egg\" (300s)",
            "timer \"tea\" \u{2014} 180s elapsed",
            "timer completed",
            "timer cancelled",
        ]
    );
    let head = |pid: u64, kind: &str, label: &str| {
        Fields::new()
            .with("pid", Json::number(pid))
            .with("type", Json::text(kind))
            .with("label", Json::text(label))
    };
    let payloads = vec![
        head(pid, "INIT", "tea")
            .with("metadata", Json::Null)
            .with("duration", Json::number(180))
            .object(),
        head(other, "INIT", "egg")
            .with("metadata", Json::Null)
            .with("duration", Json::number(300))
            .object(),
        head(pid, "REMIND", "tea")
            .with("metadata", Json::Null)
            .with("elapsed", Json::number(180))
            .object(),
        head(pid, "EXIT", "tea").with("output", Json::text("timer completed")).object(),
        head(other, "KILL", "egg").object(),
    ];
    for (entry, payload) in entries.iter().zip(payloads) {
        assert_eq!(entry.payload, Some(payload));
    }
}

#[test]
fn timers_and_calls_share_pids_and_window() {
    let mut orch = Orchestrator::new();
    assert_eq!(orch.dispatch(vec![task_def("a")], None, None), vec![1]);
    assert_eq!(orch.dispatch_timer(timer_def("t", 9, None)), 2);
    assert_eq!(orch.dispatch(vec![task_def("b")], None, None), vec![3]);
    let mut pids: Vec<u64> = orch.status().iter().map(|s| s.pid).collect();
    pids.sort();
    assert_eq!(pids, vec![1, 2, 3]);
    assert_eq!(orch.signal_window().len(), 3);
    assert_eq!(orch.get_nonce(2), None);
    assert_eq!(orch.get_nonce(99), None);
    assert_eq!(orch.get_output(99), None);
}

#[test]
fn strategy_and_session_shape_the_wakeup() {
    let mut orch = Orchestrator::new();
    let strategy = Some("plan A".to_string());
    orch.dispatch(vec![task_def("old")], strategy, Some("goal1".to_string()));
    orch.wait_for_event(done(1, "x")).unwrap();
    orch.dispatch(vec![task_def("new")], None, Some("goal2".to_string()));
    let text = orch.wait_for_event(done(2, "y")).unwrap().unwrap();
    assert!(text.starts_with("plan A\n\nSignal window (last 2):\n"));
    assert!(text.contains("PID 2 INIT new/run"));
    assert!(!text.contains("PID 1 "));
    assert_eq!(text, orch.wake_text());
    // A timer joins the session that is current.
    orch.dispatch_timer(timer_def("t", 1, None));
    assert!(orch.wake_text().contains("PID 3 INIT"));
    orch.dispatch(vec![task_def("third")], Some("plan B".to_string()), None);
    let text = orch.wake_text();
    assert!(text.starts_with("plan B\n\nSignal window (last 6):\n"));
    assert!(text.contains("PID 1 INIT old/run"));
}

#[test]
fn piled_up_results_are_taken_in() {
    let mut orch = Orchestrator::new();
    orch.dispatch(vec![task_def("a"), task_def("b")], None, None);
    orch.drain_results(vec![
        TaskResult::of_call(2, Ok("two".to_string())),
        TaskResult::of_call(1, Ok("one".to_string())),
    ]);
    assert!(!orch.has_running_tasks());
    assert_eq!(orch.get_output(1), Some("one".to_string()));
    assert_eq!(orch.get_output(2), Some("two".to_string()));
    let kinds: Vec<(u64, SignalKind)> =
        orch.signal_window().all().iter().map(|e| (e.pid, e.kind)).collect();
    assert_eq!(
        kinds,
        vec![
            (1, SignalKind::Init),
            (2, SignalKind::Init),
            (2, SignalKind::Exit),
            (1, SignalKind::Exit),
        ]
    );
}

#[test]
fn shutdown_kills_what_runs() {
    let mut orch = Orchestrator::new();
    let mut slow = task_def("a");
    slow.remind_after = Some(5);
    orch.dispatch(vec![slow, task_def("b"), task_def("c")], None, None);
    orch.wait_for_event(done(3, "x")).unwrap();
    orch.take_actions();
    let before = orch.log_text(20);
    orch.shutdown();
    assert!(!orch.has_running_tasks());
    assert_eq!(orch.reminder_due(1), None);
    assert_eq!(orch.log_text(20), before);
    let actions = orch.take_actions();
    assert_eq!(actions.len(), 3);
    assert!(actions[..2].contains(&Action::Abort { pid: 1 }));
    assert!(actions[..2].contains(&Action::Abort { pid: 2 }));
    assert_eq!(actions[2], Action::CancelAllReminders);
    let mut states: Vec<(u64, TaskState)> =
        orch.status().iter().map(|s| (s.pid, s.state)).collect();
    states.sort_by_key(|s| s.0);
    assert_eq!(
        states,
        vec![(1, TaskState::Killed), (2, TaskState::Killed), (3, TaskState::Exited)]
    );
}

#[test]
fn timer_fires_once() {
    let mut orch = Orchestrator::new();
    let pid = orch.dispatch_timer(timer_def("tea", 3, None));
    let expired = || WaitEvent::TaskDone(TaskResult::of_timer(pid, "tea".to_string(), None, 3));
    assert!(matches!(orch.wait_for_event(expired()), Ok(Some(_))));
    let before = orch.log_text(20);
    assert_eq!(orch.wait_for_event(expired()), Ok(Some(before.clone())));
    assert_eq!(orch.log_text(20), before);
    assert_eq!(orch.signal_window().len(), 3);
}

#[test]
fn stored_output_stays_readable() {
    let mut orch = Orchestrator::new();
    orch.dispatch(vec![task_def("a"), task_def("b")], None, None);
    orch.wait_for_event(done(1, "first")).unwrap();
    let nonce = orch.get_nonce(1);
    orch.wait_for_event(done(1, "second")).unwrap();
    orch.wait_for_event(failed(2, "x")).unwrap();
    let defs: Vec<TaskDef> = (0..30).map(|_| task_def("c")).collect();
    orch.dispatch(defs, None, Some("s".to_string()));
    orch.kill(&[1, 2, 3]).unwrap();
    orch.shutdown();
    assert_eq!(orch.get_output(1), Some("first".to_string()));
    assert_eq!(orch.get_nonce(1), nonce);
    assert_eq!(orch.get_output(2), None);
}

#[test]
fn report_on_an_unknown_pid_is_logged() {
    let mut orch = Orchestrator::new();
    let text = orch.wait_for_event(done(5, "stray")).unwrap();
    assert_eq!(text, Some(orch.log_text(20)));
    assert_eq!(last_message(&orch), "stray");
    assert_eq!(orch.signal_window().all()[0].nonce, None);
    assert_eq!(orch.get_output(5), None);
}

#[test]
fn late_result_leaves_a_killed_task() {
    let mut orch = Orchestrator::new();
    orch.dispatch(vec![task_def("a")], None, None);
    orch.kill(&[1]).unwrap();
    orch.handle_task_result(TaskResult::of_call(1, Ok("late".to_string())));
    assert_eq!(orch.signal_window().len(), 2);
    assert_eq!(orch.status()[0].state, TaskState::Killed);
    assert_eq!(orch.get_output(1), None);
}

#[test]
fn strategy_stays_until_another_is_given() {
    let mut orch = Orchestrator::new();
    orch.dispatch(vec![task_def("a")], Some("plan".to_string()), Some("s1".to_string()));
    orch.dispatch(vec![task_def("b")], None, Some("s2".to_string()));
    orch.dispatch_timer(timer_def("t", 5, None));
    assert!(orch.wake_text().starts_with("plan\n\n"));
    orch.kill(&[1, 2, 3]).unwrap();
    assert!(orch.wake_text().starts_with("plan\n\n"));
    orch.dispatch(vec![task_def("c")], Some("next".to_string()), None);
    assert!(orch.wake_text().starts_with("next\n\n"));
}

#[test]
fn tasks_without_fire_wake_wait_for_everything() {
    let mut orch = Orchestrator::new();
    orch.dispatch(vec![task_def("a")], None, None);
    let timer = orch.dispatch_timer(timer_def("t", 5, None));
    assert_eq!(orch.wait_for_event(done(1, "x")), Ok(None));
    let expired = TaskResult::of_timer(timer, "t".to_string(), None, 5);
    let woken = orch.wait_for_event(WaitEvent::TaskDone(expired)).unwrap();
    assert_eq!(woken, Some(orch.log_text(20)));
}
