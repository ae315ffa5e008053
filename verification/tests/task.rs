use dispatch::json::{Fields, Json, JsonNumber};
use dispatch::nonce::NonceCounter;
use dispatch::task::{
    Task, TaskDef, TaskState, TaskStatus, TaskStatusKind, TimerDef, FIRE_WAKE_DEFAULT,
};

fn mcp(params: Json) -> TaskDef {
    TaskDef {
        server: "git".to_string(),
        tool: "pull".to_string(),
        params,
        remind_after: None,
        fire_wake: false,
        defer_output: false,
    }
}

fn started(params: Json) -> Task {
    Task::new_mcp(3, mcp(params), &mut NonceCounter::new())
}

fn sleeper(duration: u64) -> Task {
    Task::new_timer(
        4,
        TimerDef {
            label: "build".to_string(),
            duration,
            metadata: None,
        },
    )
}

#[test]
fn mcp_description_without_parameters() {
    assert_eq!(started(Json::Null).description(), "git/pull");
    assert_eq!(started(Fields::new().object()).description(), "git/pull");
}

#[test]
fn mcp_description_shows_parameters() {
    let params = Fields::new()
        .with("url", Json::text("https://x/\"y\"\n"))
        .with("depth", Json::number(1))
        .with("ratio", Json::Number(JsonNumber::Float("0.5".to_string())))
        .with("shift", Json::Number(JsonNumber::NegInt(-2)))
        .with("tags", Json::Array(vec![Json::Null, Json::Bool(true)]))
        .with("depth", Json::number(2))
        .object();
    assert_eq!(
        started(params).description(),
        "git/pull {\"depth\":2,\"ratio\":0.5,\"shift\":-2,\"tags\":[null,true],\
         \"url\":\"https://x/\\\"y\\\"\\n\"}"
    );
}

#[test]
fn call_text_puts_parameters_last() {
    let def = mcp(Json::Null);
    assert_eq!(def.call_text(None), "git/pull");
    assert_eq!(def.call_text(Some("{}".to_string())), "git/pull {}");
}

#[test]
fn timer_description() {
    assert_eq!(sleeper(1800).description(), "timer \"build\" (1800s)");
}

#[test]
fn new_tasks_run_and_end() {
    let mut task = started(Json::Null);
    assert!(task.is_running());
    assert_eq!(task.pid, 3);
    assert_eq!(task.nonce.as_ref().map(|n| n.len()), Some(4));
    assert_eq!(task.mcp_def().server, "git");
    task.mark_exited();
    assert_eq!(task.state, TaskState::Exited);
    assert!(!task.is_running());

    let mut timer = sleeper(5);
    assert!(timer.nonce.is_none());
    assert_eq!(timer.timer_def().duration, 5);
    timer.mark_killed();
    assert_eq!(timer.state, TaskState::Killed);
}

#[test]
fn states_have_their_names() {
    assert_eq!(TaskState::Running.name(), "running");
    assert_eq!(TaskState::Exited.name(), "exited");
    assert_eq!(TaskState::Killed.name(), "killed");
}

#[test]
fn remaining_time_of_a_timer() {
    let timer = sleeper(60);
    for (elapsed, left) in [(0u64, 60u64), (10, 50), (60, 0), (61, 0), (u64::MAX, 0)] {
        assert_eq!(
            TaskStatus::after(&timer, elapsed).kind,
            TaskStatusKind::Timer {
                label: "build".to_string(),
                fires_in: left
            }
        );
    }
}

#[test]
fn statuses_as_json() {
    let timer = Fields::new()
        .with("pid", Json::number(4))
        .with("type", Json::text("timer"))
        .with("label", Json::text("build"))
        .with("fires_in", Json::number(50))
        .with("state", Json::text("running"))
        .object();
    assert_eq!(TaskStatus::after(&sleeper(60), 10).json(), timer);

    let mut task = started(Json::Null);
    task.mark_killed();
    let call = Fields::new()
        .with("pid", Json::number(3))
        .with("type", Json::text("mcp"))
        .with("server", Json::text("git"))
        .with("tool", Json::text("pull"))
        .with("state", Json::text("killed"))
        .object();
    assert_eq!(TaskStatus::from(&task).json(), call);
}

#[test]
fn status_counts_whole_seconds_of_the_clock() {
    let clock = tokio::runtime::Builder::new_current_thread()
        .enable_time()
        .start_paused(true)
        .build()
        .unwrap();
    clock.block_on(async {
        let timer = sleeper(60);
        for (step, left) in [(0u64, 60u64), (1_500, 59), (500, 58), (57_000, 1), (9_000, 0)] {
            tokio::time::advance(std::time::Duration::from_millis(step)).await;
            assert_eq!(
                TaskStatus::from(&timer).kind,
                TaskStatusKind::Timer {
                    label: "build".to_string(),
                    fires_in: left
                }
            );
        }
    });
}

#[test]
fn tasks_wake_unless_they_say_otherwise() {
    assert_eq!(FIRE_WAKE_DEFAULT, true);
}

#[test]
fn status_at_a_reading_of_the_clock() {
    let timer = sleeper(60);
    let left = |now: tokio::time::Instant| match TaskStatus::at(&timer, &now).kind {
        TaskStatusKind::Timer { fires_in, .. } => fires_in,
        other => panic!("not a timer: {:?}", other),
    };
    let start = timer.started_at;
    assert_eq!(left(start), 60);
    assert_eq!(left(start + std::time::Duration::from_millis(10_999)), 50);
    assert_eq!(left(start + std::time::Duration::from_secs(61)), 0);
    let earlier = start.checked_sub(std::time::Duration::from_nanos(1)).unwrap();
    assert_eq!(left(earlier), 60);
}

#[test]
fn number_text_that_is_no_number_stays_text() {
    for (text, written) in [("1.5", "1.5"), ("oops", "\"oops\""), ("inf", "\"inf\"")] {
        let params = Json::Array(vec![Json::Number(JsonNumber::Float(text.to_string()))]);
        assert_eq!(started(params).description(), format!("git/pull [{}]", written));
    }
}
