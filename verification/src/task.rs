//! Tasks: what the client asks for, what is known of one that was started, and its status.

use tokio::time::Instant;
use vstd::prelude::*;
use vstd::string::*;

use crate::json::{
    added_entry_counts, json_text, opt_json_view, opt_text, write_json, Fields, Json, JsonView,
    NumberView,
};
use crate::nonce::{generate, is_four_hex, is_nonce_for, NonceCounter};
use crate::pid::counted_on;
use crate::text::{decimal, push_decimal};

verus! {

/// `tokio::time::Instant`, as an opaque type.
#[verifier::external_type_specification]
#[verifier::external_body]
pub struct ExInstant(Instant);

/// `tokio::time::Instant::now` reads the monotonic clock. Nothing is claimed of the reading.
pub assume_specification[ Instant::now ]() -> (t: Instant)
;

/// The whole seconds from one reading of the monotonic clock to another; zero where the other is
/// the earlier one.
pub uninterp spec fn secs_between(earlier: Instant, later: Instant) -> u64;

/// Calls `tokio::time::Instant::duration_since` and takes the whole seconds of the duration. They
/// depend on the two readings alone.
#[verifier::external_body]
fn secs_since(later: &Instant, earlier: &Instant) -> (res: u64)
    ensures
        res == secs_between(*earlier, *later),
{
    later.duration_since(*earlier).as_secs()
}

/// Whether a task wakes the client at its end where its definition does not say.
pub const FIRE_WAKE_DEFAULT: bool = true;

/// Task state machine: a task is started running, and then exits or is killed.
#[derive(Debug, Clone, Copy, PartialEq, Eq, Structural)]
pub enum TaskState {
    Running,
    Exited,
    Killed,
}

impl TaskState {
    /// The name under which a state is serialized.
    pub open spec fn label(self) -> Seq<char> {
        match self {
            TaskState::Running => "running"@,
            TaskState::Exited => "exited"@,
            TaskState::Killed => "killed"@,
        }
    }

    /// The name under which a state is serialized.
    pub fn name(&self) -> (res: &'static str)
        ensures
            res@ == self.label(),
    {
        match self {
            TaskState::Running => "running",
            TaskState::Exited => "exited",
            TaskState::Killed => "killed",
        }
    }
}

/// A task definition as received from the client.
#[derive(Debug, PartialEq)]
pub struct TaskDef {
    pub server: String,
    pub tool: String,
    pub params: Json,
    pub remind_after: Option<u64>,
    /// Wake the client immediately when the task exits, even if other tasks are still running.
    pub fire_wake: bool,
    /// Store output out-of-band instead of inlining it in the EXIT signal.
    pub defer_output: bool,
}

/// The mathematical value of a `TaskDef`.
pub struct TaskDefView {
    pub server: Seq<char>,
    pub tool: Seq<char>,
    pub params: JsonView,
    pub remind_after: Option<u64>,
    pub fire_wake: bool,
    pub defer_output: bool,
}

impl View for TaskDef {
    type V = TaskDefView;

    open spec fn view(&self) -> TaskDefView {
        TaskDefView {
            server: self.server@,
            tool: self.tool@,
            params: self.params@,
            remind_after: self.remind_after,
            fire_wake: self.fire_wake,
            defer_output: self.defer_output,
        }
    }
}

/// A timer definition as received from the client.
#[derive(Debug, PartialEq)]
pub struct TimerDef {
    pub label: String,
    pub duration: u64,
    pub metadata: Option<Json>,
}

/// The mathematical value of a `TimerDef`.
pub struct TimerDefView {
    pub label: Seq<char>,
    pub duration: u64,
    pub metadata: Option<JsonView>,
}

impl View for TimerDef {
    type V = TimerDefView;

    open spec fn view(&self) -> TimerDefView {
        TimerDefView {
            label: self.label@,
            duration: self.duration,
            metadata: opt_json_view(self.metadata),
        }
    }
}

/// What kind of task this is.
#[derive(Debug, PartialEq)]
pub enum TaskKind {
    Mcp(TaskDef),
    Timer(TimerDef),
}

/// The mathematical value of a `TaskKind`.
pub enum TaskKindView {
    Mcp(TaskDefView),
    Timer(TimerDefView),
}

impl View for TaskKind {
    type V = TaskKindView;

    open spec fn view(&self) -> TaskKindView {
        match self {
            TaskKind::Mcp(def) => TaskKindView::Mcp(def@),
            TaskKind::Timer(def) => TaskKindView::Timer(def@),
        }
    }
}

/// Whether a task is passed no parameters: they are `null` or an object without entries.
pub open spec fn no_params(params: JsonView) -> bool {
    params == JsonView::Null || params == JsonView::Object(Seq::empty())
}

/// The text of the parameters of a task, where it is passed any.
pub open spec fn params_text(params: JsonView) -> Option<Seq<char>> {
    if no_params(params) {
        None
    } else {
        Some(json_text(params))
    }
}

/// Writes the parameters of a task down, where it is passed any.
pub fn write_params(params: &Json) -> (res: Option<String>)
    ensures
        opt_text(res) == params_text(params@),
{
    if params.is_blank() {
        None
    } else {
        Some(write_json(params))
    }
}

impl TaskDefView {
    /// The call that a task makes, given the text of its parameters where it has any.
    pub open spec fn call_text(self, params: Option<Seq<char>>) -> Seq<char> {
        let call = self.server + "/"@ + self.tool;
        match params {
            Some(text) => call + " "@ + text,
            None => call,
        }
    }
}

impl TaskDef {
    /// The call that a task makes, given the text of its parameters where it has any.
    pub fn call_text(&self, params: Option<String>) -> (res: String)
        ensures
            res@ == self@.call_text(opt_text(params)),
    {
        let mut out = self.server.clone();
        out.append("/");
        out.append(self.tool.as_str());
        if let Some(text) = params {
            out.append(" ");
            out.append(text.as_str());
        }
        out
    }
}

impl TaskKindView {
    /// Short description for signal messages.
    pub open spec fn description(self) -> Seq<char> {
        match self {
            TaskKindView::Mcp(def) => def.call_text(params_text(def.params)),
            TaskKindView::Timer(def) => "timer \""@ + def.label + "\" ("@ + decimal(
                def.duration as nat,
            ) + "s)"@,
        }
    }
}

/// A live task being tracked by the orchestrator.
#[derive(Debug)]
pub struct Task {
    pub pid: u64,
    pub kind: TaskKind,
    pub state: TaskState,
    pub started_at: Instant,
    /// The nonce that marks the output of an MCP task; `None` for timers (no external output).
    pub nonce: Option<String>,
    /// The session that the task belongs to.
    pub session: Option<String>,
    /// The output of an MCP task that has succeeded.
    pub output: Option<String>,
}

/// The mathematical value of a `Task`.
pub struct TaskView {
    pub pid: u64,
    pub kind: TaskKindView,
    pub state: TaskState,
    pub started_at: Instant,
    pub nonce: Option<Seq<char>>,
    pub session: Option<Seq<char>>,
    pub output: Option<Seq<char>>,
}

impl View for Task {
    type V = TaskView;

    open spec fn view(&self) -> TaskView {
        TaskView {
            pid: self.pid,
            kind: self.kind@,
            state: self.state,
            started_at: self.started_at,
            nonce: opt_text(self.nonce),
            session: opt_text(self.session),
            output: opt_text(self.output),
        }
    }
}

impl TaskView {
    /// Whether this is a task that was just started, for this PID and of this kind.
    pub open spec fn is_fresh(self, pid: u64, kind: TaskKindView) -> bool {
        &&& self.pid == pid
        &&& self.kind == kind
        &&& self.state == TaskState::Running
        &&& self.session is None
        &&& self.output is None
    }
}

impl Task {
    /// Starts the record of an MCP task, with a nonce of its own.
    pub fn new_mcp(pid: u64, def: TaskDef, nonces: &mut NonceCounter) -> (res: Task)
        ensures
            res@.is_fresh(pid, TaskKindView::Mcp(def@)),
            res@.nonce matches Some(n) && is_nonce_for(pid, old(nonces)@, n) && is_four_hex(n),
            final(nonces)@ == counted_on(old(nonces)@, 1),
    {
        Task {
            pid,
            kind: TaskKind::Mcp(def),
            state: TaskState::Running,
            started_at: Instant::now(),
            nonce: Some(generate(pid, nonces)),
            session: None,
            output: None,
        }
    }

    /// Starts the record of a timer.
    pub fn new_timer(pid: u64, def: TimerDef) -> (res: Task)
        ensures
            res@.is_fresh(pid, TaskKindView::Timer(def@)),
            res@.nonce is None,
    {
        Task {
            pid,
            kind: TaskKind::Timer(def),
            state: TaskState::Running,
            started_at: Instant::now(),
            nonce: None,
            session: None,
            output: None,
        }
    }

    /// Whether the task is still running.
    pub fn is_running(&self) -> (res: bool)
        ensures
            res == (self@.state == TaskState::Running),
    {
        self.state == TaskState::Running
    }

    /// Records that the task has exited.
    pub fn mark_exited(&mut self)
        ensures
            final(self)@ == (TaskView { state: TaskState::Exited, ..old(self)@ }),
    {
        self.state = TaskState::Exited;
    }

    /// Records that the task was killed.
    pub fn mark_killed(&mut self)
        ensures
            final(self)@ == (TaskView { state: TaskState::Killed, ..old(self)@ }),
    {
        self.state = TaskState::Killed;
    }

    /// Short description for signal messages.
    pub fn description(&self) -> (res: String)
        ensures
            res@ == self@.kind.description(),
    {
        match &self.kind {
            TaskKind::Mcp(def) => def.call_text(write_params(&def.params)),
            TaskKind::Timer(def) => {
                let mut out = "timer \"".to_owned();
                out.append(def.label.as_str());
                out.append("\" (");
                push_decimal(&mut out, def.duration);
                out.append("s)");
                out
            },
        }
    }

    /// The definition of an MCP task.
    pub fn mcp_def(&self) -> (res: &TaskDef)
        requires
            self@.kind is Mcp,
        ensures
            self@.kind == TaskKindView::Mcp(res@),
    {
        match &self.kind {
            TaskKind::Mcp(def) => def,
            TaskKind::Timer(_) => vstd::pervasive::unreached(),
        }
    }

    /// The definition of a timer.
    pub fn timer_def(&self) -> (res: &TimerDef)
        requires
            self@.kind is Timer,
        ensures
            self@.kind == TaskKindView::Timer(res@),
    {
        match &self.kind {
            TaskKind::Timer(def) => def,
            TaskKind::Mcp(_) => vstd::pervasive::unreached(),
        }
    }
}

/// Status snapshot of a task.
#[derive(Debug, PartialEq)]
pub struct TaskStatus {
    pub pid: u64,
    pub kind: TaskStatusKind,
    pub state: TaskState,
}

/// What a status says of the two kinds of task.
#[derive(Debug, PartialEq)]
pub enum TaskStatusKind {
    Mcp { server: String, tool: String },
    /// A timer, with the seconds until it fires (0 if it already has).
    Timer { label: String, fires_in: u64 },
}

/// The mathematical value of a `TaskStatusKind`.
pub enum TaskStatusKindView {
    Mcp { server: Seq<char>, tool: Seq<char> },
    Timer { label: Seq<char>, fires_in: u64 },
}

/// The mathematical value of a `TaskStatus`.
pub struct TaskStatusView {
    pub pid: u64,
    pub kind: TaskStatusKindView,
    pub state: TaskState,
}

impl View for TaskStatusKind {
    type V = TaskStatusKindView;

    open spec fn view(&self) -> TaskStatusKindView {
        match self {
            TaskStatusKind::Mcp { server, tool } => TaskStatusKindView::Mcp {
                server: server@,
                tool: tool@,
            },
            TaskStatusKind::Timer { label, fires_in } => TaskStatusKindView::Timer {
                label: label@,
                fires_in: *fires_in,
            },
        }
    }
}

impl View for TaskStatus {
    type V = TaskStatusView;

    open spec fn view(&self) -> TaskStatusView {
        TaskStatusView { pid: self.pid, kind: self.kind@, state: self.state }
    }
}

impl TaskView {
    /// The status of the task `elapsed` seconds after its start.
    pub open spec fn status(self, elapsed: u64) -> TaskStatusView {
        TaskStatusView {
            pid: self.pid,
            kind: match self.kind {
                TaskKindView::Mcp(def) => TaskStatusKindView::Mcp {
                    server: def.server,
                    tool: def.tool,
                },
                TaskKindView::Timer(def) => TaskStatusKindView::Timer {
                    label: def.label,
                    fires_in: if elapsed < def.duration {
                        (def.duration - elapsed) as u64
                    } else {
                        0
                    },
                },
            },
            state: self.state,
        }
    }
}

impl TaskStatusView {
    /// The status as a JSON object.
    pub open spec fn json(self) -> JsonView {
        let head = Seq::empty().push(("pid"@, JsonView::Number(NumberView::PosInt(self.pid))));
        let body = match self.kind {
            TaskStatusKindView::Mcp { server, tool } => head.push(
                ("type"@, JsonView::Str("mcp"@)),
            ).push(("server"@, JsonView::Str(server))).push(("tool"@, JsonView::Str(tool))),
            TaskStatusKindView::Timer { label, fires_in } => head.push(
                ("type"@, JsonView::Str("timer"@)),
            ).push(("label"@, JsonView::Str(label))).push(
                ("fires_in"@, JsonView::Number(NumberView::PosInt(fires_in))),
            ),
        };
        JsonView::Object(body.push(("state"@, JsonView::Str(self.state.label()))))
    }
}

/// Whether this is the status of the task at some reading of the clock.
pub open spec fn is_status_of(status: TaskStatusView, task: TaskView) -> bool {
    exists|now: Instant|
        status == task.status(#[trigger] secs_between(task.started_at, now))
}

impl TaskStatus {
    /// The status of a task `elapsed` seconds after its start.
    pub fn after(task: &Task, elapsed: u64) -> (res: TaskStatus)
        ensures
            res@ == task@.status(elapsed),
    {
        let kind = match &task.kind {
            TaskKind::Mcp(def) => TaskStatusKind::Mcp {
                server: def.server.clone(),
                tool: def.tool.clone(),
            },
            TaskKind::Timer(def) => TaskStatusKind::Timer {
                label: def.label.clone(),
                fires_in: def.duration.saturating_sub(elapsed),
            },
        };
        TaskStatus { pid: task.pid, kind, state: task.state }
    }

    /// The status of a task at a reading of the clock.
    pub fn at(task: &Task, now: &Instant) -> (res: TaskStatus)
        ensures
            res@ == task@.status(secs_between(task@.started_at, *now)),
    {
        TaskStatus::after(task, secs_since(now, &task.started_at))
    }

    /// The status of a task at this moment.
    pub fn from(task: &Task) -> (res: TaskStatus)
        ensures
            is_status_of(res@, task@),
    {
        TaskStatus::at(task, &Instant::now())
    }

    /// The status as a JSON object.
    pub fn json(&self) -> (res: Json)
        ensures
            res@ == self@.json(),
    {
        let head = Fields::new().with("pid", Json::number(self.pid));
        let body = match &self.kind {
            TaskStatusKind::Mcp { server, tool } => head.with("type", Json::text("mcp")).with(
                "server",
                Json::text(server.as_str()),
            ).with("tool", Json::text(tool.as_str())),
            TaskStatusKind::Timer { label, fires_in } => head.with(
                "type",
                Json::text("timer"),
            ).with("label", Json::text(label.as_str())).with("fires_in", Json::number(*fires_in)),
        };
        body.with("state", Json::text(self.state.name())).object()
    }
}

/// A status tells of its task: the server and the tool of a call, the label of a timer with the
/// seconds that are left of its duration, and the state. What has passed and what is left make up
/// the duration, until nothing is left.
pub proof fn status_tells_what_is_left(task: TaskView, elapsed: u64)
    ensures
        task.status(elapsed).pid == task.pid,
        task.status(elapsed).state == task.state,
        match (task.kind, task.status(elapsed).kind) {
            (TaskKindView::Mcp(def), TaskStatusKindView::Mcp { server, tool }) => server
                == def.server && tool == def.tool,
            (TaskKindView::Timer(def), TaskStatusKindView::Timer { label, fires_in }) => {
                &&& label == def.label
                &&& elapsed <= def.duration ==> fires_in + elapsed == def.duration
                &&& elapsed >= def.duration ==> fires_in == 0
            },
            _ => false,
        },
{
}

/// A status as JSON holds all that the status says, under its key.
pub proof fn status_is_told_in_full(status: TaskStatusView)
    ensures
        status.json().u64_field("pid"@) == Some(status.pid),
        status.json().str_field("state"@) == Some(
            match status.state {
                TaskState::Running => "running"@,
                TaskState::Exited => "exited"@,
                TaskState::Killed => "killed"@,
            },
        ),
        match status.kind {
            TaskStatusKindView::Mcp { server, tool } => {
                &&& status.json().str_field("type"@) == Some("mcp"@)
                &&& status.json().str_field("server"@) == Some(server)
                &&& status.json().str_field("tool"@) == Some(tool)
            },
            TaskStatusKindView::Timer { label, fires_in } => {
                &&& status.json().str_field("type"@) == Some("timer"@)
                &&& status.json().str_field("label"@) == Some(label)
                &&& status.json().u64_field("fires_in"@) == Some(fires_in)
            },
        },
{
    reveal_strlit("pid");
    reveal_strlit("state");
    reveal_strlit("type");
    reveal_strlit("server");
    reveal_strlit("tool");
    reveal_strlit("label");
    reveal_strlit("fires_in");
    assert("pid"@.len() == 3 && "state"@.len() == 5 && "type"@.len() == 4);
    assert("server"@.len() == 6 && "tool"@.len() == 4 && "label"@.len() == 5);
    assert("fires_in"@.len() == 8);
    assert("state"@[0] != "label"@[0]);
    assert("type"@[1] != "tool"@[1]);
    let f0: Seq<(Seq<char>, JsonView)> = Seq::empty();
    let f1 = f0.push(("pid"@, JsonView::Number(NumberView::PosInt(status.pid))));
    added_entry_counts(f0, f1.last().0, f1.last().1, "pid"@);
    let (k2, v2, k3, v3, k4, v4) = match status.kind {
        TaskStatusKindView::Mcp { server, tool } => (
            "type"@,
            JsonView::Str("mcp"@),
            "server"@,
            JsonView::Str(server),
            "tool"@,
            JsonView::Str(tool),
        ),
        TaskStatusKindView::Timer { label, fires_in } => (
            "type"@,
            JsonView::Str("timer"@),
            "label"@,
            JsonView::Str(label),
            "fires_in"@,
            JsonView::Number(NumberView::PosInt(fires_in)),
        ),
    };
    let f2 = f1.push((k2, v2));
    let f3 = f2.push((k3, v3));
    let f4 = f3.push((k4, v4));
    let state = JsonView::Str(status.state.label());
    added_entry_counts(f1, k2, v2, "pid"@);
    added_entry_counts(f2, k3, v3, "pid"@);
    added_entry_counts(f2, k3, v3, k2);
    added_entry_counts(f3, k4, v4, "pid"@);
    added_entry_counts(f3, k4, v4, k2);
    added_entry_counts(f3, k4, v4, k3);
    added_entry_counts(f4, "state"@, state, "pid"@);
    added_entry_counts(f4, "state"@, state, k2);
    added_entry_counts(f4, "state"@, state, k3);
    added_entry_counts(f4, "state"@, state, k4);
}

/// The views of definitions and records show every field.
pub proof fn views_show_every_field(task: Task, def: TaskDef, timer: TimerDef)
    ensures
        def@.server == def.server@ && def@.tool == def.tool@ && def@.params == def.params@,
        def@.remind_after == def.remind_after,
        def@.fire_wake == def.fire_wake,
        def@.defer_output == def.defer_output,
        timer@.label == timer.label@ && timer@.duration == timer.duration,
        timer.metadata is None <==> timer@.metadata is None,
        timer.metadata matches Some(m) ==> timer@.metadata == Some(m@),
        task@.pid == task.pid && task@.state == task.state && task@.started_at == task.started_at,
        task.kind == TaskKind::Mcp(def) ==> task@.kind == TaskKindView::Mcp(def@),
        task.kind == TaskKind::Timer(timer) ==> task@.kind == TaskKindView::Timer(timer@),
        task.nonce is None <==> task@.nonce is None,
        task.nonce matches Some(n) ==> task@.nonce == Some(n@),
        task.session is None <==> task@.session is None,
        task.session matches Some(s) ==> task@.session == Some(s@),
        task.output is None <==> task@.output is None,
        task.output matches Some(o) ==> task@.output == Some(o@),
{
}

} // verus!
