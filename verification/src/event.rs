//! What the orchestrator asks its surroundings to do, and what they report back.

use vstd::prelude::*;
use vstd::string::*;

use crate::error::{DispatchError, DispatchErrorView};
use crate::json::{opt_json_view, Json, JsonView};
use crate::mcp_client::text_outcome;
use crate::reminder::ReminderEvent;

verus! {

/// A piece of work for the surroundings of the orchestrator.
#[derive(Debug, PartialEq)]
pub enum Action {
    /// Call a tool on an MCP server and report the outcome under the PID.
    Call { pid: u64, server: String, tool: String, params: Json },
    /// Sleep for `duration` seconds and then report that the timer has expired.
    Sleep { pid: u64, label: String, duration: u64, metadata: Option<Json> },
    /// Abort the call or the sleep of a PID.
    Abort { pid: u64 },
    /// Report every `secs` seconds that the reminder of a PID is due.
    StartReminder { pid: u64, secs: u64 },
    /// No longer report on the reminder of a PID.
    CancelReminder { pid: u64 },
    /// No longer report on any reminder.
    CancelAllReminders,
    /// Note that the channel of events was closed, and open a new one.
    RestartChannel,
}

/// The mathematical value of an `Action`.
pub enum ActionView {
    Call { pid: u64, server: Seq<char>, tool: Seq<char>, params: JsonView },
    Sleep { pid: u64, label: Seq<char>, duration: u64, metadata: Option<JsonView> },
    Abort { pid: u64 },
    StartReminder { pid: u64, secs: u64 },
    CancelReminder { pid: u64 },
    CancelAllReminders,
    RestartChannel,
}

impl View for Action {
    type V = ActionView;

    open spec fn view(&self) -> ActionView {
        match self {
            Action::Call { pid, server, tool, params } => ActionView::Call {
                pid: *pid,
                server: server@,
                tool: tool@,
                params: params@,
            },
            Action::Sleep { pid, label, duration, metadata } => ActionView::Sleep {
                pid: *pid,
                label: label@,
                duration: *duration,
                metadata: opt_json_view(*metadata),
            },
            Action::Abort { pid } => ActionView::Abort { pid: *pid },
            Action::StartReminder { pid, secs } => ActionView::StartReminder {
                pid: *pid,
                secs: *secs,
            },
            Action::CancelReminder { pid } => ActionView::CancelReminder { pid: *pid },
            Action::CancelAllReminders => ActionView::CancelAllReminders,
            Action::RestartChannel => ActionView::RestartChannel,
        }
    }
}

/// The views of a sequence of actions.
pub open spec fn action_views(s: Seq<Action>) -> Seq<ActionView> {
    s.map_values(|a: Action| a@)
}

/// How a task ended.
#[derive(Debug, PartialEq)]
pub enum TaskResultKind {
    /// A tool call came back, with its output or with the text of the error.
    McpComplete(Result<String, String>),
    /// A timer has expired.
    TimerExpired { label: String, metadata: Option<Json>, elapsed: u64 },
}

/// Report on a task that has ended.
#[derive(Debug, PartialEq)]
pub struct TaskResult {
    pub pid: u64,
    pub kind: TaskResultKind,
}

/// The mathematical value of a `TaskResultKind`.
pub enum TaskResultKindView {
    McpComplete(Result<Seq<char>, Seq<char>>),
    TimerExpired { label: Seq<char>, metadata: Option<JsonView>, elapsed: u64 },
}

/// The mathematical value of a `TaskResult`.
pub struct TaskResultView {
    pub pid: u64,
    pub kind: TaskResultKindView,
}

impl View for TaskResultKind {
    type V = TaskResultKindView;

    open spec fn view(&self) -> TaskResultKindView {
        match self {
            TaskResultKind::McpComplete(Ok(out)) => TaskResultKindView::McpComplete(Ok(out@)),
            TaskResultKind::McpComplete(Err(e)) => TaskResultKindView::McpComplete(Err(e@)),
            TaskResultKind::TimerExpired { label, metadata, elapsed } =>
                TaskResultKindView::TimerExpired {
                label: label@,
                metadata: opt_json_view(*metadata),
                elapsed: *elapsed,
            },
        }
    }
}

impl View for TaskResult {
    type V = TaskResultView;

    open spec fn view(&self) -> TaskResultView {
        TaskResultView { pid: self.pid, kind: self.kind@ }
    }
}

/// The report on a tool call, given its output or the error.
pub open spec fn call_report(
    pid: u64,
    outcome: Result<Seq<char>, DispatchErrorView>,
) -> TaskResultView {
    TaskResultView {
        pid,
        kind: TaskResultKindView::McpComplete(
            match outcome {
                Ok(out) => Ok(out),
                Err(e) => Err("Error: "@ + e.message()),
            },
        ),
    }
}

/// The report on a timer that slept for its whole duration.
pub open spec fn timer_report(
    pid: u64,
    label: Seq<char>,
    metadata: Option<JsonView>,
    duration: u64,
) -> TaskResultView {
    TaskResultView {
        pid,
        kind: TaskResultKindView::TimerExpired { label, metadata, elapsed: duration },
    }
}

impl TaskResult {
    /// The report on a tool call, with an error turned into its text.
    pub fn of_call(pid: u64, outcome: Result<String, DispatchError>) -> (res: TaskResult)
        ensures
            res@ == call_report(pid, text_outcome(outcome)),
    {
        let output = match outcome {
            Ok(out) => Ok(out),
            Err(e) => Err("Error: ".to_owned().concat(e.message().as_str())),
        };
        TaskResult { pid, kind: TaskResultKind::McpComplete(output) }
    }

    /// The report on a timer that slept for its whole duration.
    pub fn of_timer(pid: u64, label: String, metadata: Option<Json>, duration: u64) -> (res:
        TaskResult)
        ensures
            res@ == timer_report(pid, label@, opt_json_view(metadata), duration),
    {
        TaskResult {
            pid,
            kind: TaskResultKind::TimerExpired { label, metadata, elapsed: duration },
        }
    }
}

/// What reaches a client that waits for an event.
#[derive(Debug, PartialEq)]
pub enum WaitEvent {
    /// The wait begins.
    Start,
    /// A task has ended.
    TaskDone(TaskResult),
    /// A reminder has fired.
    Reminder(ReminderEvent),
    /// The channel of events was closed: none can come through it any more.
    Closed,
}

/// A report on a call holds the whole of what it printed, or the word `Error` and the message of
/// the error; a report on a timer holds its label, its metadata and its whole duration.
pub proof fn reports_hold_the_outcome(
    pid: u64,
    outcome: Result<Seq<char>, DispatchErrorView>,
    label: Seq<char>,
    metadata: Option<JsonView>,
    duration: u64,
)
    ensures
        call_report(pid, outcome).pid == pid,
        call_report(pid, outcome).kind matches TaskResultKindView::McpComplete(told) && match (
            outcome,
            told,
        ) {
            (Ok(out), Ok(text)) => text == out,
            (Err(e), Err(text)) => text == "Error: "@ + e.message(),
            _ => false,
        },
        timer_report(pid, label, metadata, duration).pid == pid,
        timer_report(pid, label, metadata, duration).kind == (TaskResultKindView::TimerExpired {
            label,
            metadata,
            elapsed: duration,
        }),
{
}

/// The views of actions and reports show every field.
pub proof fn actions_show_every_field(action: Action, result: TaskResult)
    ensures
        match action {
            Action::Call { pid, server, tool, params } => action@ == (ActionView::Call {
                pid,
                server: server@,
                tool: tool@,
                params: params@,
            }),
            Action::Sleep { pid, label, duration, metadata } => {
                &&& action@ is Sleep
                &&& action@->Sleep_pid == pid
                &&& action@->Sleep_label == label@
                &&& action@->Sleep_duration == duration
                &&& metadata is None <==> action@->Sleep_metadata is None
                &&& metadata matches Some(m) ==> action@->Sleep_metadata == Some(m@)
            },
            Action::Abort { pid } => action@ == (ActionView::Abort { pid }),
            Action::StartReminder { pid, secs } => action@ == (ActionView::StartReminder {
                pid,
                secs,
            }),
            Action::CancelReminder { pid } => action@ == (ActionView::CancelReminder { pid }),
            Action::CancelAllReminders => action@ is CancelAllReminders,
            Action::RestartChannel => action@ is RestartChannel,
        },
        result@.pid == result.pid,
        match result.kind {
            TaskResultKind::McpComplete(Ok(out)) => result@.kind
                == TaskResultKindView::McpComplete(Ok(out@)),
            TaskResultKind::McpComplete(Err(e)) => result@.kind == TaskResultKindView::McpComplete(
                Err(e@),
            ),
            TaskResultKind::TimerExpired { label, metadata, elapsed } => {
                &&& result@.kind is TimerExpired
                &&& result@.kind->label == label@
                &&& result@.kind->elapsed == elapsed
                &&& metadata is None <==> result@.kind->metadata is None
                &&& metadata matches Some(m) ==> result@.kind->metadata == Some(m@)
            },
        },
{
}

} // verus!
