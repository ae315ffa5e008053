//! The mathematical values that the contracts speak of lose nothing of what they stand for: laws
//! that tie each of them to the fields of the value itself.

use vstd::prelude::*;

use crate::error::{DispatchError, DispatchErrorView};
use crate::event::{action_views, Action, TaskResult};
use crate::json::{opt_json_view, opt_text, Json, JsonView};
use crate::mcp_client::{
    count_outcome, json_outcome, parsed_count_view, parsed_view, reply_view, text_outcome, texts,
    unit_outcome, DmcpReply,
};
use crate::mcp_server::{
    args_outcome, call_outcome, decoded_tasks, decoded_text, decoded_view, found_view,
    opt_response, pid_outcome, pids_outcome, ServerStep, ServerStepView,
};
use crate::orchestrator::{def_views, list_outcome, result_views, status_pids};
use crate::rpc::{JsonRpcError, JsonRpcResponse};
use crate::signal::{entry_views, SignalEntry};
use crate::task::{TaskDef, TaskStatus, TaskStatusKind, TaskStatusKindView};
use crate::tools::Tool;

verus! {

/// The view of an optional value is there where the value is, and shows it.
pub proof fn options_show_their_value(text: Option<String>, json: Option<Json>)
    ensures
        text is None <==> opt_text(text) is None,
        text matches Some(s) ==> opt_text(text) == Some(s@),
        json is None <==> opt_json_view(json) is None,
        json matches Some(v) ==> opt_json_view(json) == Some(v@),
{
}

/// The views of a list show its members, each in its place.
pub proof fn lists_show_their_members(
    list: Seq<String>,
    actions: Seq<Action>,
    defs: Seq<TaskDef>,
    results: Seq<TaskResult>,
    statuses: Seq<TaskStatus>,
    entries: Seq<&SignalEntry>,
    i: int,
)
    ensures
        texts(list).len() == list.len(),
        0 <= i < list.len() ==> texts(list)[i] == list[i]@,
        action_views(actions).len() == actions.len(),
        0 <= i < actions.len() ==> action_views(actions)[i] == actions[i]@,
        def_views(defs).len() == defs.len(),
        0 <= i < defs.len() ==> def_views(defs)[i] == defs[i]@,
        result_views(results).len() == results.len(),
        0 <= i < results.len() ==> result_views(results)[i] == results[i]@,
        status_pids(statuses).len() == statuses.len(),
        0 <= i < statuses.len() ==> status_pids(statuses)[i] == statuses[i].pid,
        entry_views(entries).len() == entries.len(),
        0 <= i < entries.len() ==> entry_views(entries)[i] == entries[i]@,
{
}

/// The view of an outcome shows its value or its error.
pub proof fn outcomes_show_value_or_error(
    text: Result<String, DispatchError>,
    json: Result<Json, DispatchError>,
    count: Result<u64, DispatchError>,
    unit: Result<(), DispatchError>,
    list: Result<Vec<u64>, DispatchError>,
    found: Result<(Json, String), DispatchError>,
)
    ensures
        match text {
            Ok(s) => text_outcome(text) == Ok::<Seq<char>, DispatchErrorView>(s@),
            Err(e) => text_outcome(text) == Err::<Seq<char>, DispatchErrorView>(e@),
        },
        match json {
            Ok(v) => json_outcome(json) == Ok::<JsonView, DispatchErrorView>(v@),
            Err(e) => json_outcome(json) == Err::<JsonView, DispatchErrorView>(e@),
        },
        match count {
            Ok(n) => count_outcome(count) == Ok::<u64, DispatchErrorView>(n),
            Err(e) => count_outcome(count) == Err::<u64, DispatchErrorView>(e@),
        },
        match unit {
            Ok(_) => unit_outcome(unit) is Ok,
            Err(e) => unit_outcome(unit) == Err::<(), DispatchErrorView>(e@),
        },
        match list {
            Ok(l) => list_outcome(list) == Ok::<Seq<u64>, DispatchErrorView>(l@),
            Err(e) => list_outcome(list) == Err::<Seq<u64>, DispatchErrorView>(e@),
        },
        match found {
            Ok((v, s)) => found_view(found) == Ok::<(JsonView, Seq<char>), DispatchErrorView>(
                (v@, s@),
            ),
            Err(e) => found_view(found) == Err::<(JsonView, Seq<char>), DispatchErrorView>(e@),
        },
{
}

/// The view of what was decoded or read shows the value or the reason why there is none.
pub proof fn readings_show_value_or_reason(
    reply: Result<DmcpReply, String>,
    json: Result<Json, String>,
    count: Result<u64, String>,
    text: Result<String, String>,
    pids: Option<Result<Vec<u64>, String>>,
    tasks: Result<Vec<TaskDef>, String>,
)
    ensures
        match reply {
            Ok(r) => reply_view(reply) is Ok && {
                let shown = reply_view(reply)->Ok_0;
                shown.success == r.success && shown.stdout == r.stdout@ && shown.stderr
                    == r.stderr@
            },
            Err(e) => reply_view(reply) is Err && reply_view(reply)->Err_0 == e@,
        },
        match json {
            Ok(v) => parsed_view(json) == Ok::<JsonView, Seq<char>>(v@),
            Err(e) => parsed_view(json) == Err::<JsonView, Seq<char>>(e@),
        },
        match count {
            Ok(n) => parsed_count_view(count) == Ok::<u64, Seq<char>>(n),
            Err(e) => parsed_count_view(count) == Err::<u64, Seq<char>>(e@),
        },
        match text {
            Ok(s) => decoded_text(text) == Ok::<Seq<char>, Seq<char>>(s@),
            Err(e) => decoded_text(text) == Err::<Seq<char>, Seq<char>>(e@),
        },
        match pids {
            None => decoded_view(pids) is None,
            Some(Ok(l)) => decoded_view(pids) == Some(Ok::<Seq<u64>, Seq<char>>(l@)),
            Some(Err(e)) => decoded_view(pids) == Some(Err::<Seq<u64>, Seq<char>>(e@)),
        },
        match tasks {
            Ok(l) => decoded_tasks(tasks) is Ok && decoded_tasks(tasks)->Ok_0.len() == l@.len()
                && forall|i: int|
                0 <= i < l@.len() ==> decoded_tasks(tasks)->Ok_0[i] == (#[trigger] l@[i])@,
            Err(e) => decoded_tasks(tasks) is Err && decoded_tasks(tasks)->Err_0 == e@,
        },
{
}

/// The view of a step that may be refused shows what it gave or the response.
pub proof fn refusals_show_the_response(
    pids: Result<Vec<u64>, JsonRpcResponse>,
    pid: Result<u64, JsonRpcResponse>,
    args: Result<Vec<String>, JsonRpcResponse>,
    call: Result<(Tool, Json), JsonRpcResponse>,
    written: Option<JsonRpcResponse>,
)
    ensures
        pids matches Ok(l) ==> pids_outcome(pids) is Ok && pids_outcome(pids)->Ok_0 == l@,
        pids matches Err(r) ==> pids_outcome(pids) is Err && pids_outcome(pids)->Err_0 == r@,
        pid matches Ok(n) ==> pid_outcome(pid) is Ok && pid_outcome(pid)->Ok_0 == n,
        pid matches Err(r) ==> pid_outcome(pid) is Err && pid_outcome(pid)->Err_0 == r@,
        args matches Ok(l) ==> args_outcome(args) is Ok && args_outcome(args)->Ok_0 == texts(l@),
        args matches Err(r) ==> args_outcome(args) is Err && args_outcome(args)->Err_0 == r@,
        call matches Ok((t, v)) ==> call_outcome(call) is Ok && call_outcome(call)->Ok_0 == (t, v@),
        call matches Err(r) ==> call_outcome(call) is Err && call_outcome(call)->Err_0 == r@,
        written is None <==> opt_response(written) is None,
        written matches Some(r) ==> opt_response(written) == Some(r@),
{
}

/// The view of a response shows every field of it, and the view of a step what is done.
pub proof fn responses_show_every_field(
    response: JsonRpcResponse,
    error: JsonRpcError,
    step: ServerStep,
)
    ensures
        response@.jsonrpc == response.jsonrpc@,
        response@.id == response.id@,
        response.result is None <==> response@.result is None,
        response.result matches Some(v) ==> response@.result == Some(v@),
        response.error is None <==> response@.error is None,
        response.error matches Some(e) ==> response@.error == Some(e@),
        error@.code == error.code,
        error@.message == error.message@,
        error.data is None <==> error@.data is None,
        error.data matches Some(v) ==> error@.data == Some(v@),
        match step {
            ServerStep::Skip => step@ is Skip,
            ServerStep::Reply(r) => step@ == ServerStepView::Reply(r@),
            ServerStep::CallTool { id, params } => step@ == (ServerStepView::CallTool {
                id: id@,
                params: params@,
            }),
        },
{
}

/// The view of a log entry and that of a status show every field of them.
pub proof fn entries_and_statuses_show_every_field(entry: SignalEntry, status: TaskStatus)
    ensures
        entry@.clock == entry.timestamp.clock@,
        entry@.rfc3339 == entry.timestamp.rfc3339@,
        entry@.signal.pid == entry.pid,
        entry@.signal.kind == entry.kind,
        entry@.signal.message == entry.message@,
        entry.payload is None <==> entry@.signal.payload is None,
        entry.payload matches Some(v) ==> entry@.signal.payload == Some(v@),
        entry.nonce is None <==> entry@.signal.nonce is None,
        entry.nonce matches Some(n) ==> entry@.signal.nonce == Some(n@),
        status@.pid == status.pid,
        status@.state == status.state,
        match status.kind {
            TaskStatusKind::Mcp { server, tool } => status@.kind == (TaskStatusKindView::Mcp {
                server: server@,
                tool: tool@,
            }),
            TaskStatusKind::Timer { label, fires_in } => status@.kind == (
            TaskStatusKindView::Timer { label: label@, fires_in }),
        },
{
}

/// The view of an error shows its kind and its cause.
pub proof fn errors_show_their_cause(error: DispatchError)
    ensures
        match error {
            DispatchError::DmcpNotFound => error@ is DmcpNotFound,
            DispatchError::DmcpError(s) => error@ == DispatchErrorView::DmcpError(s@),
            DispatchError::TaskNotFound(pid) => error@ == DispatchErrorView::TaskNotFound(pid),
            DispatchError::TaskAlreadyFinished(pid) => error@
                == DispatchErrorView::TaskAlreadyFinished(pid),
            DispatchError::InvalidRequest(s) => error@ == DispatchErrorView::InvalidRequest(s@),
            DispatchError::Json(s) => error@ == DispatchErrorView::Json(s@),
            DispatchError::Io(s) => error@ == DispatchErrorView::Io(s@),
            DispatchError::ChannelClosed => error@ is ChannelClosed,
        },
{
}

} // verus!
