//! The MCP server: which request gets which answer. Reading and writing lines, and waiting for
//! events, is left to the caller.

use vstd::prelude::*;
use vstd::string::*;

use crate::error::{DispatchError, DispatchErrorView};
use crate::json::{
    json_text, opt_text, u64_list, u64_list_error, write_json, Fields, Json, JsonView, NumberView,
};
use crate::mcp_client::{
    count_outcome, index_args, json_outcome, search_args, text_outcome, texts, DmcpClient,
};
use crate::orchestrator::{
    all_known, def_views, dispatched, first_unknown, headed, killed_of, nonce_of, task_at,
    tasks_killed, tasks_waited, timer_dispatched, waited_of, Orchestrator, OrchestratorView,
    DEFAULT_WINDOW_SIZE,
};
use crate::rpc::{
    content_of, error_view, success_view, text_content, JsonRpcRequest, JsonRpcResponse,
    ResponseView,
};
use crate::signal::{window_json, window_text};
use crate::task::{TaskDef, TaskDefView, TaskStatus, TimerDef, TimerDefView};
use crate::text::{decimal, decimal_text, push_decimal, same_text, trim, trimmed};
use crate::tools::{all_definitions, tool_definitions, tool_named, Tool};

verus! {

/// The version of the MCP protocol that is spoken.
pub const MCP_VERSION: &'static str = "2024-11-05";

/// The name of this server.
pub const SERVER_NAME: &'static str = "dispatch";

/// The version of this server.
pub const SERVER_VERSION: &'static str = "0.1.0";

/// JSON-RPC: the line is not a request.
pub const PARSE_ERROR: i64 = -32700;

/// JSON-RPC: there is no such method.
pub const METHOD_NOT_FOUND: i64 = -32601;

/// JSON-RPC: the parameters are not right.
pub const INVALID_PARAMS: i64 = -32602;

/// JSON-RPC: the request was understood and failed.
pub const SERVER_ERROR: i64 = -32000;

// --- Lines and requests ---

/// What the server does with a line.
#[derive(Debug, PartialEq)]
pub enum ServerStep {
    /// Nothing.
    Skip,
    /// Write a response.
    Reply(JsonRpcResponse),
    /// Call a tool and write its response.
    CallTool { id: Json, params: Json },
}

/// The mathematical value of a `ServerStep`.
pub enum ServerStepView {
    Skip,
    Reply(ResponseView),
    CallTool { id: JsonView, params: JsonView },
}

impl View for ServerStep {
    type V = ServerStepView;

    open spec fn view(&self) -> ServerStepView {
        match self {
            ServerStep::Skip => ServerStepView::Skip,
            ServerStep::Reply(r) => ServerStepView::Reply(r@),
            ServerStep::CallTool { id, params } => ServerStepView::CallTool {
                id: id@,
                params: params@,
            },
        }
    }
}

/// The request on a line, if it is not blank.
pub open spec fn line_read(line: Seq<char>) -> Option<Seq<char>> {
    if trimmed(line).len() == 0 {
        None
    } else {
        Some(trimmed(line))
    }
}

/// The request on a line, without the white space around it; nothing where the line is blank.
pub fn read_line(line: &str) -> (res: Option<String>)
    ensures
        opt_text(res) == line_read(line@),
{
    let text = trim(line);
    if text.as_str().is_empty() {
        None
    } else {
        Some(text)
    }
}

/// The result of `initialize`.
pub open spec fn initialize_result() -> JsonView {
    JsonView::Object(
        Seq::empty().push(("protocolVersion"@, JsonView::Str(MCP_VERSION@))).push(
            (
                "capabilities"@,
                JsonView::Object(Seq::empty().push(("tools"@, JsonView::Object(Seq::empty())))),
            ),
        ).push(
            (
                "serverInfo"@,
                JsonView::Object(
                    Seq::empty().push(("name"@, JsonView::Str(SERVER_NAME@))).push(
                        ("version"@, JsonView::Str(SERVER_VERSION@)),
                    ),
                ),
            ),
        ),
    )
}

/// The result of `tools/list`.
pub open spec fn tools_list_result() -> JsonView {
    JsonView::Object(Seq::empty().push(("tools"@, all_definitions())))
}

/// The id with which a request is answered: its own, or `null`.
pub open spec fn answer_id(request: JsonRpcRequest) -> JsonView {
    match request.id {
        Some(id) => id@,
        None => JsonView::Null,
    }
}

/// What the server does with a line, given what a parser makes of it.
pub open spec fn step_for(parsed: Result<JsonRpcRequest, String>) -> ServerStepView {
    match parsed {
        Err(e) => ServerStepView::Reply(
            error_view(JsonView::Null, PARSE_ERROR, "Parse error: "@ + e@),
        ),
        Ok(request) => {
            let id = answer_id(request);
            if request.method@ == "initialize"@ {
                ServerStepView::Reply(success_view(id, initialize_result()))
            } else if request.method@ == "notifications/initialized"@ {
                ServerStepView::Skip
            } else if request.method@ == "tools/list"@ {
                ServerStepView::Reply(success_view(id, tools_list_result()))
            } else if request.method@ == "tools/call"@ {
                ServerStepView::CallTool { id, params: request.params@ }
            } else if request.method@ == "ping"@ {
                ServerStepView::Reply(success_view(id, JsonView::Object(Seq::empty())))
            } else if request.id is None {
                ServerStepView::Skip
            } else {
                ServerStepView::Reply(error_view(id, METHOD_NOT_FOUND, "Method not found"@))
            }
        },
    }
}

/// Answers `initialize`.
pub fn handle_initialize(id: Json) -> (res: JsonRpcResponse)
    ensures
        res@ == success_view(id@, initialize_result()),
{
    let info = Fields::new().with("name", Json::text(SERVER_NAME)).with(
        "version",
        Json::text(SERVER_VERSION),
    ).object();
    let capabilities = Fields::new().with("tools", Fields::new().object()).object();
    let result = Fields::new().with("protocolVersion", Json::text(MCP_VERSION)).with(
        "capabilities",
        capabilities,
    ).with("serverInfo", info).object();
    JsonRpcResponse::success(id, result)
}

/// Answers `tools/list`.
pub fn handle_tools_list(id: Json) -> (res: JsonRpcResponse)
    ensures
        res@ == success_view(id@, tools_list_result()),
{
    JsonRpcResponse::success(id, Fields::new().with("tools", tool_definitions()).object())
}

/// One turn of the server, given what a parser makes of a line.
pub fn serve(parsed: Result<JsonRpcRequest, String>) -> (res: ServerStep)
    ensures
        res@ == step_for(parsed),
{
    match parsed {
        Err(e) => {
            let message = "Parse error: ".to_owned().concat(e.as_str());
            ServerStep::Reply(JsonRpcResponse::error(Json::Null, PARSE_ERROR, message.as_str()))
        },
        Ok(request) => {
            let notification = request.id.is_none();
            let id = match request.id {
                Some(id) => id,
                None => Json::Null,
            };
            let method = request.method;
            if same_text(method.as_str(), "initialize") {
                ServerStep::Reply(handle_initialize(id))
            } else if same_text(method.as_str(), "notifications/initialized") {
                ServerStep::Skip
            } else if same_text(method.as_str(), "tools/list") {
                ServerStep::Reply(handle_tools_list(id))
            } else if same_text(method.as_str(), "tools/call") {
                ServerStep::CallTool { id, params: request.params }
            } else if same_text(method.as_str(), "ping") {
                ServerStep::Reply(JsonRpcResponse::success(id, Fields::new().object()))
            } else if notification {
                ServerStep::Skip
            } else {
                ServerStep::Reply(JsonRpcResponse::error(id, METHOD_NOT_FOUND, "Method not found"))
            }
        },
    }
}

/// A response holds a result or an error, and never both.
pub open spec fn well_shaped(response: ResponseView) -> bool {
    &&& response.jsonrpc == "2.0"@
    &&& response.result is Some <==> response.error is None
}

/// What is not a request is answered with a parse error under no id. A request is answered under
/// its own id, with a result or an error, and what has no id and no known method is not answered.
pub proof fn requests_are_answered_under_their_id(parsed: Result<JsonRpcRequest, String>)
    ensures
        match (step_for(parsed), parsed) {
            (ServerStepView::Reply(r), Ok(request)) => r.id == answer_id(request) && well_shaped(r),
            (ServerStepView::Reply(r), Err(_)) => {
                &&& r.id is Null
                &&& well_shaped(r)
                &&& r.error matches Some(e) && e.code == PARSE_ERROR
            },
            (ServerStepView::CallTool { id, .. }, Ok(request)) => id == answer_id(request),
            (ServerStepView::Skip, Ok(request)) => request.id is None || request.method@
                == "notifications/initialized"@,
            _ => false,
        },
{
}

// --- Tool calls ---

/// The name of the tool that a call asks for.
pub open spec fn called_name(params: JsonView) -> Seq<char> {
    match params.str_field("name"@) {
        Some(name) => name,
        None => Seq::empty(),
    }
}

/// The arguments of a tool call.
pub open spec fn called_arguments(params: JsonView) -> JsonView {
    match params.field("arguments"@) {
        Some(arguments) => arguments,
        None => JsonView::Object(Seq::empty()),
    }
}

/// The view of a tool call that was read, or of a response.
pub open spec fn call_outcome(res: Result<(Tool, Json), JsonRpcResponse>) -> Result<
    (Tool, JsonView),
    ResponseView,
> {
    match res {
        Ok((tool, arguments)) => Ok((tool, arguments@)),
        Err(response) => Err(response@),
    }
}

/// Whether a tool call was read as this tool and these arguments, or is refused with a response.
pub open spec fn call_read(
    id: JsonView,
    params: JsonView,
    outcome: Result<(Tool, JsonView), ResponseView>,
) -> bool {
    match outcome {
        Ok((tool, arguments)) => {
            &&& tool_named(called_name(params)) == Some(tool)
            &&& arguments == called_arguments(params)
        },
        Err(response) => {
            &&& tool_named(called_name(params)) is None
            &&& response == error_view(
                id,
                INVALID_PARAMS,
                "Unknown tool: "@ + called_name(params),
            )
        },
    }
}

/// Reads a tool call: the tool and its arguments, or the answer where there is no such tool.
pub fn handle_tools_call(id: &Json, params: &Json) -> (res: Result<(Tool, Json), JsonRpcResponse>)
    ensures
        call_read(id@, params@, call_outcome(res)),
{
    let name = match params.str_field("name") {
        Some(name) => name,
        None => String::new(),
    };
    match Tool::from_name(name.as_str()) {
        Some(tool) => {
            let arguments = match params.get("arguments") {
                Some(v) => v.clone(),
                None => Fields::new().object(),
            };
            Ok((tool, arguments))
        },
        None => {
            let message = "Unknown tool: ".to_owned().concat(name.as_str());
            Err(JsonRpcResponse::error(id.clone(), INVALID_PARAMS, message.as_str()))
        },
    }
}

/// A list of numbers as JSON.
pub open spec fn numbers(list: Seq<u64>) -> JsonView {
    JsonView::Array(list.map_values(|n: u64| JsonView::Number(NumberView::PosInt(n))))
}

/// A list of numbers as JSON.
fn number_array(list: &Vec<u64>) -> (res: Json)
    ensures
        res@ == numbers(list@),
{
    let mut items: Vec<Json> = Vec::new();
    let mut i: usize = 0;
    while i < list.len()
        invariant
            i <= list@.len(),
            items@.len() == i,
            forall|k: int|
                0 <= k < i ==> (#[trigger] items@[k])@ == JsonView::Number(
                    NumberView::PosInt(list@[k]),
                ),
        decreases list@.len() - i,
    {
        items.push(Json::number(list[i]));
        i = i + 1;
    }
    let res = Json::Array(items);
    assert(res@->Array_0 =~= numbers(list@)->Array_0);
    res
}

/// A result with a text for the reader and one more entry.
pub open spec fn result_with(text: Seq<char>, key: Seq<char>, value: JsonView) -> JsonView {
    JsonView::Object(Seq::empty().push(("content"@, text_content(text))).push((key, value)))
}

/// A result with a text for the reader and one more entry.
fn make_result(text: &str, key: &str, value: Json) -> (res: Json)
    ensures
        res@ == result_with(text@, key@, value@),
{
    Fields::new().with("content", content_of(text)).with(key, value).object()
}

/// The answer to a call that ends with a wake-up: what the client reads and one more entry, or
/// the error that ended the wait.
pub open spec fn wake_reply_view(
    id: JsonView,
    key: Seq<char>,
    value: JsonView,
    woken: Result<Seq<char>, DispatchErrorView>,
    failure: Seq<char>,
) -> ResponseView {
    match woken {
        Ok(text) => success_view(id, result_with(text, key, value)),
        Err(e) => error_view(id, SERVER_ERROR, failure + e.message()),
    }
}

/// The answer to a call that ends with a wake-up.
fn wake_reply(
    id: Json,
    key: &str,
    value: Json,
    woken: Result<String, DispatchError>,
    failure: &str,
) -> (res: JsonRpcResponse)
    ensures
        res@ == wake_reply_view(id@, key@, value@, text_outcome(woken), failure@),
{
    match woken {
        Ok(text) => JsonRpcResponse::success(id, make_result(text.as_str(), key, value)),
        Err(e) => {
            let message = failure.to_owned().concat(e.message().as_str());
            JsonRpcResponse::error(id, SERVER_ERROR, message.as_str())
        },
    }
}

/// The list of tasks among the arguments of `dispatch`.
pub open spec fn tasks_given(arguments: JsonView) -> Option<JsonView> {
    arguments.field("tasks"@)
}

/// The list of tasks among the arguments of `dispatch`.
pub fn tasks_argument(arguments: &Json) -> (res: Option<&Json>)
    ensures
        match res {
            Some(v) => tasks_given(arguments@) == Some(v@),
            None => tasks_given(arguments@) is None,
        },
{
    arguments.get("tasks")
}

/// The view of a decoded list of tasks.
pub open spec fn decoded_tasks(decoded: Result<Vec<TaskDef>, String>) -> Result<
    Seq<TaskDefView>,
    Seq<char>,
> {
    match decoded {
        Ok(tasks) => Ok(def_views(tasks@)),
        Err(e) => Err(e@),
    }
}

/// Why a `dispatch` call is refused.
pub open spec fn dispatch_refusal(
    arguments: JsonView,
    decoded: Result<Seq<TaskDefView>, Seq<char>>,
) -> Option<Seq<char>> {
    if arguments.field("tasks"@) is None {
        Some("Missing 'tasks' parameter"@)
    } else {
        match decoded {
            Err(e) => Some("Invalid tasks: "@ + e),
            Ok(tasks) => if tasks.len() == 0 {
                Some("Empty task list"@)
            } else {
                None
            },
        }
    }
}

/// Whether a `dispatch` call with a decoded list of tasks took the orchestrator from `a` to `b`.
/// It goes on to wait for an event, or is refused with a response.
pub open spec fn dispatch_handled(
    a: OrchestratorView,
    b: OrchestratorView,
    id: JsonView,
    arguments: JsonView,
    decoded: Result<Seq<TaskDefView>, Seq<char>>,
    outcome: Result<Seq<u64>, ResponseView>,
) -> bool {
    match outcome {
        Ok(pids) => {
            &&& dispatch_refusal(arguments, decoded) is None
            &&& dispatched(a, b, decoded->Ok_0, pids)
            &&& headed(
                a,
                b,
                arguments.str_field("strategy"@),
                arguments.str_field("session_id"@),
            )
        },
        Err(response) => {
            &&& dispatch_refusal(arguments, decoded) matches Some(why) && response == error_view(
                id,
                INVALID_PARAMS,
                why,
            )
            &&& b == a
        },
    }
}

/// Starts the tasks of a `dispatch` call, given what a decoder makes of its list of tasks.
/// Returns their PIDs, or the answer where the call is refused.
pub fn handle_dispatch(
    orchestrator: &mut Orchestrator,
    id: &Json,
    arguments: &Json,
    decoded: Result<Vec<TaskDef>, String>,
) -> (res: Result<Vec<u64>, JsonRpcResponse>)
    requires
        old(orchestrator)@.wf(),
    ensures
        final(orchestrator)@.wf(),
        dispatch_handled(
            old(orchestrator)@,
            final(orchestrator)@,
            id@,
            arguments@,
            decoded_tasks(decoded),
            pids_outcome(res),
        ),
{
    if arguments.get("tasks").is_none() {
        return Err(
            JsonRpcResponse::error(id.clone(), INVALID_PARAMS, "Missing 'tasks' parameter"),
        );
    }
    let tasks = match decoded {
        Ok(tasks) => tasks,
        Err(e) => {
            let message = "Invalid tasks: ".to_owned().concat(e.as_str());
            return Err(JsonRpcResponse::error(id.clone(), INVALID_PARAMS, message.as_str()));
        },
    };
    if tasks.len() == 0 {
        return Err(JsonRpcResponse::error(id.clone(), INVALID_PARAMS, "Empty task list"));
    }
    let strategy = arguments.str_field("strategy");
    let session_id = arguments.str_field("session_id");
    Ok(orchestrator.dispatch(tasks, strategy, session_id))
}

/// The answer to `dispatch` when the client wakes.
pub open spec fn dispatch_reply_view(
    id: JsonView,
    pids: Seq<u64>,
    woken: Result<Seq<char>, DispatchErrorView>,
) -> ResponseView {
    wake_reply_view(id, "pids"@, numbers(pids), woken, "Dispatch error: "@)
}

/// The answer to `dispatch` when the client wakes.
pub fn dispatch_reply(id: Json, pids: &Vec<u64>, woken: Result<String, DispatchError>) -> (res:
    JsonRpcResponse)
    ensures
        res@ == dispatch_reply_view(id@, pids@, text_outcome(woken)),
{
    wake_reply(id, "pids", number_array(pids), woken, "Dispatch error: ")
}

/// What a decoder makes of the list of PIDs among the arguments; `None` where there is none.
pub open spec fn pids_decoded(arguments: JsonView) -> Option<Result<Seq<u64>, Seq<char>>> {
    match arguments.field("pids"@) {
        None => None,
        Some(v) => Some(
            match v.as_u64_list() {
                Some(list) => Ok(list),
                None => Err(u64_list_error(v)),
            },
        ),
    }
}

/// The view of a decoded list of PIDs.
pub open spec fn decoded_view(decoded: Option<Result<Vec<u64>, String>>) -> Option<
    Result<Seq<u64>, Seq<char>>,
> {
    match decoded {
        None => None,
        Some(Ok(list)) => Some(Ok(list@)),
        Some(Err(e)) => Some(Err(e@)),
    }
}

/// Why a list of PIDs is refused.
pub open spec fn pids_refusal(decoded: Option<Result<Seq<u64>, Seq<char>>>) -> Option<Seq<char>> {
    match decoded {
        None => Some("Missing 'pids' parameter"@),
        Some(Err(e)) => Some("Invalid pids: "@ + e),
        Some(Ok(_)) => None,
    }
}

/// Decodes the list of PIDs among the arguments.
pub fn decode_pids(arguments: &Json) -> (res: Option<Result<Vec<u64>, String>>)
    ensures
        decoded_view(res) == pids_decoded(arguments@),
{
    match arguments.get("pids") {
        None => None,
        Some(v) => Some(u64_list(v)),
    }
}

/// The PIDs, or the answer that refuses them.
pub open spec fn pids_checked(id: JsonView, decoded: Option<Result<Seq<u64>, Seq<char>>>) -> Result<
    Seq<u64>,
    ResponseView,
> {
    match decoded {
        Some(Ok(pids)) => Ok(pids),
        _ => Err(error_view(id, INVALID_PARAMS, pids_refusal(decoded)->0)),
    }
}

/// The PIDs, or the answer that refuses them.
pub fn check_pids(id: &Json, decoded: Option<Result<Vec<u64>, String>>) -> (res: Result<
    Vec<u64>,
    JsonRpcResponse,
>)
    ensures
        pids_outcome(res) == pids_checked(id@, decoded_view(decoded)),
{
    match decoded {
        None => Err(JsonRpcResponse::error(id.clone(), INVALID_PARAMS, "Missing 'pids' parameter")),
        Some(Err(e)) => {
            let message = "Invalid pids: ".to_owned().concat(e.as_str());
            Err(JsonRpcResponse::error(id.clone(), INVALID_PARAMS, message.as_str()))
        },
        Some(Ok(pids)) => Ok(pids),
    }
}

/// Whether a `kill` call with a decoded list of PIDs took the orchestrator from `a` to `b` and
/// is answered with `response`.
pub open spec fn kill_handled(
    a: OrchestratorView,
    b: OrchestratorView,
    id: JsonView,
    decoded: Option<Result<Seq<u64>, Seq<char>>>,
    response: ResponseView,
) -> bool {
    match decoded {
        Some(Ok(pids)) => if all_known(a.tasks, pids) {
            let killed = killed_of(a.tasks, pids);
            &&& tasks_killed(a, b, killed)
            &&& response == success_view(
                id,
                result_with(
                    window_text(b.entries, DEFAULT_WINDOW_SIZE as nat),
                    "killed"@,
                    numbers(killed),
                ),
            )
        } else {
            exists|k: int| #[trigger]
                first_unknown(a.tasks, pids, k) && tasks_killed(
                    a,
                    b,
                    killed_of(a.tasks, pids.take(k)),
                ) && response == error_view(
                    id,
                    SERVER_ERROR,
                    DispatchErrorView::TaskNotFound(pids[k]).message(),
                )
        },
        _ => {
            &&& b == a
            &&& response == error_view(id, INVALID_PARAMS, pids_refusal(decoded)->0)
        },
    }
}

/// Carries out a `kill` call with a decoded list of PIDs.
pub fn kill_decoded(
    orchestrator: &mut Orchestrator,
    id: Json,
    decoded: Option<Result<Vec<u64>, String>>,
) -> (res: JsonRpcResponse)
    requires
        old(orchestrator)@.wf(),
    ensures
        final(orchestrator)@.wf(),
        kill_handled(
            old(orchestrator)@,
            final(orchestrator)@,
            id@,
            decoded_view(decoded),
            res@,
        ),
{
    let pids = match check_pids(&id, decoded) {
        Ok(pids) => pids,
        Err(response) => return response,
    };
    match orchestrator.kill(pids.as_slice()) {
        Ok(killed) => {
            let window = orchestrator.log_text(DEFAULT_WINDOW_SIZE);
            JsonRpcResponse::success(
                id,
                make_result(window.as_str(), "killed", number_array(&killed)),
            )
        },
        Err(e) => JsonRpcResponse::error(id, SERVER_ERROR, e.message().as_str()),
    }
}

/// Carries out a `kill` call.
pub fn handle_kill(orchestrator: &mut Orchestrator, id: Json, arguments: &Json) -> (res:
    JsonRpcResponse)
    requires
        old(orchestrator)@.wf(),
    ensures
        final(orchestrator)@.wf(),
        kill_handled(
            old(orchestrator)@,
            final(orchestrator)@,
            id@,
            pids_decoded(arguments@),
            res@,
        ),
{
    kill_decoded(orchestrator, id, decode_pids(arguments))
}

/// Whether a `wait` call with a decoded list of PIDs took the orchestrator from `a` to `b`. It
/// goes on to wait for an event, or is refused with a response.
pub open spec fn wait_handled(
    a: OrchestratorView,
    b: OrchestratorView,
    id: JsonView,
    decoded: Option<Result<Seq<u64>, Seq<char>>>,
    outcome: Result<Seq<u64>, ResponseView>,
) -> bool {
    match decoded {
        Some(Ok(pids)) => if all_known(a.tasks, pids) {
            &&& tasks_waited(a, b, waited_of(a.tasks, pids))
            &&& outcome == Ok::<Seq<u64>, ResponseView>(pids)
        } else {
            exists|k: int| #[trigger]
                first_unknown(a.tasks, pids, k) && tasks_waited(
                    a,
                    b,
                    waited_of(a.tasks, pids.take(k)),
                ) && outcome == Err::<Seq<u64>, ResponseView>(
                    error_view(
                        id,
                        SERVER_ERROR,
                        DispatchErrorView::TaskNotFound(pids[k]).message(),
                    ),
                )
        },
        _ => {
            &&& b == a
            &&& outcome == Err::<Seq<u64>, ResponseView>(
                error_view(id, INVALID_PARAMS, pids_refusal(decoded)->0),
            )
        },
    }
}

/// The view of a list of PIDs or a response.
pub open spec fn pids_outcome(res: Result<Vec<u64>, JsonRpcResponse>) -> Result<
    Seq<u64>,
    ResponseView,
> {
    match res {
        Ok(pids) => Ok(pids@),
        Err(response) => Err(response@),
    }
}

/// Carries out the first part of a `wait` call with a decoded list of PIDs: the running tasks
/// among them are marked as waited for. Returns the PIDs, or the answer where the call is
/// refused.
pub fn wait_decoded(
    orchestrator: &mut Orchestrator,
    id: &Json,
    decoded: Option<Result<Vec<u64>, String>>,
) -> (res: Result<Vec<u64>, JsonRpcResponse>)
    requires
        old(orchestrator)@.wf(),
    ensures
        final(orchestrator)@.wf(),
        wait_handled(
            old(orchestrator)@,
            final(orchestrator)@,
            id@,
            decoded_view(decoded),
            pids_outcome(res),
        ),
{
    let pids = match check_pids(id, decoded) {
        Ok(pids) => pids,
        Err(response) => return Err(response),
    };
    match orchestrator.wait(pids.as_slice()) {
        Ok(_) => Ok(pids),
        Err(e) => Err(JsonRpcResponse::error(id.clone(), SERVER_ERROR, e.message().as_str())),
    }
}

/// Carries out the first part of a `wait` call.
pub fn handle_wait(orchestrator: &mut Orchestrator, id: &Json, arguments: &Json) -> (res: Result<
    Vec<u64>,
    JsonRpcResponse,
>)
    requires
        old(orchestrator)@.wf(),
    ensures
        final(orchestrator)@.wf(),
        wait_handled(
            old(orchestrator)@,
            final(orchestrator)@,
            id@,
            pids_decoded(arguments@),
            pids_outcome(res),
        ),
{
    wait_decoded(orchestrator, id, decode_pids(arguments))
}

/// The answer to `wait` when the client wakes.
pub open spec fn wait_reply_view(
    id: JsonView,
    pids: Seq<u64>,
    woken: Result<Seq<char>, DispatchErrorView>,
) -> ResponseView {
    wake_reply_view(id, "waited"@, numbers(pids), woken, "Dispatch error: "@)
}

/// The answer to `wait` when the client wakes.
pub fn wait_reply(id: Json, pids: &Vec<u64>, woken: Result<String, DispatchError>) -> (res:
    JsonRpcResponse)
    ensures
        res@ == wait_reply_view(id@, pids@, text_outcome(woken)),
{
    wake_reply(id, "waited", number_array(pids), woken, "Dispatch error: ")
}

/// A list of statuses as JSON.
pub open spec fn statuses_json(statuses: Seq<TaskStatus>) -> JsonView {
    JsonView::Array(statuses.map_values(|s: TaskStatus| s@.json()))
}

/// The answer to `status`, given the statuses and the text that shows them to the reader.
pub open spec fn status_view(
    id: JsonView,
    statuses: Seq<TaskStatus>,
    text: Seq<char>,
) -> ResponseView {
    success_view(id, result_with(text, "tasks"@, statuses_json(statuses)))
}

/// Answers `status`, given the statuses and the text that shows them to the reader.
pub fn handle_status(id: Json, statuses: &Vec<TaskStatus>, text: &str) -> (res: JsonRpcResponse)
    ensures
        res@ == status_view(id@, statuses@, text@),
{
    let mut items: Vec<Json> = Vec::new();
    let mut i: usize = 0;
    while i < statuses.len()
        invariant
            i <= statuses@.len(),
            items@.len() == i,
            forall|k: int| 0 <= k < i ==> (#[trigger] items@[k])@ == statuses@[k]@.json(),
        decreases statuses@.len() - i,
    {
        items.push(statuses[i].json());
        i = i + 1;
    }
    let tasks = Json::Array(items);
    assert(tasks@->Array_0 =~= statuses_json(statuses@)->Array_0);
    JsonRpcResponse::success(id, make_result(text, "tasks", tasks))
}

/// How many entries a `log` call asks for.
pub open spec fn log_count(arguments: JsonView) -> nat {
    let count = match arguments.u64_field("count"@) {
        Some(n) => n,
        None => 20,
    };
    (count as usize) as nat
}

/// The answer to `log`.
pub open spec fn log_view(
    state: OrchestratorView,
    id: JsonView,
    arguments: JsonView,
) -> ResponseView {
    success_view(
        id,
        result_with(
            window_text(state.entries, log_count(arguments)),
            "entries"@,
            window_json(state.entries, log_count(arguments)),
        ),
    )
}

/// Answers `log`.
pub fn handle_log(orchestrator: &Orchestrator, id: Json, arguments: &Json) -> (res:
    JsonRpcResponse)
    ensures
        res@ == log_view(orchestrator@, id@, arguments@),
{
    let count: u64 = match arguments.u64_field("count") {
        Some(n) => n,
        None => 20,
    };
    let count: usize = count as usize;
    let text = orchestrator.log_text(count);
    let entries = orchestrator.log_json(count);
    JsonRpcResponse::success(id, make_result(text.as_str(), "entries", entries))
}

/// The stored output of a task.
pub open spec fn output_of(state: OrchestratorView, pid: u64) -> Option<Seq<char>> {
    match task_at(state.tasks, pid) {
        Some(task) => task.output,
        None => None,
    }
}

/// What `get_output` tells the reader of one PID.
pub open spec fn output_text(state: OrchestratorView, pid: u64) -> Seq<char> {
    let head = "PID "@ + decimal(pid as nat);
    match output_of(state, pid) {
        Some(out) => match nonce_of(task_at(state.tasks, pid)) {
            Some(h) => head + " [hash="@ + h + "]"@ + "\n"@ + out,
            None => head + "\n"@ + out,
        },
        None => head
            + ": no stored output (task failed or PID unknown \u{2014} check signal log)"@,
    }
}

/// What `get_output` tells a program of one PID.
pub open spec fn output_json(state: OrchestratorView, pid: u64) -> JsonView {
    match output_of(state, pid) {
        Some(out) => JsonView::Object(
            Seq::empty().push(
                (
                    "hash"@,
                    match nonce_of(task_at(state.tasks, pid)) {
                        Some(h) => JsonView::Str(h),
                        None => JsonView::Null,
                    },
                ),
            ).push(("output"@, JsonView::Str(out))),
        ),
        None => JsonView::Null,
    }
}

/// What `get_output` tells the reader of all PIDs, with a rule between them.
pub open spec fn outputs_text(state: OrchestratorView, pids: Seq<u64>) -> Seq<char>
    decreases pids.len(),
{
    if pids.len() == 0 {
        Seq::empty()
    } else if pids.len() == 1 {
        output_text(state, pids.last())
    } else {
        outputs_text(state, pids.drop_last()) + "\n\n---\n\n"@ + output_text(state, pids.last())
    }
}

/// What `get_output` tells a program of all PIDs.
pub open spec fn outputs_fields(state: OrchestratorView, pids: Seq<u64>) -> Seq<
    (Seq<char>, JsonView),
> {
    pids.map_values(|pid: u64| (decimal(pid as nat), output_json(state, pid)))
}

/// The answer to `get_output` for a decoded list of PIDs.
pub open spec fn outputs_view(
    state: OrchestratorView,
    id: JsonView,
    decoded: Option<Result<Seq<u64>, Seq<char>>>,
) -> ResponseView {
    match decoded {
        Some(Ok(pids)) => if pids.len() == 0 {
            error_view(id, INVALID_PARAMS, "Empty pids list"@)
        } else {
            success_view(
                id,
                result_with(
                    outputs_text(state, pids),
                    "outputs"@,
                    JsonView::Object(outputs_fields(state, pids)),
                ),
            )
        },
        _ => error_view(id, INVALID_PARAMS, pids_refusal(decoded)->0),
    }
}

/// What `get_output` tells of one PID: to the reader, and to a program.
fn describe_output(orchestrator: &Orchestrator, pid: u64) -> (res: (String, Json))
    ensures
        res.0@ == output_text(orchestrator@, pid),
        res.1@ == output_json(orchestrator@, pid),
{
    let mut text = "PID ".to_owned();
    push_decimal(&mut text, pid);
    match orchestrator.get_output(pid) {
        Some(out) => {
            let hash = match orchestrator.get_nonce(pid) {
                Some(h) => {
                    text.append(" [hash=");
                    text.append(h.as_str());
                    text.append("]");
                    Json::Str(h)
                },
                None => Json::Null,
            };
            text.append("\n");
            text.append(out.as_str());
            (text, Fields::new().with("hash", hash).with("output", Json::Str(out)).object())
        },
        None => {
            text.append(
                ": no stored output (task failed or PID unknown \u{2014} check signal log)",
            );
            (text, Json::Null)
        },
    }
}

/// Answers `get_output` for a decoded list of PIDs.
pub fn outputs_decoded(
    orchestrator: &Orchestrator,
    id: Json,
    decoded: Option<Result<Vec<u64>, String>>,
) -> (res: JsonRpcResponse)
    ensures
        res@ == outputs_view(orchestrator@, id@, decoded_view(decoded)),
{
    let pids = match check_pids(&id, decoded) {
        Ok(pids) => pids,
        Err(response) => return response,
    };
    if pids.len() == 0 {
        return JsonRpcResponse::error(id, INVALID_PARAMS, "Empty pids list");
    }
    let mut text = String::new();
    let mut outputs = Fields::new();
    let mut i: usize = 0;
    while i < pids.len()
        invariant
            i <= pids@.len(),
            text@ == outputs_text(orchestrator@, pids@.take(i as int)),
            outputs@ == outputs_fields(orchestrator@, pids@.take(i as int)),
        decreases pids@.len() - i,
    {
        let pid = pids[i];
        let ghost more = pids@.take(i + 1);
        assert(more.drop_last() =~= pids@.take(i as int));
        let (part, value) = describe_output(orchestrator, pid);
        if i > 0 {
            text.append("\n\n---\n\n");
        }
        text.append(part.as_str());
        outputs = outputs.with(decimal_text(pid).as_str(), value);
        i = i + 1;
    }
    assert(pids@.take(i as int) =~= pids@);
    JsonRpcResponse::success(id, make_result(text.as_str(), "outputs", outputs.object()))
}

/// Answers `get_output`.
pub fn handle_get_output(orchestrator: &Orchestrator, id: Json, arguments: &Json) -> (res:
    JsonRpcResponse)
    ensures
        res@ == outputs_view(orchestrator@, id@, pids_decoded(arguments@)),
{
    outputs_decoded(orchestrator, id, decode_pids(arguments))
}

/// Why the arguments of `timer` are refused.
pub open spec fn timer_refusal(arguments: JsonView) -> Option<Seq<char>> {
    if arguments.str_field("label"@) is None {
        Some("Missing 'label' parameter"@)
    } else if arguments.u64_field("duration"@) is None {
        Some("Missing or invalid 'duration' parameter"@)
    } else {
        None
    }
}

/// The timer that the arguments of `timer` ask for.
pub open spec fn timer_asked(arguments: JsonView) -> TimerDefView {
    TimerDefView {
        label: arguments.str_field("label"@)->0,
        duration: arguments.u64_field("duration"@)->0,
        metadata: arguments.field("metadata"@),
    }
}

/// The view of a PID or a response.
pub open spec fn pid_outcome(res: Result<u64, JsonRpcResponse>) -> Result<u64, ResponseView> {
    match res {
        Ok(pid) => Ok(pid),
        Err(response) => Err(response@),
    }
}

/// Whether a `timer` call took the orchestrator from `a` to `b`. It goes on to wait for an event,
/// or is refused with a response.
pub open spec fn timer_handled(
    a: OrchestratorView,
    b: OrchestratorView,
    id: JsonView,
    arguments: JsonView,
    outcome: Result<u64, ResponseView>,
) -> bool {
    match outcome {
        Ok(pid) => {
            &&& timer_refusal(arguments) is None
            &&& timer_dispatched(a, b, timer_asked(arguments), pid)
        },
        Err(response) => {
            &&& timer_refusal(arguments) matches Some(why) && response == error_view(
                id,
                INVALID_PARAMS,
                why,
            )
            &&& b == a
        },
    }
}

/// Starts the timer of a `timer` call. Returns its PID, or the answer where the call is refused.
pub fn handle_timer(orchestrator: &mut Orchestrator, id: &Json, arguments: &Json) -> (res: Result<
    u64,
    JsonRpcResponse,
>)
    requires
        old(orchestrator)@.wf(),
    ensures
        final(orchestrator)@.wf(),
        timer_handled(
            old(orchestrator)@,
            final(orchestrator)@,
            id@,
            arguments@,
            pid_outcome(res),
        ),
{
    let label = match arguments.str_field("label") {
        Some(l) => l,
        None => {
            return Err(
                JsonRpcResponse::error(id.clone(), INVALID_PARAMS, "Missing 'label' parameter"),
            );
        },
    };
    let duration: u64 = match arguments.u64_field("duration") {
        Some(d) => d,
        None => {
            return Err(
                JsonRpcResponse::error(
                    id.clone(),
                    INVALID_PARAMS,
                    "Missing or invalid 'duration' parameter",
                ),
            );
        },
    };
    let metadata = match arguments.get("metadata") {
        Some(m) => Some(m.clone()),
        None => None,
    };
    let def = TimerDef { label, duration, metadata };
    Ok(orchestrator.dispatch_timer(def))
}

/// The answer to `timer` when the client wakes.
pub open spec fn timer_reply_view(
    id: JsonView,
    pid: u64,
    woken: Result<Seq<char>, DispatchErrorView>,
) -> ResponseView {
    wake_reply_view(
        id,
        "pid"@,
        JsonView::Number(NumberView::PosInt(pid)),
        woken,
        "Timer error: "@,
    )
}

/// The answer to `timer` when the client wakes.
pub fn timer_reply(id: Json, pid: u64, woken: Result<String, DispatchError>) -> (res:
    JsonRpcResponse)
    ensures
        res@ == timer_reply_view(id@, pid, text_outcome(woken)),
{
    wake_reply(id, "pid", Json::number(pid), woken, "Timer error: ")
}

// --- Calls that go to dmcp ---

/// The view of a decoded text.
pub open spec fn decoded_text(decoded: Result<String, String>) -> Result<Seq<char>, Seq<char>> {
    match decoded {
        Ok(text) => Ok(text@),
        Err(e) => Err(e@),
    }
}

/// Why a required argument that a decoder turns into a text is refused.
pub open spec fn decoding_refusal(
    arguments: JsonView,
    key: Seq<char>,
    decoded: Result<Seq<char>, Seq<char>>,
) -> Option<Seq<char>> {
    if arguments.field(key) is None {
        Some("Missing '"@ + key + "' parameter"@)
    } else {
        match decoded {
            Err(e) => Some("Invalid "@ + key + ": "@ + e),
            Ok(_) => None,
        }
    }
}

/// Why the arguments of a vector search are refused.
pub open spec fn search_refusal(
    arguments: JsonView,
    key: Seq<char>,
    vectors: Result<Seq<char>, Seq<char>>,
    min_score: Option<Seq<char>>,
) -> Option<Seq<char>> {
    if decoding_refusal(arguments, key, vectors) is Some {
        decoding_refusal(arguments, key, vectors)
    } else if arguments.u64_field("top_k"@) is None {
        Some("Missing or invalid 'top_k' parameter"@)
    } else if min_score is None {
        Some("Missing or invalid 'min_score' parameter"@)
    } else {
        None
    }
}

/// The text of a required argument, given what a decoder makes of it, or the reason to refuse it.
fn check_decoded(arguments: &Json, key: &str, decoded: Result<String, String>) -> (res: Result<
    String,
    String,
>)
    ensures
        match res {
            Ok(text) => {
                &&& decoding_refusal(arguments@, key@, decoded_text(decoded)) is None
                &&& decoded_text(decoded) == Ok::<Seq<char>, Seq<char>>(text@)
            },
            Err(why) => decoding_refusal(arguments@, key@, decoded_text(decoded)) == Some(why@),
        },
{
    if arguments.get(key).is_none() {
        return Err("Missing '".to_owned().concat(key).concat("' parameter"));
    }
    match decoded {
        Ok(text) => Ok(text),
        Err(e) => Err("Invalid ".to_owned().concat(key).concat(": ").concat(e.as_str())),
    }
}

/// The texts of the vectors, the number of results and the score of a vector search, or the
/// reason to refuse it.
fn check_search(
    arguments: &Json,
    key: &str,
    vectors: Result<String, String>,
    min_score: Option<String>,
) -> (res: Result<(String, u64, String), String>)
    ensures
        match res {
            Ok((text, top_k, score)) => {
                &&& search_refusal(
                    arguments@,
                    key@,
                    decoded_text(vectors),
                    opt_text(min_score),
                ) is None
                &&& decoded_text(vectors) == Ok::<Seq<char>, Seq<char>>(text@)
                &&& arguments@.u64_field("top_k"@) == Some(top_k)
                &&& opt_text(min_score) == Some(score@)
            },
            Err(why) => search_refusal(
                arguments@,
                key@,
                decoded_text(vectors),
                opt_text(min_score),
            ) == Some(why@),
        },
{
    let text = check_decoded(arguments, key, vectors)?;
    let top_k: u64 = match arguments.u64_field("top_k") {
        Some(n) => n,
        None => return Err("Missing or invalid 'top_k' parameter".to_owned()),
    };
    match min_score {
        Some(score) => Ok((text, top_k, score)),
        None => Err("Missing or invalid 'min_score' parameter".to_owned()),
    }
}

/// What a call leads to that dmcp has to answer: the arguments for dmcp, or a refusal.
pub open spec fn asks_dmcp(
    id: JsonView,
    refusal: Option<Seq<char>>,
    args: Seq<Seq<char>>,
    outcome: Result<Seq<Seq<char>>, ResponseView>,
) -> bool {
    match outcome {
        Ok(list) => refusal is None && list == args,
        Err(response) => refusal matches Some(why) && response == error_view(
            id,
            INVALID_PARAMS,
            why,
        ),
    }
}

/// The view of a list of arguments or a response.
pub open spec fn args_outcome(res: Result<Vec<String>, JsonRpcResponse>) -> Result<
    Seq<Seq<char>>,
    ResponseView,
> {
    match res {
        Ok(list) => Ok(texts(list@)),
        Err(response) => Err(response@),
    }
}

/// Whether a search call whose vectors stand under `key` leads to this outcome.
pub open spec fn search_read(
    id: JsonView,
    arguments: JsonView,
    key: Seq<char>,
    option: Seq<char>,
    vectors: Result<Seq<char>, Seq<char>>,
    min_score: Option<Seq<char>>,
    outcome: Result<Seq<Seq<char>>, ResponseView>,
) -> bool {
    asks_dmcp(
        id,
        search_refusal(arguments, key, vectors, min_score),
        search_args(option, vectors->Ok_0, arguments.u64_field("top_k"@)->0, min_score->0),
        outcome,
    )
}

/// Whether a `browse_servers` call leads to this outcome.
pub open spec fn browse_read(
    id: JsonView,
    arguments: JsonView,
    vector: Result<Seq<char>, Seq<char>>,
    min_score: Option<Seq<char>>,
    outcome: Result<Seq<Seq<char>>, ResponseView>,
) -> bool {
    search_read(id, arguments, "vector"@, "--vector"@, vector, min_score, outcome)
}

/// Whether a `browse_servers_batch` call leads to this outcome.
pub open spec fn browse_batch_read(
    id: JsonView,
    arguments: JsonView,
    vectors: Result<Seq<char>, Seq<char>>,
    min_score: Option<Seq<char>>,
    outcome: Result<Seq<Seq<char>>, ResponseView>,
) -> bool {
    search_read(id, arguments, "vectors"@, "--vectors"@, vectors, min_score, outcome)
}

/// Whether an `index_server` call leads to this outcome.
pub open spec fn index_read(
    id: JsonView,
    arguments: JsonView,
    vectors: Result<Seq<char>, Seq<char>>,
    outcome: Result<Seq<Seq<char>>, ResponseView>,
) -> bool {
    asks_dmcp(
        id,
        index_refusal(arguments, vectors),
        index_args(arguments.str_field("server_id"@)->0, vectors->Ok_0),
        outcome,
    )
}

/// Reads a `browse_servers` call, given the text of its vector and of its score as a decoder of
/// decimal numbers writes them. Returns the arguments for dmcp, or the answer where the call is
/// refused.
pub fn handle_browse_servers(
    id: &Json,
    arguments: &Json,
    vector: Result<String, String>,
    min_score: Option<String>,
) -> (res: Result<Vec<String>, JsonRpcResponse>)
    ensures
        browse_read(
            id@,
            arguments@,
            decoded_text(vector),
            opt_text(min_score),
            args_outcome(res),
        ),
{
    match check_search(arguments, "vector", vector, min_score) {
        Ok((text, top_k, score)) => Ok(
            DmcpClient::browse_vector_args(text.as_str(), top_k, score.as_str()),
        ),
        Err(why) => Err(JsonRpcResponse::error(id.clone(), INVALID_PARAMS, why.as_str())),
    }
}

/// Reads a `browse_servers_batch` call, as `handle_browse_servers` does with one vector.
pub fn handle_browse_servers_batch(
    id: &Json,
    arguments: &Json,
    vectors: Result<String, String>,
    min_score: Option<String>,
) -> (res: Result<Vec<String>, JsonRpcResponse>)
    ensures
        browse_batch_read(
            id@,
            arguments@,
            decoded_text(vectors),
            opt_text(min_score),
            args_outcome(res),
        ),
{
    match check_search(arguments, "vectors", vectors, min_score) {
        Ok((text, top_k, score)) => Ok(
            DmcpClient::browse_vectors_args(text.as_str(), top_k, score.as_str()),
        ),
        Err(why) => Err(JsonRpcResponse::error(id.clone(), INVALID_PARAMS, why.as_str())),
    }
}

/// Why the arguments of `index_server` are refused.
pub open spec fn index_refusal(
    arguments: JsonView,
    vectors: Result<Seq<char>, Seq<char>>,
) -> Option<Seq<char>> {
    if arguments.str_field("server_id"@) is None {
        Some("Missing 'server_id' parameter"@)
    } else {
        decoding_refusal(arguments, "vectors"@, vectors)
    }
}

/// Reads an `index_server` call, given the text of its vectors as a decoder of decimal numbers
/// writes them. Returns the arguments for dmcp, or the answer where the call is refused.
pub fn handle_index_server(id: &Json, arguments: &Json, vectors: Result<String, String>) -> (res:
    Result<Vec<String>, JsonRpcResponse>)
    ensures
        index_read(id@, arguments@, decoded_text(vectors), args_outcome(res)),
{
    let server_id = match arguments.str_field("server_id") {
        Some(s) => s,
        None => {
            return Err(
                JsonRpcResponse::error(id.clone(), INVALID_PARAMS, "Missing 'server_id' parameter"),
            );
        },
    };
    match check_decoded(arguments, "vectors", vectors) {
        Ok(text) => Ok(DmcpClient::index_server_args(server_id.as_str(), text.as_str())),
        Err(why) => Err(JsonRpcResponse::error(id.clone(), INVALID_PARAMS, why.as_str())),
    }
}

/// The answer to a call for which dmcp gave a value, under a key and with the value's text.
pub open spec fn value_reply_view(
    id: JsonView,
    key: Seq<char>,
    found: Result<(JsonView, Seq<char>), DispatchErrorView>,
) -> ResponseView {
    match found {
        Ok((value, text)) => success_view(id, result_with(text, key, value)),
        Err(e) => error_view(id, SERVER_ERROR, e.message()),
    }
}

/// A value with its text, or an error.
pub open spec fn found_view(found: Result<(Json, String), DispatchError>) -> Result<
    (JsonView, Seq<char>),
    DispatchErrorView,
> {
    match found {
        Ok((value, text)) => Ok((value@, text@)),
        Err(e) => Err(e@),
    }
}

/// A value with the text that is written for it, or an error.
pub open spec fn written(found: Result<JsonView, DispatchErrorView>) -> Result<
    (JsonView, Seq<char>),
    DispatchErrorView,
> {
    match found {
        Ok(value) => Ok((value, json_text(value))),
        Err(e) => Err(e),
    }
}

/// Writes the text of what dmcp gave.
fn with_text(found: Result<Json, DispatchError>) -> (res: Result<(Json, String), DispatchError>)
    ensures
        found_view(res) == written(json_outcome(found)),
{
    match found {
        Ok(value) => {
            let text = write_json(&value);
            Ok((value, text))
        },
        Err(e) => Err(e),
    }
}

/// The answer to a call for which dmcp gave a value, under a key and with the value's text.
pub fn value_reply(id: Json, key: &str, found: Result<(Json, String), DispatchError>) -> (res:
    JsonRpcResponse)
    ensures
        res@ == value_reply_view(id@, key@, found_view(found)),
{
    match found {
        Ok((value, text)) => JsonRpcResponse::success(
            id,
            make_result(text.as_str(), key, value),
        ),
        Err(e) => JsonRpcResponse::error(id, SERVER_ERROR, e.message().as_str()),
    }
}

/// The answer to `browse_servers` and `browse_servers_batch`.
pub open spec fn results_reply_view(
    id: JsonView,
    found: Result<JsonView, DispatchErrorView>,
) -> ResponseView {
    value_reply_view(id, "results"@, written(found))
}

/// The answer to `browse_servers` and `browse_servers_batch`.
pub fn results_reply(id: Json, found: Result<Json, DispatchError>) -> (res: JsonRpcResponse)
    ensures
        res@ == results_reply_view(id@, json_outcome(found)),
{
    value_reply(id, "results", with_text(found))
}

/// The answer to `embedding_spec`.
pub open spec fn spec_reply_view(
    id: JsonView,
    found: Result<JsonView, DispatchErrorView>,
) -> ResponseView {
    value_reply_view(id, "spec"@, written(found))
}

/// The answer to `embedding_spec`.
pub fn handle_embedding_spec(id: Json, found: Result<Json, DispatchError>) -> (res:
    JsonRpcResponse)
    ensures
        res@ == spec_reply_view(id@, json_outcome(found)),
{
    value_reply(id, "spec", with_text(found))
}

/// The answer to `server_count`.
pub open spec fn count_reply_view(
    id: JsonView,
    found: Result<u64, DispatchErrorView>,
) -> ResponseView {
    match found {
        Ok(count) => success_view(
            id,
            result_with(
                decimal(count as nat),
                "count"@,
                JsonView::Number(NumberView::PosInt(count)),
            ),
        ),
        Err(e) => error_view(id, SERVER_ERROR, e.message()),
    }
}

/// The answer to `server_count`.
pub fn handle_server_count(id: Json, found: Result<u64, DispatchError>) -> (res: JsonRpcResponse)
    ensures
        res@ == count_reply_view(id@, count_outcome(found)),
{
    match found {
        Ok(count) => JsonRpcResponse::success(
            id,
            make_result(decimal_text(count).as_str(), "count", Json::number(count)),
        ),
        Err(e) => JsonRpcResponse::error(id, SERVER_ERROR, e.message().as_str()),
    }
}

/// The answer to a call for which dmcp printed a text: `sync_index` and `index_server`.
pub open spec fn printed_reply_view(
    id: JsonView,
    printed: Result<Seq<char>, DispatchErrorView>,
) -> ResponseView {
    match printed {
        Ok(text) => success_view(
            id,
            JsonView::Object(Seq::empty().push(("content"@, text_content(text)))),
        ),
        Err(e) => error_view(id, SERVER_ERROR, e.message()),
    }
}

/// The answer to a call for which dmcp printed a text.
fn printed_reply(id: Json, printed: Result<String, DispatchError>) -> (res: JsonRpcResponse)
    ensures
        res@ == printed_reply_view(id@, text_outcome(printed)),
{
    match printed {
        Ok(text) => JsonRpcResponse::success(
            id,
            Fields::new().with("content", content_of(text.as_str())).object(),
        ),
        Err(e) => JsonRpcResponse::error(id, SERVER_ERROR, e.message().as_str()),
    }
}

/// The answer to `sync_index`.
pub fn handle_sync_index(id: Json, printed: Result<String, DispatchError>) -> (res:
    JsonRpcResponse)
    ensures
        res@ == printed_reply_view(id@, text_outcome(printed)),
{
    printed_reply(id, printed)
}

/// The answer to `index_server`.
pub fn index_server_reply(id: Json, printed: Result<String, DispatchError>) -> (res:
    JsonRpcResponse)
    ensures
        res@ == printed_reply_view(id@, text_outcome(printed)),
{
    printed_reply(id, printed)
}

// --- All lines together ---

/// Whether a response answers the request with this id.
pub open spec fn answers(response: ResponseView, id: JsonView) -> bool {
    response.id == id && well_shaped(response)
}

/// Whatever comes of a tool call, its response answers the request.
pub proof fn tool_calls_are_answered_under_their_id(
    id: JsonView,
    a: OrchestratorView,
    b: OrchestratorView,
    decoded: Option<Result<Seq<u64>, Seq<char>>>,
    key: Seq<char>,
    value: JsonView,
    woken: Result<Seq<char>, DispatchErrorView>,
    found: Result<(JsonView, Seq<char>), DispatchErrorView>,
    text: Seq<char>,
    code: i64,
    response: ResponseView,
)
    ensures
        answers(success_view(id, value), id),
        answers(error_view(id, code, text), id),
        answers(wake_reply_view(id, key, value, woken, text), id),
        answers(value_reply_view(id, key, found), id),
        answers(printed_reply_view(id, woken), id),
        answers(outputs_view(a, id, decoded), id),
        kill_handled(a, b, id, decoded, response) ==> answers(response, id),
        wait_handled(a, b, id, decoded, Err(response)) ==> answers(response, id),
{
}

/// A line that reached the server, what a parser makes of it, and the response that was written.
pub struct Turn {
    pub line: Seq<char>,
    pub parsed: Result<JsonRpcRequest, String>,
    pub written: Option<ResponseView>,
}

/// Whether the server took a line as it should: nothing is written where it is blank or skipped,
/// and otherwise the response that it has for the request, which for a tool call is one that
/// answers it.
pub open spec fn taken(turn: Turn) -> bool {
    if trimmed(turn.line).len() == 0 {
        turn.written is None
    } else {
        match step_for(turn.parsed) {
            ServerStepView::Skip => turn.written is None,
            ServerStepView::Reply(response) => turn.written == Some(response),
            ServerStepView::CallTool { id, .. } => turn.written matches Some(response) && answers(
                response,
                id,
            ),
        }
    }
}

/// Whether the server took every line as it should.
pub open spec fn all_taken(turns: Seq<Turn>) -> bool {
    forall|i: int| 0 <= i < turns.len() ==> taken(#[trigger] turns[i])
}

/// Whether there is a method of this name that is answered.
pub open spec fn is_method(name: Seq<char>) -> bool {
    ||| name == "initialize"@
    ||| name == "tools/list"@
    ||| name == "tools/call"@
    ||| name == "ping"@
}

/// Whether a line is owed a response. Three kinds are not: a blank line, the note that the client
/// is initialized, and a request without an id for a method that there is not.
pub open spec fn is_owed_response(line: Seq<char>, parsed: Result<JsonRpcRequest, String>) -> bool {
    &&& trimmed(line).len() > 0
    &&& match parsed {
        Err(_) => true,
        Ok(request) => {
            &&& request.method@ != "notifications/initialized"@
            &&& is_method(request.method@) || request.id is Some
        },
    }
}

/// The id under which a line is answered: that of its request, and `null` where it has none or is
/// not a request.
pub open spec fn owed_id(parsed: Result<JsonRpcRequest, String>) -> JsonView {
    match parsed {
        Err(_) => JsonView::Null,
        Ok(request) => answer_id(request),
    }
}

/// The ids of the responses that the lines are owed, in the order of the lines.
pub open spec fn owed_ids(turns: Seq<Turn>) -> Seq<JsonView>
    decreases turns.len(),
{
    if turns.len() == 0 {
        Seq::empty()
    } else {
        let earlier = owed_ids(turns.drop_last());
        if is_owed_response(turns.last().line, turns.last().parsed) {
            earlier.push(owed_id(turns.last().parsed))
        } else {
            earlier
        }
    }
}

/// The responses that were written, in their order.
pub open spec fn responses(turns: Seq<Turn>) -> Seq<ResponseView>
    decreases turns.len(),
{
    if turns.len() == 0 {
        Seq::empty()
    } else {
        match turns.last().written {
            Some(response) => responses(turns.drop_last()).push(response),
            None => responses(turns.drop_last()),
        }
    }
}

/// Over all lines that reach the server, exactly those that are owed a response get one, in the
/// order of the lines and each under its own id, and every response holds a result or an error
/// and not both.
pub proof fn every_line_gets_its_response(turns: Seq<Turn>)
    requires
        all_taken(turns),
    ensures
        responses(turns).len() == owed_ids(turns).len(),
        forall|j: int|
            0 <= j < owed_ids(turns).len() ==> answers(
                #[trigger] responses(turns)[j],
                owed_ids(turns)[j],
            ),
    decreases turns.len(),
{
    if turns.len() > 0 {
        let last = turns.last();
        every_line_gets_its_response(turns.drop_last());
        assert(taken(turns[turns.len() - 1]));
        one_line_gets_its_response(last);
    }
}

/// A line gets a response exactly where it is owed one, and under its own id.
proof fn one_line_gets_its_response(turn: Turn)
    requires
        taken(turn),
    ensures
        match turn.written {
            Some(response) => is_owed_response(turn.line, turn.parsed) && answers(
                response,
                owed_id(turn.parsed),
            ),
            None => !is_owed_response(turn.line, turn.parsed),
        },
{
    reveal_strlit("initialize");
    reveal_strlit("tools/list");
    reveal_strlit("tools/call");
    reveal_strlit("ping");
    reveal_strlit("notifications/initialized");
    assert("initialize"@.len() == 10 && "tools/list"@.len() == 10 && "tools/call"@.len() == 10);
    assert("ping"@.len() == 4 && "notifications/initialized"@.len() == 25);
}

/// The server between two lines. It remembers, for the proofs alone, the turns that it took.
pub struct Server {
    turns: Ghost<Seq<Turn>>,
}

/// A server that has handed out a tool call and has to write its response.
pub struct OpenCall {
    id: Json,
    params: Json,
    turns: Ghost<Seq<Turn>>,
    line: Ghost<Seq<char>>,
    parsed: Ghost<Result<JsonRpcRequest, String>>,
}

/// What comes of a line.
pub enum ServerTurn {
    /// The line is dealt with once the response is written, where there is one.
    Done { server: Server, written: Option<JsonRpcResponse> },
    /// A tool is to be called.
    Call { call: OpenCall },
}

/// The view of an optional response.
pub open spec fn opt_response(response: Option<JsonRpcResponse>) -> Option<ResponseView> {
    match response {
        Some(r) => Some(r@),
        None => None,
    }
}

impl View for Server {
    type V = Seq<Turn>;

    closed spec fn view(&self) -> Seq<Turn> {
        self.turns@
    }
}

impl OpenCall {
    /// The turns before the call.
    pub closed spec fn turns(&self) -> Seq<Turn> {
        self.turns@
    }

    /// The turn of the call, once this response is written.
    pub closed spec fn turn(&self, response: ResponseView) -> Turn {
        Turn { line: self.line@, parsed: self.parsed@, written: Some(response) }
    }

    /// The id of the call.
    pub closed spec fn call_id(&self) -> JsonView {
        self.id@
    }

    /// The parameters of the call.
    pub closed spec fn call_params(&self) -> JsonView {
        self.params@
    }

    /// The invariant: the turns before were taken, and so is this one with any response that
    /// answers the call.
    pub open spec fn wf(&self) -> bool {
        &&& all_taken(self.turns())
        &&& forall|response: ResponseView|
            answers(response, self.call_id()) ==> taken(#[trigger] self.turn(response))
    }

    /// The id of the call.
    pub fn id(&self) -> (res: &Json)
        ensures
            res@ == self.call_id(),
    {
        &self.id
    }

    /// The parameters of the call.
    pub fn params(&self) -> (res: &Json)
        ensures
            res@ == self.call_params(),
    {
        &self.params
    }

    /// Closes the call with a response, and returns what is to be written. That is the response
    /// itself where it answers the call, and in any case one that does.
    pub fn answer(self, response: JsonRpcResponse) -> (res: (Server, JsonRpcResponse))
        requires
            self.wf(),
        ensures
            all_taken(res.0@),
            res.0@ == self.turns().push(self.turn(res.1@)),
            answers(res.1@, self.call_id()),
            answers(response@, self.call_id()) ==> res.1@ == response@,
    {
        let result = if response.error.is_some() {
            None
        } else {
            match response.result {
                Some(result) => Some(result),
                None => Some(Json::Null),
            }
        };
        let written = JsonRpcResponse {
            jsonrpc: "2.0".to_owned(),
            id: self.id,
            result,
            error: response.error,
        };
        let ghost turn = Turn { line: self.line@, parsed: self.parsed@, written: Some(written@) };
        assert(taken(self.turn(written@)));
        let server = Server { turns: Ghost(self.turns@.push(turn)) };
        (server, written)
    }
}

impl Server {
    /// A server that has taken no line.
    pub fn new() -> (res: Server)
        ensures
            res@ == Seq::<Turn>::empty(),
            all_taken(res@),
    {
        Server { turns: Ghost(Seq::empty()) }
    }

    /// Takes a line, given what a parser makes of it.
    pub fn take_line(self, line: &str, parsed: Result<JsonRpcRequest, String>) -> (res: ServerTurn)
        requires
            all_taken(self@),
        ensures
            match res {
                ServerTurn::Done { server, written } => {
                    &&& all_taken(server@)
                    &&& trimmed(line@).len() == 0 || !(step_for(parsed) is CallTool)
                    &&& server@ == self@.push(
                        Turn { line: line@, parsed, written: opt_response(written) },
                    )
                },
                ServerTurn::Call { call } => {
                    &&& call.wf()
                    &&& call.turns() == self@
                    &&& trimmed(line@).len() > 0
                    &&& step_for(parsed) == ServerStepView::CallTool {
                        id: call.call_id(),
                        params: call.call_params(),
                    }
                    &&& forall|response: ResponseView| #[trigger]
                        call.turn(response) == (Turn {
                            line: line@,
                            parsed,
                            written: Some(response),
                        })
                },
            },
    {
        let ghost turns = self.turns@;
        let ghost given = parsed;
        if read_line(line).is_none() {
            let ghost turn = Turn { line: line@, parsed: given, written: None };
            return ServerTurn::Done {
                server: Server { turns: Ghost(turns.push(turn)) },
                written: None,
            };
        }
        match serve(parsed) {
            ServerStep::Skip => {
                let ghost turn = Turn { line: line@, parsed: given, written: None };
                ServerTurn::Done {
                    server: Server { turns: Ghost(turns.push(turn)) },
                    written: None,
                }
            },
            ServerStep::Reply(response) => {
                let ghost turn = Turn { line: line@, parsed: given, written: Some(response@) };
                ServerTurn::Done {
                    server: Server { turns: Ghost(turns.push(turn)) },
                    written: Some(response),
                }
            },
            ServerStep::CallTool { id, params } => {
                let call = OpenCall {
                    id,
                    params,
                    turns: Ghost(turns),
                    line: Ghost(line@),
                    parsed: Ghost(given),
                };
                ServerTurn::Call { call }
            },
        }
    }
}

} // verus!
