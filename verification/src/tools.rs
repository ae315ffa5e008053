//! The tools that the server offers, and their definitions for a client.

use vstd::prelude::*;

use crate::json::{Fields, Json, JsonView};
use crate::text::same_text;

verus! {

/// What `dispatch` does.
pub const DISPATCH_ABOUT: &'static str =
    "Dispatch a list of tasks for concurrent execution via MCP servers. Each task specifies a \
    server, tool, parameters, and optional settings. Blocks until any task signals (EXIT, \
    REMIND, or KILL), then returns the signal window. The LLM receives each task's output as it \
    arrives and can loop back with 'wait' for remaining tasks. Strategy is prepended to every \
    wakeup response if set.";

/// What `tasks` means to `dispatch`.
pub const DISPATCH_TASKS: &'static str = "List of tasks to dispatch concurrently";

/// What `server` means to a task.
pub const TASK_SERVER: &'static str = "MCP server ID (as known to dmcp)";

/// What `tool` means to a task.
pub const TASK_TOOL: &'static str = "Tool name on the server";

/// What `params` means to a task.
pub const TASK_PARAMS: &'static str = "Parameters to pass to the tool";

/// What `remind_after` means to a task.
pub const TASK_REMIND_AFTER: &'static str =
    "Seconds before firing a reminder (omit for no reminder)";

/// What `fire_wake` means to a task.
pub const TASK_FIRE_WAKE: &'static str =
    "Default: true. Set to false for fire-and-forget background tasks — suppresses per-task \
    wakeup so the LLM is only woken when all fire_wake=false tasks complete together or a \
    reminder fires.";

/// What `defer_output` means to a task.
pub const TASK_DEFER_OUTPUT: &'static str =
    "If true, store output out-of-band and show only '[hash=h] 200 (deferred)' in the EXIT \
    signal. Use for large payloads to keep the signal window compact. Default: false (output \
    inlined as '[hash=h] 200 <h>output</h>').";

/// What `strategy` means to `dispatch`.
pub const DISPATCH_STRATEGY: &'static str =
    "Current goal state and workflow plan. Stored in the orchestrator and prepended to every LLM \
    wakeup response for this session. Update it on each dispatch call to keep context across \
    wakeup cycles.";

/// What `session_id` means to `dispatch`.
pub const DISPATCH_SESSION_ID: &'static str =
    "Optional session identifier (e.g. the goal ID from the orchestrating LLM). When provided, \
    the signal window returned on each wakeup is filtered to only show signals for PIDs \
    belonging to this session — preventing historical entries from earlier goals from polluting \
    the LLM context.";

/// What `kill` does.
pub const KILL_ABOUT: &'static str = "Terminate running tasks by PID.";

/// What `pids` means to `kill`.
pub const KILL_PIDS: &'static str = "PIDs of tasks to kill";

/// What `wait` does.
pub const WAIT_ABOUT: &'static str =
    "Acknowledge a reminder and let the task continue running. A new reminder will fire after the \
    same interval. After acknowledging, blocks until the next event (task completion or \
    reminder).";

/// What `pids` means to `wait`.
pub const WAIT_PIDS: &'static str = "PIDs of tasks to continue waiting on";

/// What `status` does.
pub const STATUS_ABOUT: &'static str = "Get current state of all active tasks.";

/// What `log` does.
pub const LOG_ABOUT: &'static str = "Get the signal window (last N entries).";

/// What `count` means to `log`.
pub const LOG_COUNT: &'static str = "Number of entries to return (default: 20)";

/// What `get_output` does.
pub const GET_OUTPUT_ABOUT: &'static str =
    "Retrieve the full output from one or more completed MCP tasks. By default, output is already \
    inlined in the EXIT signal as '[hash=h] 200 <h>output</h>' — use this tool to re-read \
    output, or to retrieve output from tasks that used defer_output: true (those show only \
    '[hash=h] 200 (deferred)' in the signal window). Failed tasks (500) have no stored output; \
    check the signal log for error details.";

/// What `pids` means to `get_output`.
pub const GET_OUTPUT_PIDS: &'static str =
    "PIDs of completed tasks to retrieve output for. Multiple PIDs can be fetched in one call.";

/// What `timer` does.
pub const TIMER_ABOUT: &'static str =
    "Set a one-shot timer. Fires a REMIND signal after the specified duration, then exits. No MCP \
    server involved — pure delay. Use for goal deferral, scheduled re-checks, or any timed \
    reminder. Killable via the kill tool.";

/// What `label` means to `timer`.
pub const TIMER_LABEL: &'static str =
    "Human-readable label for the timer (appears in signals and status)";

/// What `duration` means to `timer`.
pub const TIMER_DURATION: &'static str = "Seconds until the REMIND signal fires";

/// What `metadata` means to `timer`.
pub const TIMER_METADATA: &'static str =
    "Arbitrary key-value data passed through to the REMIND signal (opaque to dispatch)";

/// What `browse_servers` does.
pub const BROWSE_SERVERS_ABOUT: &'static str =
    "Search the MCP server registry using a vector (embedding). Returns the top-k most similar \
    servers above the minimum score threshold.";

/// What `vector` means to `browse_servers`.
pub const BROWSE_SERVERS_VECTOR: &'static str = "Query embedding vector";

/// What `top_k` means to `browse_servers`.
pub const BROWSE_SERVERS_TOP_K: &'static str = "Maximum number of results to return";

/// What `min_score` means to `browse_servers`.
pub const BROWSE_SERVERS_MIN_SCORE: &'static str = "Minimum similarity score threshold (0.0–1.0)";

/// What `browse_servers_batch` does.
pub const BROWSE_SERVERS_BATCH_ABOUT: &'static str =
    "Search the MCP server registry with multiple vectors in a single call. Returns results \
    grouped by input vector index. Use when dispatching a plan with multiple sub-tasks that each \
    need server discovery.";

/// What `vectors` means to `browse_servers_batch`.
pub const BROWSE_SERVERS_BATCH_VECTORS: &'static str = "Array of query embedding vectors";

/// What `top_k` means to `browse_servers_batch`.
pub const BROWSE_SERVERS_BATCH_TOP_K: &'static str = "Maximum number of results per vector";

/// What `min_score` means to `browse_servers_batch`.
pub const BROWSE_SERVERS_BATCH_MIN_SCORE: &'static str =
    "Minimum similarity score threshold (0.0–1.0)";

/// What `server_count` does.
pub const SERVER_COUNT_ABOUT: &'static str =
    "Get the number of MCP servers visible in the registry. Use this to decide whether to use \
    vector or keyword search.";

/// What `embedding_spec` does.
pub const EMBEDDING_SPEC_ABOUT: &'static str =
    "Get the embedding model specification used by the registry (model name, version, \
    dimensions). Use this to produce vectors compatible with the registry's index.";

/// What `sync_index` does.
pub const SYNC_INDEX_ABOUT: &'static str =
    "Refresh the local vector index from the registry. Run this before vector searches when the \
    index may be stale.";

/// What `index_server` does.
pub const INDEX_SERVER_ABOUT: &'static str =
    "Add a non-approved server to the local vector index so it can be found via vector search.";

/// What `server_id` means to `index_server`.
pub const INDEX_SERVER_SERVER_ID: &'static str = "ID of the server to index";

/// What `vectors` means to `index_server`.
pub const INDEX_SERVER_VECTORS: &'static str = "Embedding vectors representing the server";

/// A tool.
#[derive(Debug, Clone, Copy, PartialEq, Eq, Structural)]
pub enum Tool {
    Dispatch,
    Kill,
    Wait,
    Status,
    Log,
    GetOutput,
    Timer,
    BrowseServers,
    BrowseServersBatch,
    ServerCount,
    EmbeddingSpec,
    SyncIndex,
    IndexServer,
}

/// All tools, in the order in which they are listed.
pub open spec fn all_tools() -> Seq<Tool> {
    seq![
        Tool::Dispatch,
        Tool::Kill,
        Tool::Wait,
        Tool::Status,
        Tool::Log,
        Tool::GetOutput,
        Tool::Timer,
        Tool::BrowseServers,
        Tool::BrowseServersBatch,
        Tool::ServerCount,
        Tool::EmbeddingSpec,
        Tool::SyncIndex,
        Tool::IndexServer,
    ]
}

/// All tools, in the order in which they are listed.
pub fn every_tool() -> (res: Vec<Tool>)
    ensures
        res@ == all_tools(),
{
    let res = vec![
        Tool::Dispatch,
        Tool::Kill,
        Tool::Wait,
        Tool::Status,
        Tool::Log,
        Tool::GetOutput,
        Tool::Timer,
        Tool::BrowseServers,
        Tool::BrowseServersBatch,
        Tool::ServerCount,
        Tool::EmbeddingSpec,
        Tool::SyncIndex,
        Tool::IndexServer,
    ];
    res
}

/// The schema that fixes a type and nothing else.
pub open spec fn typed(kind: Seq<char>) -> JsonView {
    JsonView::Object(Seq::empty().push(("type"@, JsonView::Str(kind))))
}

/// The schema of an array with such members.
pub open spec fn array_of(items: JsonView) -> JsonView {
    JsonView::Object(
        Seq::empty().push(("type"@, JsonView::Str("array"@))).push(("items"@, items)),
    )
}

/// The schema of a parameter of a simple type.
pub open spec fn simple_prop(kind: Seq<char>, about: Seq<char>) -> JsonView {
    JsonView::Object(
        Seq::empty().push(("type"@, JsonView::Str(kind))).push(
            ("description"@, JsonView::Str(about)),
        ),
    )
}

/// The schema of a parameter that is an array.
pub open spec fn array_prop(items: JsonView, about: Seq<char>) -> JsonView {
    JsonView::Object(
        Seq::empty().push(("type"@, JsonView::Str("array"@))).push(("items"@, items)).push(
            ("description"@, JsonView::Str(about)),
        ),
    )
}

/// The schema of an object, with the parameters that it must have where any are named.
pub open spec fn object_schema(
    properties: Seq<(Seq<char>, JsonView)>,
    required: Option<Seq<JsonView>>,
) -> JsonView {
    let head = Seq::empty().push(("type"@, JsonView::Str("object"@))).push(
        ("properties"@, JsonView::Object(properties)),
    );
    JsonView::Object(
        match required {
            Some(names) => head.push(("required"@, JsonView::Array(names))),
            None => head,
        },
    )
}

/// The parameters of a task.
pub open spec fn task_properties() -> Seq<(Seq<char>, JsonView)> {
    Seq::empty()
        .push(("server"@, simple_prop("string"@, TASK_SERVER@)))
        .push(("tool"@, simple_prop("string"@, TASK_TOOL@)))
        .push(("params"@, simple_prop("object"@, TASK_PARAMS@)))
        .push(("remind_after"@, simple_prop("integer"@, TASK_REMIND_AFTER@)))
        .push(("fire_wake"@, simple_prop("boolean"@, TASK_FIRE_WAKE@)))
        .push(("defer_output"@, simple_prop("boolean"@, TASK_DEFER_OUTPUT@)))
}

/// The schema of a task.
pub open spec fn task_schema_view() -> JsonView {
    object_schema(
        task_properties(),
        Some(Seq::empty().push(JsonView::Str("server"@)).push(JsonView::Str("tool"@))),
    )
}

impl Tool {
    /// The name under which the tool is called.
    pub open spec fn label(self) -> Seq<char> {
        match self {
            Tool::Dispatch => "dispatch"@,
            Tool::Kill => "kill"@,
            Tool::Wait => "wait"@,
            Tool::Status => "status"@,
            Tool::Log => "log"@,
            Tool::GetOutput => "get_output"@,
            Tool::Timer => "timer"@,
            Tool::BrowseServers => "browse_servers"@,
            Tool::BrowseServersBatch => "browse_servers_batch"@,
            Tool::ServerCount => "server_count"@,
            Tool::EmbeddingSpec => "embedding_spec"@,
            Tool::SyncIndex => "sync_index"@,
            Tool::IndexServer => "index_server"@,
        }
    }

    /// What the tool does.
    pub open spec fn about(self) -> Seq<char> {
        match self {
            Tool::Dispatch => DISPATCH_ABOUT@,
            Tool::Kill => KILL_ABOUT@,
            Tool::Wait => WAIT_ABOUT@,
            Tool::Status => STATUS_ABOUT@,
            Tool::Log => LOG_ABOUT@,
            Tool::GetOutput => GET_OUTPUT_ABOUT@,
            Tool::Timer => TIMER_ABOUT@,
            Tool::BrowseServers => BROWSE_SERVERS_ABOUT@,
            Tool::BrowseServersBatch => BROWSE_SERVERS_BATCH_ABOUT@,
            Tool::ServerCount => SERVER_COUNT_ABOUT@,
            Tool::EmbeddingSpec => EMBEDDING_SPEC_ABOUT@,
            Tool::SyncIndex => SYNC_INDEX_ABOUT@,
            Tool::IndexServer => INDEX_SERVER_ABOUT@,
        }
    }

    /// The parameters of the tool.
    pub open spec fn properties(self) -> Seq<(Seq<char>, JsonView)> {
        match self {
            Tool::Dispatch => Seq::empty()
                .push(("tasks"@, array_prop(task_schema_view(), DISPATCH_TASKS@)))
                .push(("strategy"@, simple_prop("string"@, DISPATCH_STRATEGY@)))
                .push(("session_id"@, simple_prop("string"@, DISPATCH_SESSION_ID@))),
            Tool::Kill => Seq::empty().push(("pids"@, array_prop(typed("integer"@), KILL_PIDS@))),
            Tool::Wait => Seq::empty().push(("pids"@, array_prop(typed("integer"@), WAIT_PIDS@))),
            Tool::Status => Seq::empty(),
            Tool::Log => Seq::empty().push(("count"@, simple_prop("integer"@, LOG_COUNT@))),
            Tool::GetOutput => Seq::empty()
                .push(("pids"@, array_prop(typed("integer"@), GET_OUTPUT_PIDS@))),
            Tool::Timer => Seq::empty()
                .push(("label"@, simple_prop("string"@, TIMER_LABEL@)))
                .push(("duration"@, simple_prop("integer"@, TIMER_DURATION@)))
                .push(("metadata"@, simple_prop("object"@, TIMER_METADATA@))),
            Tool::BrowseServers => Seq::empty()
                .push(("vector"@, array_prop(typed("number"@), BROWSE_SERVERS_VECTOR@)))
                .push(("top_k"@, simple_prop("integer"@, BROWSE_SERVERS_TOP_K@)))
                .push(("min_score"@, simple_prop("number"@, BROWSE_SERVERS_MIN_SCORE@))),
            Tool::BrowseServersBatch => Seq::empty()
                .push(("vectors"@, array_prop(array_of(typed("number"@)), BROWSE_SERVERS_BATCH_VECTORS@)))
                .push(("top_k"@, simple_prop("integer"@, BROWSE_SERVERS_BATCH_TOP_K@)))
                .push(("min_score"@, simple_prop("number"@, BROWSE_SERVERS_BATCH_MIN_SCORE@))),
            Tool::ServerCount => Seq::empty(),
            Tool::EmbeddingSpec => Seq::empty(),
            Tool::SyncIndex => Seq::empty(),
            Tool::IndexServer => Seq::empty()
                .push(("server_id"@, simple_prop("string"@, INDEX_SERVER_SERVER_ID@)))
                .push(("vectors"@, array_prop(array_of(typed("number"@)), INDEX_SERVER_VECTORS@))),
        }
    }

    /// The parameters that a call must have, where any are named.
    pub open spec fn required(self) -> Option<Seq<JsonView>> {
        match self {
            Tool::Dispatch => Some(Seq::empty().push(JsonView::Str("tasks"@))),
            Tool::Kill => Some(Seq::empty().push(JsonView::Str("pids"@))),
            Tool::Wait => Some(Seq::empty().push(JsonView::Str("pids"@))),
            Tool::GetOutput => Some(Seq::empty().push(JsonView::Str("pids"@))),
            Tool::Timer => Some(Seq::empty()
                .push(JsonView::Str("label"@))
                .push(JsonView::Str("duration"@))),
            Tool::BrowseServers => Some(Seq::empty()
                .push(JsonView::Str("vector"@))
                .push(JsonView::Str("top_k"@))
                .push(JsonView::Str("min_score"@))),
            Tool::BrowseServersBatch => Some(Seq::empty()
                .push(JsonView::Str("vectors"@))
                .push(JsonView::Str("top_k"@))
                .push(JsonView::Str("min_score"@))),
            Tool::IndexServer => Some(Seq::empty()
                .push(JsonView::Str("server_id"@))
                .push(JsonView::Str("vectors"@))),
            _ => None,
        }
    }

    /// The definition of the tool.
    pub open spec fn definition(self) -> JsonView {
        JsonView::Object(
            Seq::empty().push(("name"@, JsonView::Str(self.label()))).push(
                ("description"@, JsonView::Str(self.about())),
            ).push(("inputSchema"@, object_schema(self.properties(), self.required()))),
        )
    }
}

/// The tool with a name.
pub open spec fn tool_named(name: Seq<char>) -> Option<Tool> {
    if name == "dispatch"@ {
        Some(Tool::Dispatch)
    } else if name == "kill"@ {
        Some(Tool::Kill)
    } else if name == "wait"@ {
        Some(Tool::Wait)
    } else if name == "status"@ {
        Some(Tool::Status)
    } else if name == "log"@ {
        Some(Tool::Log)
    } else if name == "get_output"@ {
        Some(Tool::GetOutput)
    } else if name == "timer"@ {
        Some(Tool::Timer)
    } else if name == "browse_servers"@ {
        Some(Tool::BrowseServers)
    } else if name == "browse_servers_batch"@ {
        Some(Tool::BrowseServersBatch)
    } else if name == "server_count"@ {
        Some(Tool::ServerCount)
    } else if name == "embedding_spec"@ {
        Some(Tool::EmbeddingSpec)
    } else if name == "sync_index"@ {
        Some(Tool::SyncIndex)
    } else if name == "index_server"@ {
        Some(Tool::IndexServer)
    } else {
        None
    }
}

/// The schema that fixes a type and nothing else.
fn type_only(kind: &str) -> (res: Json)
    ensures
        res@ == typed(kind@),
{
    Fields::new().with("type", Json::text(kind)).object()
}

/// The schema of an array with such members.
fn list_of(items: Json) -> (res: Json)
    ensures
        res@ == array_of(items@),
{
    Fields::new().with("type", Json::text("array")).with("items", items).object()
}

/// The schema of a parameter of a simple type.
fn plain_prop(kind: &str, about: &str) -> (res: Json)
    ensures
        res@ == simple_prop(kind@, about@),
{
    Fields::new().with("type", Json::text(kind)).with("description", Json::text(about)).object()
}

/// The schema of a parameter that is an array.
fn list_prop(items: Json, about: &str) -> (res: Json)
    ensures
        res@ == array_prop(items@, about@),
{
    Fields::new().with("type", Json::text("array")).with("items", items).with(
        "description",
        Json::text(about),
    ).object()
}

/// A list of names under construction.
struct Names {
    names: Vec<Json>,
}

impl View for Names {
    type V = Seq<JsonView>;

    closed spec fn view(&self) -> Seq<JsonView> {
        self.names@.map_values(|j: Json| j@)
    }
}

impl Names {
    /// No names.
    fn new() -> (res: Names)
        ensures
            res@ == Seq::<JsonView>::empty(),
    {
        let res = Names { names: Vec::new() };
        res
    }

    /// These names and one more.
    fn with(self, name: &str) -> (res: Names)
        ensures
            res@ == self@.push(JsonView::Str(name@)),
    {
        let mut names = self.names;
        names.push(Json::text(name));
        let res = Names { names };
        res
    }

    /// The array of these names.
    fn array(self) -> (res: Json)
        ensures
            res@ == JsonView::Array(self@),
    {
        let ghost names = self@;
        let res = Json::Array(self.names);
        assert(res@->Array_0 =~= names);
        res
    }
}

/// The view of an optional list of names.
spec fn opt_names(names: Option<Names>) -> Option<Seq<JsonView>> {
    match names {
        Some(n) => Some(n@),
        None => None,
    }
}

/// The schema of an object, with the parameters that it must have where any are named.
fn schema(properties: Fields, required: Option<Names>) -> (res: Json)
    ensures
        res@ == object_schema(properties@, opt_names(required)),
{
    let head = Fields::new().with("type", Json::text("object")).with(
        "properties",
        properties.object(),
    );
    match required {
        Some(names) => head.with("required", names.array()).object(),
        None => head.object(),
    }
}

/// The schema of a task.
fn task_schema() -> (res: Json)
    ensures
        res@ == task_schema_view(),
{
    let properties = Fields::new()
        .with("server", plain_prop("string", TASK_SERVER))
        .with("tool", plain_prop("string", TASK_TOOL))
        .with("params", plain_prop("object", TASK_PARAMS))
        .with("remind_after", plain_prop("integer", TASK_REMIND_AFTER))
        .with("fire_wake", plain_prop("boolean", TASK_FIRE_WAKE))
        .with("defer_output", plain_prop("boolean", TASK_DEFER_OUTPUT));
    schema(properties, Some(Names::new().with("server").with("tool")))
}

impl Tool {
    /// The name under which the tool is called.
    pub fn name(&self) -> (res: &'static str)
        ensures
            res@ == self.label(),
    {
        match self {
            Tool::Dispatch => "dispatch",
            Tool::Kill => "kill",
            Tool::Wait => "wait",
            Tool::Status => "status",
            Tool::Log => "log",
            Tool::GetOutput => "get_output",
            Tool::Timer => "timer",
            Tool::BrowseServers => "browse_servers",
            Tool::BrowseServersBatch => "browse_servers_batch",
            Tool::ServerCount => "server_count",
            Tool::EmbeddingSpec => "embedding_spec",
            Tool::SyncIndex => "sync_index",
            Tool::IndexServer => "index_server",
        }
    }

    /// The tool with a name.
    pub fn from_name(name: &str) -> (res: Option<Tool>)
        ensures
            res == tool_named(name@),
    {
        if same_text(name, "dispatch") {
            Some(Tool::Dispatch)
        } else if same_text(name, "kill") {
            Some(Tool::Kill)
        } else if same_text(name, "wait") {
            Some(Tool::Wait)
        } else if same_text(name, "status") {
            Some(Tool::Status)
        } else if same_text(name, "log") {
            Some(Tool::Log)
        } else if same_text(name, "get_output") {
            Some(Tool::GetOutput)
        } else if same_text(name, "timer") {
            Some(Tool::Timer)
        } else if same_text(name, "browse_servers") {
            Some(Tool::BrowseServers)
        } else if same_text(name, "browse_servers_batch") {
            Some(Tool::BrowseServersBatch)
        } else if same_text(name, "server_count") {
            Some(Tool::ServerCount)
        } else if same_text(name, "embedding_spec") {
            Some(Tool::EmbeddingSpec)
        } else if same_text(name, "sync_index") {
            Some(Tool::SyncIndex)
        } else if same_text(name, "index_server") {
            Some(Tool::IndexServer)
        } else {
            None
        }
    }

    /// What the tool does.
    pub fn description(&self) -> (res: &'static str)
        ensures
            res@ == self.about(),
    {
        match self {
            Tool::Dispatch => DISPATCH_ABOUT,
            Tool::Kill => KILL_ABOUT,
            Tool::Wait => WAIT_ABOUT,
            Tool::Status => STATUS_ABOUT,
            Tool::Log => LOG_ABOUT,
            Tool::GetOutput => GET_OUTPUT_ABOUT,
            Tool::Timer => TIMER_ABOUT,
            Tool::BrowseServers => BROWSE_SERVERS_ABOUT,
            Tool::BrowseServersBatch => BROWSE_SERVERS_BATCH_ABOUT,
            Tool::ServerCount => SERVER_COUNT_ABOUT,
            Tool::EmbeddingSpec => EMBEDDING_SPEC_ABOUT,
            Tool::SyncIndex => SYNC_INDEX_ABOUT,
            Tool::IndexServer => INDEX_SERVER_ABOUT,
        }
    }

    /// The parameters of the tool.
    fn property_list(&self) -> (res: Fields)
        ensures
            res@ == self.properties(),
    {
        match self {
            Tool::Dispatch => Fields::new()
                .with("tasks", list_prop(task_schema(), DISPATCH_TASKS))
                .with("strategy", plain_prop("string", DISPATCH_STRATEGY))
                .with("session_id", plain_prop("string", DISPATCH_SESSION_ID)),
            Tool::Kill => Fields::new().with("pids", list_prop(type_only("integer"), KILL_PIDS)),
            Tool::Wait => Fields::new().with("pids", list_prop(type_only("integer"), WAIT_PIDS)),
            Tool::Status => Fields::new(),
            Tool::Log => Fields::new().with("count", plain_prop("integer", LOG_COUNT)),
            Tool::GetOutput => Fields::new()
                .with("pids", list_prop(type_only("integer"), GET_OUTPUT_PIDS)),
            Tool::Timer => Fields::new()
                .with("label", plain_prop("string", TIMER_LABEL))
                .with("duration", plain_prop("integer", TIMER_DURATION))
                .with("metadata", plain_prop("object", TIMER_METADATA)),
            Tool::BrowseServers => Fields::new()
                .with("vector", list_prop(type_only("number"), BROWSE_SERVERS_VECTOR))
                .with("top_k", plain_prop("integer", BROWSE_SERVERS_TOP_K))
                .with("min_score", plain_prop("number", BROWSE_SERVERS_MIN_SCORE)),
            Tool::BrowseServersBatch => Fields::new()
                .with("vectors", list_prop(list_of(type_only("number")), BROWSE_SERVERS_BATCH_VECTORS))
                .with("top_k", plain_prop("integer", BROWSE_SERVERS_BATCH_TOP_K))
                .with("min_score", plain_prop("number", BROWSE_SERVERS_BATCH_MIN_SCORE)),
            Tool::ServerCount => Fields::new(),
            Tool::EmbeddingSpec => Fields::new(),
            Tool::SyncIndex => Fields::new(),
            Tool::IndexServer => Fields::new()
                .with("server_id", plain_prop("string", INDEX_SERVER_SERVER_ID))
                .with("vectors", list_prop(list_of(type_only("number")), INDEX_SERVER_VECTORS)),
        }
    }

    /// The parameters that a call must have, where any are named.
    fn required_list(&self) -> (res: Option<Names>)
        ensures
            opt_names(res) == self.required(),
    {
        match self {
            Tool::Dispatch => Some(Names::new().with("tasks")),
            Tool::Kill => Some(Names::new().with("pids")),
            Tool::Wait => Some(Names::new().with("pids")),
            Tool::GetOutput => Some(Names::new().with("pids")),
            Tool::Timer => Some(Names::new().with("label").with("duration")),
            Tool::BrowseServers => Some(Names::new()
                .with("vector")
                .with("top_k")
                .with("min_score")),
            Tool::BrowseServersBatch => Some(Names::new()
                .with("vectors")
                .with("top_k")
                .with("min_score")),
            Tool::IndexServer => Some(Names::new().with("server_id").with("vectors")),
            _ => None,
        }
    }

    /// The definition of the tool.
    pub fn define(&self) -> (res: Json)
        ensures
            res@ == self.definition(),
    {
        Fields::new().with("name", Json::text(self.name())).with(
            "description",
            Json::text(self.description()),
        ).with("inputSchema", schema(self.property_list(), self.required_list())).object()
    }
}

/// The definitions of all tools.
pub open spec fn all_definitions() -> JsonView {
    JsonView::Array(all_tools().map_values(|t: Tool| t.definition()))
}

/// The definitions of all tools.
pub fn tool_definitions() -> (res: Json)
    ensures
        res@ == all_definitions(),
{
    let tools = every_tool();
    let mut items: Vec<Json> = Vec::new();
    let mut i: usize = 0;
    while i < tools.len()
        invariant
            i <= tools@.len(),
            items@.len() == i,
            forall|k: int| 0 <= k < i ==> (#[trigger] items@[k])@ == tools@[k].definition(),
        decreases tools@.len() - i,
    {
        items.push(tools[i].define());
        i = i + 1;
    }
    let res = Json::Array(items);
    assert(res@->Array_0 =~= all_tools().map_values(|t: Tool| t.definition()));
    res
}

/// The tools that are listed are those that can be called, each under its own name: a listed
/// tool is found by its name, and a name that finds a tool is the name of a listed one.
pub proof fn listed_tools_can_be_called(tool: Tool, name: Seq<char>)
    ensures
        all_tools().contains(tool),
        tool_named(tool.label()) == Some(tool),
        tool_named(name) matches Some(found) ==> found.label() == name,
{
    reveal_strlit("dispatch");
    reveal_strlit("kill");
    reveal_strlit("wait");
    reveal_strlit("status");
    reveal_strlit("log");
    reveal_strlit("get_output");
    reveal_strlit("timer");
    reveal_strlit("browse_servers");
    reveal_strlit("browse_servers_batch");
    reveal_strlit("server_count");
    reveal_strlit("embedding_spec");
    reveal_strlit("sync_index");
    reveal_strlit("index_server");
    assert("dispatch"@.len() == 8 && "kill"@.len() == 4 && "wait"@.len() == 4);
    assert("status"@.len() == 6 && "log"@.len() == 3 && "get_output"@.len() == 10);
    assert("browse_servers_batch"@.len() == 20 && "server_count"@.len() == 12);
    // Names of one length differ in a character.
    assert("kill"@[0] != "wait"@[0]);
    assert("browse_servers"@[0] != "embedding_spec"@[0]);
    assert("get_output"@[0] != "sync_index"@[0]);
    assert("server_count"@[0] != "index_server"@[0]);
}

} // verus!
