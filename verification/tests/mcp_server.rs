use dispatch::error::DispatchError;
use dispatch::event::{TaskResult, WaitEvent};
use dispatch::json::{Fields, Json, JsonNumber};
use dispatch::mcp_server::{
    check_pids, decode_pids, dispatch_reply, handle_browse_servers, handle_browse_servers_batch,
    handle_dispatch, handle_embedding_spec, handle_get_output, handle_index_server,
    handle_initialize, handle_kill, handle_log, handle_server_count, handle_status,
    handle_sync_index, handle_timer, handle_tools_call, handle_tools_list, handle_wait,
    index_server_reply, kill_decoded, outputs_decoded, read_line, results_reply, serve,
    tasks_argument, timer_reply, value_reply, wait_decoded, wait_reply, Server, ServerStep,
    ServerTurn,
};
use dispatch::orchestrator::Orchestrator;
use dispatch::rpc::{content_of, JsonRpcRequest, JsonRpcResponse};
use dispatch::task::TaskDef;
use dispatch::tools::{tool_definitions, Tool};

fn id() -> Json {
    Json::number(17)
}

fn request(id: Option<Json>, method: &str) -> Result<JsonRpcRequest, String> {
    Ok(JsonRpcRequest {
        jsonrpc: "2.0".to_string(),
        id,
        method: method.to_string(),
        params: Json::text("params"),
    })
}

fn refused(message: &str) -> JsonRpcResponse {
    JsonRpcResponse::error(id(), -32602, message)
}

fn failed_with(message: &str) -> JsonRpcResponse {
    JsonRpcResponse::error(id(), -32000, message)
}

fn answered(text: &str, key: &str, value: Json) -> JsonRpcResponse {
    let result = Fields::new().with("content", content_of(text)).with(key, value).object();
    JsonRpcResponse::success(id(), result)
}

fn def(server: &str) -> TaskDef {
    TaskDef {
        server: server.to_string(),
        tool: "run".to_string(),
        params: Json::Null,
        remind_after: None,
        fire_wake: false,
        defer_output: false,
    }
}

fn pid_list(pids: &[u64]) -> Json {
    Json::Array(pids.iter().map(|p| Json::number(*p)).collect())
}

fn with_pids(pids: &[u64]) -> Json {
    Fields::new().with("pids", pid_list(pids)).object()
}

#[test]
fn lines_are_trimmed_and_blank_ones_skipped() {
    assert_eq!(read_line(""), None);
    assert_eq!(read_line(" \t\r"), None);
    assert_eq!(read_line("  {} \r"), Some("{}".to_string()));
}

#[test]
fn line_that_is_no_request() {
    assert_eq!(
        serve(Err("expected value at line 1 column 1".to_string())),
        ServerStep::Reply(JsonRpcResponse::error(
            Json::Null,
            -32700,
            "Parse error: expected value at line 1 column 1"
        ))
    );
}

#[test]
fn requests_are_routed() {
    let info = Fields::new()
        .with("name", Json::text("dispatch"))
        .with("version", Json::text("0.1.0"))
        .object();
    let capabilities = Fields::new().with("tools", Fields::new().object()).object();
    let hello = Fields::new()
        .with("protocolVersion", Json::text("2024-11-05"))
        .with("capabilities", capabilities)
        .with("serverInfo", info)
        .object();
    let initialized = JsonRpcResponse::success(id(), hello);
    assert_eq!(serve(request(Some(id()), "initialize")), ServerStep::Reply(initialized));
    assert_eq!(
        serve(request(Some(id()), "initialize")),
        ServerStep::Reply(handle_initialize(id()))
    );
    assert_eq!(serve(request(Some(id()), "notifications/initialized")), ServerStep::Skip);
    let listed = Fields::new().with("tools", tool_definitions()).object();
    assert_eq!(handle_tools_list(id()), JsonRpcResponse::success(id(), listed));
    assert_eq!(
        serve(request(Some(id()), "tools/list")),
        ServerStep::Reply(handle_tools_list(id()))
    );
    assert_eq!(
        serve(request(Some(id()), "tools/call")),
        ServerStep::CallTool { id: id(), params: Json::text("params") }
    );
    assert_eq!(
        serve(request(Some(id()), "ping")),
        ServerStep::Reply(JsonRpcResponse::success(id(), Fields::new().object()))
    );
    assert_eq!(
        serve(request(Some(id()), "resources/list")),
        ServerStep::Reply(JsonRpcResponse::error(id(), -32601, "Method not found"))
    );
    assert_eq!(serve(request(None, "resources/list")), ServerStep::Skip);
    assert_eq!(
        serve(request(None, "ping")),
        ServerStep::Reply(JsonRpcResponse::success(Json::Null, Fields::new().object()))
    );
}

#[test]
fn tool_calls_are_read() {
    let arguments = Fields::new().with("count", Json::number(3)).object();
    let params = Fields::new()
        .with("name", Json::text("log"))
        .with("arguments", arguments.clone())
        .object();
    assert_eq!(handle_tools_call(&id(), &params), Ok((Tool::Log, arguments)));
    let bare = Fields::new().with("name", Json::text("status")).object();
    assert_eq!(
        handle_tools_call(&id(), &bare),
        Ok((Tool::Status, Fields::new().object()))
    );
    let unknown = Fields::new().with("name", Json::text("respond")).object();
    assert_eq!(handle_tools_call(&id(), &unknown), Err(refused("Unknown tool: respond")));
    assert_eq!(handle_tools_call(&id(), &Json::Null), Err(refused("Unknown tool: ")));
}

#[test]
fn dispatch_calls() {
    let mut orch = Orchestrator::new();
    let none = Fields::new().object();
    assert_eq!(tasks_argument(&none), None);
    assert_eq!(
        handle_dispatch(&mut orch, &id(), &none, Ok(vec![def("a")])),
        Err(refused("Missing 'tasks' parameter"))
    );
    let arguments = Fields::new()
        .with("tasks", Json::Array(vec![Json::Null]))
        .with("strategy", Json::text("plan"))
        .with("session_id", Json::text("goal"))
        .object();
    assert!(tasks_argument(&arguments).is_some());
    assert_eq!(
        handle_dispatch(&mut orch, &id(), &arguments, Err("invalid type: null".to_string())),
        Err(refused("Invalid tasks: invalid type: null"))
    );
    assert_eq!(
        handle_dispatch(&mut orch, &id(), &arguments, Ok(vec![])),
        Err(refused("Empty task list"))
    );
    assert!(!orch.has_running_tasks());
    assert_eq!(
        handle_dispatch(&mut orch, &id(), &arguments, Ok(vec![def("a"), def("b")])),
        Ok(vec![1, 2])
    );
    assert!(orch.wake_text().starts_with("plan\n\nSignal window (last 2):\n"));
    assert_eq!(
        dispatch_reply(id(), &vec![1, 2], Ok("window".to_string())),
        answered("window", "pids", pid_list(&[1, 2]))
    );
    assert_eq!(
        dispatch_reply(id(), &vec![1], Err(DispatchError::ChannelClosed)),
        failed_with("Dispatch error: signal channel closed")
    );
}

#[test]
fn pid_arguments() {
    let mut orch = Orchestrator::new();
    let none = Fields::new().object();
    assert_eq!(decode_pids(&none), None);
    assert_eq!(
        handle_kill(&mut orch, id(), &none),
        refused("Missing 'pids' parameter")
    );
    assert_eq!(
        handle_wait(&mut orch, &id(), &none),
        Err(refused("Missing 'pids' parameter"))
    );
    assert_eq!(
        handle_get_output(&orch, id(), &none),
        refused("Missing 'pids' parameter")
    );
    let bad = Fields::new().with("pids", Json::Array(vec![Json::number(1), Json::text("2")])).object();
    let why = serde_json::from_str::<serde_json::Value>("[1,\"2\"]")
        .and_then(serde_json::from_value::<Vec<u64>>)
        .unwrap_err();
    let message = format!("Invalid pids: {}", why);
    assert_eq!(handle_kill(&mut orch, id(), &bad), refused(&message));
    assert_eq!(handle_wait(&mut orch, &id(), &bad), Err(refused(&message)));
    assert_eq!(handle_get_output(&orch, id(), &bad), refused(&message));
    assert_eq!(decode_pids(&with_pids(&[3, u64::MAX])), Some(Ok(vec![3, u64::MAX])));
    let signed = Json::Array(vec![Json::Number(JsonNumber::NegInt(5))]);
    let signed = Fields::new().with("pids", signed).object();
    assert_eq!(decode_pids(&signed), Some(Ok(vec![5])));
    let float = Json::Array(vec![Json::Number(JsonNumber::Float("5.0".to_string()))]);
    let float = Fields::new().with("pids", float).object();
    assert!(matches!(decode_pids(&float), Some(Err(_))));
    let object = Fields::new().with("pids", Fields::new().object()).object();
    assert!(matches!(decode_pids(&object), Some(Err(_))));
    assert_eq!(check_pids(&id(), Some(Ok(vec![4]))), Ok(vec![4]));
    assert_eq!(check_pids(&id(), Some(Err("e".to_string()))), Err(refused("Invalid pids: e")));
    assert_eq!(
        kill_decoded(&mut orch, id(), Some(Ok(vec![]))),
        answered("Signal window: (empty)", "killed", pid_list(&[]))
    );
    assert_eq!(wait_decoded(&mut orch, &id(), Some(Ok(vec![]))), Ok(vec![]));
    assert_eq!(outputs_decoded(&orch, id(), None), refused("Missing 'pids' parameter"));
}

#[test]
fn kill_calls() {
    let mut orch = Orchestrator::new();
    orch.dispatch(vec![def("a"), def("b")], None, None);
    let response = handle_kill(&mut orch, id(), &with_pids(&[2, 2]));
    assert_eq!(response, answered(&orch.log_text(20), "killed", pid_list(&[2])));
    assert_eq!(
        handle_kill(&mut orch, id(), &with_pids(&[1, 40])),
        failed_with("task not found: PID 40")
    );
    assert!(!orch.has_running_tasks());
}

#[test]
fn wait_calls() {
    let mut orch = Orchestrator::new();
    orch.dispatch(vec![def("a")], None, None);
    orch.wait_for_event(WaitEvent::TaskDone(TaskResult::of_call(1, Ok("x".to_string())))).unwrap();
    orch.dispatch(vec![def("b")], None, None);
    // All PIDs that were asked for are handed back, though only one of the tasks is running.
    assert_eq!(handle_wait(&mut orch, &id(), &with_pids(&[1, 2])), Ok(vec![1, 2]));
    assert_eq!(orch.signal_window().len(), 4);
    assert_eq!(
        handle_wait(&mut orch, &id(), &with_pids(&[7])),
        Err(failed_with("task not found: PID 7"))
    );
    assert_eq!(
        wait_reply(id(), &vec![1, 2], Ok("window".to_string())),
        answered("window", "waited", pid_list(&[1, 2]))
    );
    assert_eq!(
        wait_reply(id(), &vec![1], Err(DispatchError::ChannelClosed)),
        failed_with("Dispatch error: signal channel closed")
    );
}

#[test]
fn status_calls() {
    let mut orch = Orchestrator::new();
    orch.dispatch(vec![def("a")], None, None);
    let statuses = orch.status();
    let expected: Vec<Json> = statuses.iter().map(|s| s.json()).collect();
    assert_eq!(
        handle_status(id(), &statuses, "pretty"),
        answered("pretty", "tasks", Json::Array(expected))
    );
}

#[test]
fn log_calls() {
    let mut orch = Orchestrator::new();
    let defs: Vec<TaskDef> = (0..22).map(|_| def("a")).collect();
    orch.dispatch(defs, None, None);
    let three = Fields::new().with("count", Json::number(3)).object();
    assert_eq!(
        handle_log(&orch, id(), &three),
        answered(&orch.log_text(3), "entries", orch.log_json(3))
    );
    let odd = Fields::new().with("count", Json::text("3")).object();
    for arguments in [Fields::new().object(), odd] {
        assert_eq!(
            handle_log(&orch, id(), &arguments),
            answered(&orch.log_text(20), "entries", orch.log_json(20))
        );
    }
}

#[test]
fn get_output_calls() {
    let mut orch = Orchestrator::new();
    orch.dispatch(vec![def("a"), def("b")], None, None);
    orch.wait_for_event(WaitEvent::TaskDone(TaskResult::of_call(1, Ok("one".to_string())))).unwrap();
    orch.wait_for_event(WaitEvent::TaskDone(TaskResult::of_call(
        2,
        Err(DispatchError::DmcpError("e".to_string())),
    )))
    .unwrap();
    assert_eq!(handle_get_output(&orch, id(), &with_pids(&[])), refused("Empty pids list"));
    let h = orch.get_nonce(1).unwrap();
    let missing = "no stored output (task failed or PID unknown \u{2014} check signal log)";
    let text = format!(
        "PID 1 [hash={}]\none\n\n---\n\nPID 2: {}\n\n---\n\nPID 30: {}",
        h, missing, missing
    );
    let first =
        Fields::new().with("hash", Json::text(&h)).with("output", Json::text("one")).object();
    let outputs = Fields::new()
        .with("1", first.clone())
        .with("2", Json::Null)
        .with("30", Json::Null)
        .object();
    assert_eq!(
        handle_get_output(&orch, id(), &with_pids(&[1, 2, 30])),
        answered(&text, "outputs", outputs)
    );
    assert_eq!(
        handle_get_output(&orch, id(), &with_pids(&[1])),
        answered(
            &format!("PID 1 [hash={}]\none", h),
            "outputs",
            Fields::new().with("1", first).object()
        )
    );
}

#[test]
fn timer_calls() {
    let mut orch = Orchestrator::new();
    let label = Fields::new().with("label", Json::text("tea"));
    assert_eq!(
        handle_timer(&mut orch, &id(), &Fields::new().with("duration", Json::number(1)).object()),
        Err(refused("Missing 'label' parameter"))
    );
    assert_eq!(
        handle_timer(&mut orch, &id(), &Fields::new().with("label", Json::text("tea")).object()),
        Err(refused("Missing or invalid 'duration' parameter"))
    );
    assert!(orch.signal_window().is_empty());
    let metadata = Fields::new().with("goal_id", Json::text("g")).object();
    let arguments = label
        .with("duration", Json::number(90))
        .with("metadata", metadata.clone())
        .object();
    assert_eq!(handle_timer(&mut orch, &id(), &arguments), Ok(1));
    let payload = orch.signal_window().all()[0].payload.clone().unwrap();
    assert_eq!(payload.get("metadata"), Some(&metadata));
    assert_eq!(
        timer_reply(id(), 1, Ok("window".to_string())),
        answered("window", "pid", Json::number(1))
    );
    assert_eq!(
        timer_reply(id(), 1, Err(DispatchError::ChannelClosed)),
        failed_with("Timer error: signal channel closed")
    );
}

#[test]
fn vector_search_calls() {
    let text = || Ok("[0.5]".to_string());
    let score = || Some("0.25".to_string());
    let full = |key: &str| {
        Fields::new()
            .with(key, Json::Array(vec![]))
            .with("top_k", Json::number(4))
            .with("min_score", Json::number(0))
            .object()
    };
    assert_eq!(
        handle_browse_servers(&id(), &full("vector"), text(), score()),
        Ok(vec!["browse", "--vector", "[0.5]", "--top-k", "4", "--min-score", "0.25", "--json"]
            .iter()
            .map(|s| s.to_string())
            .collect())
    );
    assert_eq!(
        handle_browse_servers_batch(&id(), &full("vectors"), text(), score()),
        Ok(vec!["browse", "--vectors", "[0.5]", "--top-k", "4", "--min-score", "0.25", "--json"]
            .iter()
            .map(|s| s.to_string())
            .collect())
    );
    let none = Fields::new().object();
    let no_top = Fields::new().with("vector", Json::Null).with("vectors", Json::Null).object();
    let bad = || Err("invalid type".to_string());
    assert_eq!(
        handle_browse_servers(&id(), &none, bad(), None),
        Err(refused("Missing 'vector' parameter"))
    );
    assert_eq!(
        handle_browse_servers(&id(), &no_top, bad(), None),
        Err(refused("Invalid vector: invalid type"))
    );
    assert_eq!(
        handle_browse_servers(&id(), &no_top, text(), None),
        Err(refused("Missing or invalid 'top_k' parameter"))
    );
    assert_eq!(
        handle_browse_servers(&id(), &full("vector"), text(), None),
        Err(refused("Missing or invalid 'min_score' parameter"))
    );
    assert_eq!(
        handle_browse_servers_batch(&id(), &none, bad(), None),
        Err(refused("Missing 'vectors' parameter"))
    );
    assert_eq!(
        handle_browse_servers_batch(&id(), &no_top, bad(), None),
        Err(refused("Invalid vectors: invalid type"))
    );
    let found = Fields::new().with("b", Json::number(1)).with("a", Json::Bool(true)).object();
    assert_eq!(
        results_reply(id(), Ok(found.clone())),
        answered("{\"a\":true,\"b\":1}", "results", found)
    );
    assert_eq!(
        results_reply(id(), Err(DispatchError::DmcpError("x".to_string()))),
        failed_with("dmcp invocation failed: x")
    );
}

#[test]
fn registry_calls() {
    assert_eq!(
        handle_server_count(id(), Ok(12)),
        answered("12", "count", Json::number(12))
    );
    let error = || DispatchError::DmcpError("x".to_string());
    assert_eq!(
        handle_server_count(id(), Err(error())),
        failed_with("dmcp invocation failed: x")
    );
    assert_eq!(
        handle_embedding_spec(id(), Ok(Json::Array(vec![Json::Null]))),
        answered("[null]", "spec", Json::Array(vec![Json::Null]))
    );
    assert_eq!(
        value_reply(id(), "k", Ok((Json::Null, "text".to_string()))),
        answered("text", "k", Json::Null)
    );
    let printed = Fields::new().with("content", content_of("synced")).object();
    let printed = JsonRpcResponse::success(id(), printed);
    assert_eq!(handle_sync_index(id(), Ok("synced".to_string())), printed);
    assert_eq!(index_server_reply(id(), Ok("synced".to_string())), printed);
    assert_eq!(
        handle_sync_index(id(), Err(error())),
        failed_with("dmcp invocation failed: x")
    );
    assert_eq!(
        index_server_reply(id(), Err(error())),
        failed_with("dmcp invocation failed: x")
    );
}

#[test]
fn index_server_calls() {
    let arguments = Fields::new()
        .with("server_id", Json::text("git"))
        .with("vectors", Json::Array(vec![]))
        .object();
    assert_eq!(
        handle_index_server(&id(), &arguments, Ok("[]".to_string())),
        Ok(vec!["index-server", "git", "--vectors", "[]"].iter().map(|s| s.to_string()).collect())
    );
    assert_eq!(
        handle_index_server(&id(), &arguments, Err("e".to_string())),
        Err(refused("Invalid vectors: e"))
    );
    let only_id = Fields::new().with("server_id", Json::text("git")).object();
    assert_eq!(
        handle_index_server(&id(), &only_id, Err("e".to_string())),
        Err(refused("Missing 'vectors' parameter"))
    );
    let no_id = Fields::new().with("server_id", Json::number(1)).object();
    assert_eq!(
        handle_index_server(&id(), &no_id, Err("e".to_string())),
        Err(refused("Missing 'server_id' parameter"))
    );
}

#[test]
fn content_is_one_text() {
    let item = Fields::new().with("type", Json::text("text")).with("text", Json::text("t")).object();
    assert_eq!(content_of("t"), Json::Array(vec![item]));
    let ok = JsonRpcResponse::success(id(), Json::Null);
    assert_eq!(ok.jsonrpc, "2.0");
    assert!(ok.error.is_none());
    let bad = JsonRpcResponse::error(id(), -1, "m");
    assert!(bad.result.is_none());
    assert_eq!(bad.error.map(|e| (e.code, e.message, e.data)), Some((-1, "m".to_string(), None)));
}

#[test]
fn lines_get_their_responses_in_order() {
    let lines = vec![
        ("  ", None, "ping"),
        ("{1}", Some(Json::number(1)), "ping"),
        ("{2}", None, "notifications/initialized"),
        ("{3}", Some(Json::text("x")), "no/such"),
        ("{4}", None, "no/such"),
        ("{5}", None, "tools/list"),
        ("{6}", Some(Json::number(6)), "initialize"),
    ];
    let mut written = Vec::new();
    for (line, id, method) in lines {
        if read_line(line).is_none() {
            continue;
        }
        if let ServerStep::Reply(response) = serve(request(id, method)) {
            assert_ne!(response.result.is_some(), response.error.is_some());
            assert_eq!(response.jsonrpc, "2.0");
            written.push(response.id);
        }
    }
    assert_eq!(
        written,
        vec![Json::number(1), Json::text("x"), Json::Null, Json::number(6)]
    );
}

#[test]
fn server_takes_its_turns() {
    let mut server = Server::new();
    let quiet = vec![
        (" \t", request(Some(id()), "ping")),
        ("{}", request(Some(id()), "notifications/initialized")),
        ("{}", request(None, "no/such")),
    ];
    for (line, parsed) in quiet {
        match server.take_line(line, parsed) {
            ServerTurn::Done { server: next, written } => {
                assert_eq!(written, None);
                server = next;
            }
            ServerTurn::Call { .. } => panic!("no tool was called"),
        }
    }
    match server.take_line("{", Err("EOF".to_string())) {
        ServerTurn::Done { server: next, written } => {
            let error = JsonRpcResponse::error(Json::Null, -32700, "Parse error: EOF");
            assert_eq!(written, Some(error));
            server = next;
        }
        ServerTurn::Call { .. } => panic!("no tool was called"),
    }
    match server.take_line("{}", request(Some(id()), "tools/call")) {
        ServerTurn::Call { call } => {
            assert_eq!(call.id(), &id());
            assert_eq!(call.params(), &Json::text("params"));
            let (next, written) = call.answer(answered("t", "k", Json::Null));
            assert_eq!(written, answered("t", "k", Json::Null));
            server = next;
        }
        ServerTurn::Done { .. } => panic!("a tool was called"),
    }
    match server.take_line("{}", request(Some(id()), "tools/call")) {
        ServerTurn::Call { call } => {
            // A response to another request is written under the id of this one.
            let stray = JsonRpcResponse::success(Json::Null, Json::number(1));
            let (_, written) = call.answer(stray);
            assert_eq!(written, JsonRpcResponse::success(id(), Json::number(1)));
        }
        ServerTurn::Done { .. } => panic!("a tool was called"),
    }
}
