use dispatch::error::DispatchError;
use dispatch::json::{Fields, Json, JsonNumber};
use dispatch::mcp_client::{
    call_tool_args_with, count_or_error, json_or_error, read_call, read_reply, read_text,
    DmcpClient, DmcpOutput, DmcpReply,
};

fn printed(success: bool, stdout: &[u8], stderr: &[u8]) -> Result<DmcpOutput, String> {
    Ok(DmcpOutput {
        success,
        stdout: stdout.to_vec(),
        stderr: stderr.to_vec(),
    })
}

fn reply(success: bool, stdout: &str, stderr: &str) -> Result<DmcpReply, String> {
    Ok(DmcpReply {
        success,
        stdout: stdout.to_string(),
        stderr: stderr.to_string(),
    })
}

fn dmcp_error<T>(message: &str) -> Result<T, DispatchError> {
    Err(DispatchError::DmcpError(message.to_string()))
}

#[test]
fn dmcp_is_available_where_paths_succeeds() {
    assert_eq!(DmcpClient::check_available_args(), vec!["paths"]);
    assert_eq!(DmcpClient::check_available(printed(true, b"", b"")), Ok(()));
    assert_eq!(
        DmcpClient::check_available(printed(false, b"", b"x")),
        Err(DispatchError::DmcpNotFound)
    );
    assert_eq!(
        DmcpClient::check_available(Err("no such file".to_string())),
        Err(DispatchError::DmcpNotFound)
    );
}

#[test]
fn call_arguments() {
    assert_eq!(
        DmcpClient::call_tool_args("git", "pull", &Json::Null),
        vec!["call", "git", "pull"]
    );
    assert_eq!(
        DmcpClient::call_tool_args("git", "pull", &Fields::new().object()),
        vec!["call", "git", "pull"]
    );
    let params = Fields::new()
        .with("z", Json::Array(vec![Json::number(1), Json::text("\u{e9}\t")]))
        .with("a", Json::Number(JsonNumber::Float("1e300".to_string())))
        .object();
    assert_eq!(
        DmcpClient::call_tool_args("git", "pull", &params),
        vec!["call", "git", "pull", "--args", "{\"a\":1e+300,\"z\":[1,\"\u{e9}\\t\"]}"]
    );
    assert_eq!(
        call_tool_args_with("s", "t", Some("{}".to_string())),
        vec!["call", "s", "t", "--args", "{}"]
    );
}

#[test]
fn call_outcomes() {
    assert_eq!(
        DmcpClient::call_tool(printed(true, b"  done \n", b"noise")),
        Ok("done".to_string())
    );
    assert_eq!(DmcpClient::call_tool(printed(false, b"out", b" err\n")), dmcp_error("err"));
    assert_eq!(DmcpClient::call_tool(printed(false, b" out\n", b"")), dmcp_error("out"));
    // An error stream of white space alone still counts as one.
    assert_eq!(DmcpClient::call_tool(printed(false, b"out", b" \n")), dmcp_error(""));
    assert_eq!(
        DmcpClient::call_tool(Err("No such file".to_string())),
        dmcp_error("failed to spawn dmcp: No such file")
    );
    assert_eq!(read_call(reply(true, "\tx ", "")), Ok("x".to_string()));
    assert_eq!(read_call(reply(false, "o", "e")), dmcp_error("e"));
}

#[test]
fn output_is_read_as_lossy_utf8() {
    assert_eq!(
        DmcpClient::call_tool(printed(true, "gr\u{fc}n".as_bytes(), b"")),
        Ok("gr\u{fc}n".to_string())
    );
    assert_eq!(
        DmcpClient::call_tool(printed(true, b"a\xffb", b"")),
        Ok("a\u{fffd}b".to_string())
    );
    assert_eq!(read_reply(printed(true, b"x\xc3", b"y")), reply(true, "x\u{fffd}", "y"));
}

#[test]
fn browse_by_keywords() {
    let none: Vec<String> = vec![];
    assert_eq!(DmcpClient::browse_args(&none), vec!["browse", "--json"]);
    assert_eq!(
        DmcpClient::browse_args(&["git".to_string(), "version control".to_string()]),
        vec!["browse", "--json", "-k", "git", "-k", "version control"]
    );
    assert_eq!(
        DmcpClient::browse(printed(true, b" [1, {\"a\": null, \"b\": -2, \"c\": 2.50}] \n", b"")),
        Ok(Json::Array(vec![
            Json::number(1),
            Fields::new()
                .with("a", Json::Null)
                .with("b", Json::Number(JsonNumber::NegInt(-2)))
                .with("c", Json::Number(JsonNumber::Float("2.5".to_string())))
                .object(),
        ]))
    );
    assert_eq!(DmcpClient::browse(printed(false, b"[]", b" bad\n")), dmcp_error("bad"));
    assert_eq!(
        DmcpClient::browse(Err("gone".to_string())),
        dmcp_error("failed to spawn dmcp: gone")
    );
}

#[test]
fn answers_that_are_not_json() {
    let why = serde_json::from_str::<serde_json::Value>("{oops").unwrap_err().to_string();
    let message = |command: &str| format!("invalid JSON from dmcp {}: {}", command, why);
    assert_eq!(
        DmcpClient::browse(printed(true, b"{oops\n", b"")),
        dmcp_error(&message("browse"))
    );
    assert_eq!(
        DmcpClient::browse_vector(printed(true, b"{oops", b"")),
        dmcp_error(&message("browse"))
    );
    assert_eq!(
        DmcpClient::browse_vectors(printed(true, b"{oops", b"")),
        dmcp_error(&message("browse"))
    );
    assert_eq!(
        DmcpClient::embedding_spec(printed(true, b"{oops", b"")),
        dmcp_error(&message("embedding-spec"))
    );
    assert_eq!(
        DmcpClient::list_tools(printed(true, b"{oops", b"")),
        dmcp_error(&message("tools"))
    );
    assert_eq!(json_or_error(Err("e".to_string()), "x"), dmcp_error("invalid JSON from dmcp x: e"));
    assert_eq!(json_or_error(Ok(Json::Null), "x"), Ok(Json::Null));
}

#[test]
fn vector_searches() {
    assert_eq!(
        DmcpClient::browse_vector_args("[0.1,0.2]", 5, "0.75"),
        vec!["browse", "--vector", "[0.1,0.2]", "--top-k", "5", "--min-score", "0.75", "--json"]
    );
    assert_eq!(
        DmcpClient::browse_vectors_args("[[1.0]]", 10, "0"),
        vec!["browse", "--vectors", "[[1.0]]", "--top-k", "10", "--min-score", "0", "--json"]
    );
    assert_eq!(DmcpClient::browse_vector(printed(true, b"[]", b"")), Ok(Json::Array(vec![])));
    assert_eq!(DmcpClient::browse_vectors(printed(true, b"true", b"")), Ok(Json::Bool(true)));
}

#[test]
fn server_counts() {
    assert_eq!(DmcpClient::server_count_args(), vec!["count"]);
    assert_eq!(DmcpClient::server_count(printed(true, b" 42\n", b"")), Ok(42));
    assert_eq!(DmcpClient::server_count(printed(true, b"+7", b"")), Ok(7));
    assert_eq!(
        DmcpClient::server_count(printed(true, b"18446744073709551615", b"")),
        Ok(u64::MAX)
    );
    for bad in ["", "-1", "4 2", "x", "18446744073709551616", "+"] {
        let why = bad.parse::<u64>().unwrap_err();
        assert_eq!(
            DmcpClient::server_count(printed(true, bad.as_bytes(), b"")),
            dmcp_error(&format!("invalid count from dmcp: {}", why))
        );
    }
    assert_eq!(DmcpClient::server_count(printed(false, b"3", b"err ")), dmcp_error("err"));
    assert_eq!(count_or_error(Ok(3)), Ok(3));
    assert_eq!(count_or_error(Err("w".to_string())), dmcp_error("invalid count from dmcp: w"));
}

#[test]
fn index_commands() {
    assert_eq!(DmcpClient::sync_index_args(), vec!["sync-index"]);
    assert_eq!(DmcpClient::embedding_spec_args(), vec!["embedding-spec"]);
    assert_eq!(DmcpClient::list_tools_args("git"), vec!["tools", "git", "--json"]);
    assert_eq!(
        DmcpClient::index_server_args("git", "[[0.5]]"),
        vec!["index-server", "git", "--vectors", "[[0.5]]"]
    );
    assert_eq!(DmcpClient::sync_index(printed(true, b"ok \n", b"")), Ok("ok".to_string()));
    assert_eq!(DmcpClient::index_server(printed(true, b"in\n", b"")), Ok("in".to_string()));
    assert_eq!(DmcpClient::sync_index(printed(false, b"out", b"")), dmcp_error(""));
    assert_eq!(
        DmcpClient::index_server(Err("e".to_string())),
        dmcp_error("failed to spawn dmcp: e")
    );
    assert_eq!(read_text(reply(true, " t ", "")), Ok("t".to_string()));
    assert_eq!(
        DmcpClient::embedding_spec(printed(true, b"{\"dimensions\":384}", b"")),
        Ok(Fields::new().with("dimensions", Json::number(384)).object())
    );
}
