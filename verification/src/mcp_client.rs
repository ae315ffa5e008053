//! How dmcp, the manager of MCP servers, is called, and how its answers are read. Running the
//! program is left to the caller: each command has its arguments and the reading of its outcome.

use vstd::prelude::*;
use vstd::string::*;
use vstd::utf8::{decode_utf8, valid_utf8};

use crate::error::{DispatchError, DispatchErrorView};
use crate::json::{json_parse, json_text, opt_text, parse_json, Json, JsonView};
use crate::task::{params_text, write_params};
use crate::text::{decimal, decimal_text, trim, trimmed};

verus! {

/// What a run of dmcp left behind.
#[derive(Debug, PartialEq)]
pub struct DmcpOutput {
    pub success: bool,
    pub stdout: Vec<u8>,
    pub stderr: Vec<u8>,
}

/// The answer of dmcp as text.
#[derive(Debug, PartialEq)]
pub struct DmcpReply {
    pub success: bool,
    pub stdout: String,
    pub stderr: String,
}

/// The mathematical value of a `DmcpReply`.
pub struct DmcpReplyView {
    pub success: bool,
    pub stdout: Seq<char>,
    pub stderr: Seq<char>,
}

impl View for DmcpReply {
    type V = DmcpReplyView;

    open spec fn view(&self) -> DmcpReplyView {
        DmcpReplyView { success: self.success, stdout: self.stdout@, stderr: self.stderr@ }
    }
}

/// The text that `String::from_utf8_lossy` makes of bytes.
pub uninterp spec fn utf8_lossy(bytes: Seq<u8>) -> Seq<char>;

/// Calls `String::from_utf8_lossy`, whose result depends on the bytes alone. Bytes that are
/// valid UTF-8 are decoded as they stand.
#[verifier::external_body]
fn lossy_text(bytes: &[u8]) -> (res: String)
    ensures
        res@ == utf8_lossy(bytes@),
        valid_utf8(bytes@) ==> res@ == decode_utf8(bytes@),
{
    String::from_utf8_lossy(bytes).into_owned()
}

/// The value of a sequence of decimal digits.
pub open spec fn digits_value(s: Seq<char>) -> nat
    decreases s.len(),
{
    if s.len() == 0 {
        0
    } else {
        digits_value(s.drop_last()) * 10 + (s.last() as int - '0' as int) as nat
    }
}

/// The number that a text denotes: an optional plus sign and decimal digits.
pub open spec fn count_value(s: Seq<char>) -> Option<u64> {
    let digits = if s.len() > 0 && s[0] == '+' {
        s.skip(1)
    } else {
        s
    };
    if digits.len() > 0 && (forall|i: int|
        0 <= i < digits.len() ==> '0' <= #[trigger] digits[i] <= '9') && digits_value(digits)
        <= u64::MAX {
        Some(digits_value(digits) as u64)
    } else {
        None
    }
}

/// The message with which `str::parse` refuses a text as a number.
pub uninterp spec fn count_error(s: Seq<char>) -> Seq<char>;

/// Calls `str::parse` for a `u64`: an optional plus sign followed by decimal digits whose value
/// fits. Any other text is refused with a message that depends on the text alone.
#[verifier::external_body]
fn parse_count(s: &str) -> (res: Result<u64, String>)
    ensures
        match res {
            Ok(n) => count_value(s@) == Some(n),
            Err(e) => count_value(s@) is None && e@ == count_error(s@),
        },
{
    s.parse::<u64>().map_err(|e| e.to_string())
}

/// The views of a list of texts.
pub open spec fn texts(list: Seq<String>) -> Seq<Seq<char>> {
    list.map_values(|s: String| s@)
}

/// Adds an argument.
fn push_arg(args: &mut Vec<String>, arg: &str)
    ensures
        texts(final(args)@) == texts(old(args)@).push(arg@),
{
    args.push(arg.to_owned());
}

/// No arguments.
fn no_args() -> (res: Vec<String>)
    ensures
        texts(res@) == Seq::<Seq<char>>::empty(),
{
    let res: Vec<String> = Vec::new();
    res
}

/// What is known of a run of dmcp: its answer, or the text of the error that kept it from
/// starting.
pub open spec fn reply_of(run: Result<DmcpOutput, String>) -> Result<DmcpReplyView, Seq<char>> {
    match run {
        Ok(out) => Ok(
            DmcpReplyView {
                success: out.success,
                stdout: utf8_lossy(out.stdout@),
                stderr: utf8_lossy(out.stderr@),
            },
        ),
        Err(e) => Err(e@),
    }
}

/// The view of an answer, or of the text of the error that kept dmcp from starting.
pub open spec fn reply_view(reply: Result<DmcpReply, String>) -> Result<
    DmcpReplyView,
    Seq<char>,
> {
    match reply {
        Ok(r) => Ok(r@),
        Err(e) => Err(e@),
    }
}

/// The error where dmcp could not be started.
pub open spec fn not_started(e: Seq<char>) -> DispatchErrorView {
    DispatchErrorView::DmcpError("failed to spawn dmcp: "@ + e)
}

/// The error where a command failed and said why.
pub open spec fn failed(message: Seq<char>) -> DispatchErrorView {
    DispatchErrorView::DmcpError(trimmed(message))
}

/// The result of a tool call.
pub open spec fn call_result(reply: Result<DmcpReplyView, Seq<char>>) -> Result<
    Seq<char>,
    DispatchErrorView,
> {
    match reply {
        Err(e) => Err(not_started(e)),
        Ok(r) => if r.success {
            Ok(trimmed(r.stdout))
        } else if r.stderr.len() == 0 {
            Err(failed(r.stdout))
        } else {
            Err(failed(r.stderr))
        },
    }
}

/// The result of a command that answers with text.
pub open spec fn text_result(reply: Result<DmcpReplyView, Seq<char>>) -> Result<
    Seq<char>,
    DispatchErrorView,
> {
    match reply {
        Err(e) => Err(not_started(e)),
        Ok(r) => if r.success {
            Ok(trimmed(r.stdout))
        } else {
            Err(failed(r.stderr))
        },
    }
}

/// The result of a command that answers with JSON, given what a parser makes of the answer.
pub open spec fn json_result(
    text: Result<Seq<char>, DispatchErrorView>,
    parsed: Result<JsonView, Seq<char>>,
    command: Seq<char>,
) -> Result<JsonView, DispatchErrorView> {
    match text {
        Err(e) => Err(e),
        Ok(_) => match parsed {
            Ok(v) => Ok(v),
            Err(e) => Err(
                DispatchErrorView::DmcpError("invalid JSON from dmcp "@ + command + ": "@ + e),
            ),
        },
    }
}

/// The result of a command that answers with JSON.
pub open spec fn json_answer(reply: Result<DmcpReplyView, Seq<char>>, command: Seq<char>) -> Result<
    JsonView,
    DispatchErrorView,
> {
    let text = text_result(reply);
    json_result(text, json_parse(text->Ok_0), command)
}

/// The result of a command that answers with a number, given what a parser makes of the answer.
pub open spec fn count_result(
    text: Result<Seq<char>, DispatchErrorView>,
    parsed: Result<u64, Seq<char>>,
) -> Result<u64, DispatchErrorView> {
    match text {
        Err(e) => Err(e),
        Ok(_) => match parsed {
            Ok(n) => Ok(n),
            Err(e) => Err(DispatchErrorView::DmcpError("invalid count from dmcp: "@ + e)),
        },
    }
}

/// What `str::parse` makes of a text.
pub open spec fn count_parse(s: Seq<char>) -> Result<u64, Seq<char>> {
    match count_value(s) {
        Some(n) => Ok(n),
        None => Err(count_error(s)),
    }
}

/// The view of a result that is text.
pub open spec fn text_outcome(res: Result<String, DispatchError>) -> Result<
    Seq<char>,
    DispatchErrorView,
> {
    match res {
        Ok(s) => Ok(s@),
        Err(e) => Err(e@),
    }
}

/// The view of a result that is JSON.
pub open spec fn json_outcome(res: Result<Json, DispatchError>) -> Result<
    JsonView,
    DispatchErrorView,
> {
    match res {
        Ok(v) => Ok(v@),
        Err(e) => Err(e@),
    }
}

/// The view of a result that is a number.
pub open spec fn count_outcome(res: Result<u64, DispatchError>) -> Result<u64, DispatchErrorView> {
    match res {
        Ok(n) => Ok(n),
        Err(e) => Err(e@),
    }
}

/// The answer of a run of dmcp as text.
pub fn read_reply(run: Result<DmcpOutput, String>) -> (res: Result<DmcpReply, String>)
    ensures
        reply_view(res) == reply_of(run),
{
    match run {
        Ok(out) => Ok(
            DmcpReply {
                success: out.success,
                stdout: lossy_text(out.stdout.as_slice()),
                stderr: lossy_text(out.stderr.as_slice()),
            },
        ),
        Err(e) => Err(e),
    }
}

/// The error where dmcp could not be started.
fn spawn_error(e: String) -> (res: DispatchError)
    ensures
        res@ == not_started(e@),
{
    DispatchError::DmcpError("failed to spawn dmcp: ".to_owned().concat(e.as_str()))
}

/// Reads the answer to a tool call. Where the call failed, the standard error says why, or the
/// standard output where that is empty.
pub fn read_call(reply: Result<DmcpReply, String>) -> (res: Result<String, DispatchError>)
    ensures
        text_outcome(res) == call_result(reply_view(reply)),
{
    match reply {
        Err(e) => Err(spawn_error(e)),
        Ok(r) => if r.success {
            Ok(trim(r.stdout.as_str()))
        } else if r.stderr.as_str().is_empty() {
            Err(DispatchError::DmcpError(trim(r.stdout.as_str())))
        } else {
            Err(DispatchError::DmcpError(trim(r.stderr.as_str())))
        },
    }
}

/// Reads an answer that is text.
pub fn read_text(reply: Result<DmcpReply, String>) -> (res: Result<String, DispatchError>)
    ensures
        text_outcome(res) == text_result(reply_view(reply)),
{
    match reply {
        Err(e) => Err(spawn_error(e)),
        Ok(r) => if r.success {
            Ok(trim(r.stdout.as_str()))
        } else {
            Err(DispatchError::DmcpError(trim(r.stderr.as_str())))
        },
    }
}

/// The view of what a parser makes of a text.
pub open spec fn parsed_view(parsed: Result<Json, String>) -> Result<JsonView, Seq<char>> {
    match parsed {
        Ok(v) => Ok(v@),
        Err(e) => Err(e@),
    }
}

/// The result of a command that answers with JSON, given what a parser makes of its answer.
pub fn json_or_error(parsed: Result<Json, String>, command: &str) -> (res: Result<
    Json,
    DispatchError,
>)
    ensures
        json_outcome(res) == json_result(Ok(Seq::empty()), parsed_view(parsed), command@),
{
    match parsed {
        Ok(v) => Ok(v),
        Err(e) => {
            let mut message = "invalid JSON from dmcp ".to_owned();
            message.append(command);
            message.append(": ");
            message.append(e.as_str());
            Err(DispatchError::DmcpError(message))
        },
    }
}

/// The view of what a parser makes of a number.
pub open spec fn parsed_count_view(parsed: Result<u64, String>) -> Result<u64, Seq<char>> {
    match parsed {
        Ok(n) => Ok(n),
        Err(e) => Err(e@),
    }
}

/// The result of a command that answers with a number, given what a parser makes of its answer.
pub fn count_or_error(parsed: Result<u64, String>) -> (res: Result<u64, DispatchError>)
    ensures
        count_outcome(res) == count_result(Ok(Seq::empty()), parsed_count_view(parsed)),
{
    match parsed {
        Ok(n) => Ok(n),
        Err(e) => Err(
            DispatchError::DmcpError("invalid count from dmcp: ".to_owned().concat(e.as_str())),
        ),
    }
}

/// Reads an answer that is JSON.
fn read_json(run: Result<DmcpOutput, String>, command: &str) -> (res: Result<Json, DispatchError>)
    ensures
        json_outcome(res) == json_answer(reply_of(run), command@),
{
    match read_text(read_reply(run)) {
        Err(e) => Err(e),
        Ok(text) => json_or_error(parse_json(text.as_str()), command),
    }
}

/// The arguments of a tool call, given the text of its parameters where it has any.
pub open spec fn call_args(server: Seq<char>, tool: Seq<char>, params: Option<Seq<char>>) -> Seq<
    Seq<char>,
> {
    let head = Seq::empty().push("call"@).push(server).push(tool);
    match params {
        Some(text) => head.push("--args"@).push(text),
        None => head,
    }
}

/// The arguments of a tool call, given the text of its parameters where it has any.
pub fn call_tool_args_with(server: &str, tool: &str, params: Option<String>) -> (res: Vec<String>)
    ensures
        texts(res@) == call_args(server@, tool@, opt_text(params)),
{
    let mut args = no_args();
    push_arg(&mut args, "call");
    push_arg(&mut args, server);
    push_arg(&mut args, tool);
    if let Some(text) = params {
        push_arg(&mut args, "--args");
        push_arg(&mut args, text.as_str());
    }
    args
}

/// The arguments that name keywords.
pub open spec fn keyword_args(keywords: Seq<Seq<char>>) -> Seq<Seq<char>>
    decreases keywords.len(),
{
    if keywords.len() == 0 {
        Seq::empty().push("browse"@).push("--json"@)
    } else {
        keyword_args(keywords.drop_last()).push("-k"@).push(keywords.last())
    }
}

/// The arguments of a vector search.
pub open spec fn search_args(
    option: Seq<char>,
    vectors: Seq<char>,
    top_k: u64,
    min_score: Seq<char>,
) -> Seq<Seq<char>> {
    Seq::empty().push("browse"@).push(option).push(vectors).push("--top-k"@).push(
        decimal(top_k as nat),
    ).push("--min-score"@).push(min_score).push("--json"@)
}

/// The arguments of a vector search.
fn search_arg_list(option: &str, vectors: &str, top_k: u64, min_score: &str) -> (res: Vec<String>)
    ensures
        texts(res@) == search_args(option@, vectors@, top_k, min_score@),
{
    let mut args = no_args();
    push_arg(&mut args, "browse");
    push_arg(&mut args, option);
    push_arg(&mut args, vectors);
    push_arg(&mut args, "--top-k");
    push_arg(&mut args, decimal_text(top_k).as_str());
    push_arg(&mut args, "--min-score");
    push_arg(&mut args, min_score);
    push_arg(&mut args, "--json");
    args
}

/// The arguments of the command that indexes a server.
pub open spec fn index_args(server_id: Seq<char>, vectors: Seq<char>) -> Seq<Seq<char>> {
    Seq::empty().push("index-server"@).push(server_id).push("--vectors"@).push(vectors)
}

/// The argument list of a command without arguments of its own.
fn single_arg(command: &str) -> (res: Vec<String>)
    ensures
        texts(res@) == Seq::empty().push(command@),
{
    let mut args = no_args();
    push_arg(&mut args, command);
    args
}

/// The arguments of the command that lists the tools of a server.
pub open spec fn tools_args(server: Seq<char>) -> Seq<Seq<char>> {
    Seq::empty().push("tools"@).push(server).push("--json"@)
}

/// Whether dmcp is available, given what a run of it left behind.
pub open spec fn availability(run: Result<DmcpOutput, String>) -> Result<(), DispatchErrorView> {
    if run matches Ok(out) && out.success {
        Ok(())
    } else {
        Err(DispatchErrorView::DmcpNotFound)
    }
}

/// The view of a result without a value.
pub open spec fn unit_outcome(res: Result<(), DispatchError>) -> Result<(), DispatchErrorView> {
    match res {
        Ok(_) => Ok(()),
        Err(e) => Err(e@),
    }
}

/// The result of the command that counts the visible servers.
pub open spec fn count_answer(reply: Result<DmcpReplyView, Seq<char>>) -> Result<
    u64,
    DispatchErrorView,
> {
    let text = text_result(reply);
    count_result(text, count_parse(text->Ok_0))
}

/// Client for invoking dmcp commands. All management of MCP servers is left to dmcp.
pub struct DmcpClient;

impl DmcpClient {
    /// The arguments of the command that tells whether dmcp is there: `dmcp paths`.
    pub fn check_available_args() -> (res: Vec<String>)
        ensures
            texts(res@) == Seq::empty().push("paths"@),
    {
        single_arg("paths")
    }

    /// Whether dmcp is available: it could be started and succeeded.
    pub fn check_available(run: Result<DmcpOutput, String>) -> (res: Result<(), DispatchError>)
        ensures
            unit_outcome(res) == availability(run),
    {
        match run {
            Ok(out) => if out.success {
                Ok(())
            } else {
                Err(DispatchError::DmcpNotFound)
            },
            Err(_) => Err(DispatchError::DmcpNotFound),
        }
    }

    /// The arguments of a tool call: `dmcp call <server> <tool> --args <json>`, without `--args`
    /// where there are no parameters.
    pub fn call_tool_args(server: &str, tool: &str, params: &Json) -> (res: Vec<String>)
        ensures
            texts(res@) == call_args(server@, tool@, params_text(params@)),
    {
        call_tool_args_with(server, tool, write_params(params))
    }

    /// The output of a tool call.
    pub fn call_tool(run: Result<DmcpOutput, String>) -> (res: Result<String, DispatchError>)
        ensures
            text_outcome(res) == call_result(reply_of(run)),
    {
        read_call(read_reply(run))
    }

    /// The arguments of a keyword search: `dmcp browse --json -k <keyword> ...`.
    pub fn browse_args(keywords: &[String]) -> (res: Vec<String>)
        ensures
            texts(res@) == keyword_args(texts(keywords@)),
    {
        let ghost all = texts(keywords@);
        let mut args = no_args();
        push_arg(&mut args, "browse");
        push_arg(&mut args, "--json");
        let mut i: usize = 0;
        while i < keywords.len()
            invariant
                i <= keywords@.len() == all.len(),
                all == texts(keywords@),
                texts(args@) == keyword_args(all.take(i as int)),
            decreases keywords@.len() - i,
        {
            assert(all.take(i + 1).drop_last() =~= all.take(i as int));
            push_arg(&mut args, "-k");
            push_arg(&mut args, keywords[i].as_str());
            i = i + 1;
        }
        assert(all.take(i as int) =~= all);
        args
    }

    /// What a keyword search found.
    pub fn browse(run: Result<DmcpOutput, String>) -> (res: Result<Json, DispatchError>)
        ensures
            json_outcome(res) == json_answer(reply_of(run), "browse"@),
    {
        read_json(run, "browse")
    }

    /// The arguments of a search by one vector, given the texts of the vector and of the score:
    /// `dmcp browse --vector <json> --top-k N --min-score F --json`.
    pub fn browse_vector_args(vector: &str, top_k: u64, min_score: &str) -> (res: Vec<String>)
        ensures
            texts(res@) == search_args("--vector"@, vector@, top_k, min_score@),
    {
        search_arg_list("--vector", vector, top_k, min_score)
    }

    /// What a search by one vector found.
    pub fn browse_vector(run: Result<DmcpOutput, String>) -> (res: Result<Json, DispatchError>)
        ensures
            json_outcome(res) == json_answer(reply_of(run), "browse"@),
    {
        read_json(run, "browse")
    }

    /// The arguments of a search by many vectors, given the texts of the vectors and of the score:
    /// `dmcp browse --vectors <json> --top-k N --min-score F --json`.
    pub fn browse_vectors_args(vectors: &str, top_k: u64, min_score: &str) -> (res: Vec<String>)
        ensures
            texts(res@) == search_args("--vectors"@, vectors@, top_k, min_score@),
    {
        search_arg_list("--vectors", vectors, top_k, min_score)
    }

    /// What a search by many vectors found.
    pub fn browse_vectors(run: Result<DmcpOutput, String>) -> (res: Result<Json, DispatchError>)
        ensures
            json_outcome(res) == json_answer(reply_of(run), "browse"@),
    {
        read_json(run, "browse")
    }

    /// The arguments of the command that counts the visible servers: `dmcp count`.
    pub fn server_count_args() -> (res: Vec<String>)
        ensures
            texts(res@) == Seq::empty().push("count"@),
    {
        single_arg("count")
    }

    /// The number of visible servers.
    pub fn server_count(run: Result<DmcpOutput, String>) -> (res: Result<u64, DispatchError>)
        ensures
            count_outcome(res) == count_answer(reply_of(run)),
    {
        match read_text(read_reply(run)) {
            Err(e) => Err(e),
            Ok(text) => count_or_error(parse_count(text.as_str())),
        }
    }

    /// The arguments of the command for the embedding model: `dmcp embedding-spec`.
    pub fn embedding_spec_args() -> (res: Vec<String>)
        ensures
            texts(res@) == Seq::empty().push("embedding-spec"@),
    {
        single_arg("embedding-spec")
    }

    /// The specification of the embedding model of the registry.
    pub fn embedding_spec(run: Result<DmcpOutput, String>) -> (res: Result<Json, DispatchError>)
        ensures
            json_outcome(res) == json_answer(reply_of(run), "embedding-spec"@),
    {
        read_json(run, "embedding-spec")
    }

    /// The arguments of the command that refreshes the vector index: `dmcp sync-index`.
    pub fn sync_index_args() -> (res: Vec<String>)
        ensures
            texts(res@) == Seq::empty().push("sync-index"@),
    {
        single_arg("sync-index")
    }

    /// What the refresh of the vector index printed.
    pub fn sync_index(run: Result<DmcpOutput, String>) -> (res: Result<String, DispatchError>)
        ensures
            text_outcome(res) == text_result(reply_of(run)),
    {
        read_text(read_reply(run))
    }

    /// The arguments of the command that indexes a server, given the text of the vectors:
    /// `dmcp index-server <id> --vectors <json>`.
    pub fn index_server_args(server_id: &str, vectors: &str) -> (res: Vec<String>)
        ensures
            texts(res@) == index_args(server_id@, vectors@),
    {
        let mut args = no_args();
        push_arg(&mut args, "index-server");
        push_arg(&mut args, server_id);
        push_arg(&mut args, "--vectors");
        push_arg(&mut args, vectors);
        args
    }

    /// What the indexing of a server printed.
    pub fn index_server(run: Result<DmcpOutput, String>) -> (res: Result<String, DispatchError>)
        ensures
            text_outcome(res) == text_result(reply_of(run)),
    {
        read_text(read_reply(run))
    }

    /// The arguments of the command that lists the tools of a server: `dmcp tools <id> --json`.
    pub fn list_tools_args(server: &str) -> (res: Vec<String>)
        ensures
            texts(res@) == tools_args(server@),
    {
        let mut args = no_args();
        push_arg(&mut args, "tools");
        push_arg(&mut args, server);
        push_arg(&mut args, "--json");
        args
    }

    /// The tools of a server.
    pub fn list_tools(run: Result<DmcpOutput, String>) -> (res: Result<Json, DispatchError>)
        ensures
            json_outcome(res) == json_answer(reply_of(run), "tools"@),
    {
        read_json(run, "tools")
    }
}

// --- What is passed to dmcp, and what becomes of its answer ---

/// A tool call passes on the server, the tool and the text of all the parameters, which are left
/// out where they are `null` or an object without entries.
pub proof fn call_passes_everything_on(server: Seq<char>, tool: Seq<char>, params: JsonView)
    ensures
        ({
            let args = call_args(server, tool, params_text(params));
            let blank = params is Null || params == JsonView::Object(Seq::empty());
            &&& args.len() == if blank {
                3int
            } else {
                5
            }
            &&& args[0] == "call"@ && args[1] == server && args[2] == tool
            &&& !blank ==> args[3] == "--args"@ && args[4] == json_text(params)
        }),
{
}

/// A keyword search passes on each keyword, in their order, after an option of its own.
pub proof fn search_passes_every_keyword_on(keywords: Seq<Seq<char>>, i: int)
    ensures
        ({
            let args = keyword_args(keywords);
            &&& args.len() == 2 + 2 * keywords.len()
            &&& args[0] == "browse"@ && args[1] == "--json"@
            &&& 0 <= i < keywords.len() ==> args[2 + 2 * i] == "-k"@ && args[3 + 2 * i]
                == keywords[i]
        }),
    decreases keywords.len(),
{
    if keywords.len() > 0 {
        search_passes_every_keyword_on(keywords.drop_last(), i);
    }
}

/// The other commands pass on all that they are given, each value after its option.
pub proof fn commands_pass_everything_on(
    option: Seq<char>,
    vectors: Seq<char>,
    top_k: u64,
    min_score: Seq<char>,
    server: Seq<char>,
)
    ensures
        ({
            let args = search_args(option, vectors, top_k, min_score);
            &&& args.len() == 8
            &&& args[0] == "browse"@
            &&& args[1] == option && args[2] == vectors
            &&& args[3] == "--top-k"@ && args[4] == decimal(top_k as nat)
            &&& args[5] == "--min-score"@ && args[6] == min_score
            &&& args[7] == "--json"@
        }),
        ({
            let args = index_args(server, vectors);
            &&& args.len() == 4
            &&& args[0] == "index-server"@ && args[1] == server
            &&& args[2] == "--vectors"@ && args[3] == vectors
        }),
        ({
            let args = tools_args(server);
            &&& args.len() == 3
            &&& args[0] == "tools"@ && args[1] == server && args[2] == "--json"@
        }),
{
}

/// What a run of dmcp left behind is read as text, each stream for itself.
pub proof fn streams_are_kept_apart(run: Result<DmcpOutput, String>)
    ensures
        match (run, reply_of(run)) {
            (Ok(out), Ok(r)) => {
                &&& r.success == out.success
                &&& r.stdout == utf8_lossy(out.stdout@)
                &&& r.stderr == utf8_lossy(out.stderr@)
            },
            (Err(e), Err(text)) => text == e@,
            _ => false,
        },
        availability(run) is Ok <==> run is Ok && (run->Ok_0).success,
        availability(run) matches Err(e) ==> e is DmcpNotFound,
{
}

/// A command succeeds where dmcp was started and succeeded, with all that it printed but for the
/// white space around it. Otherwise the error holds why it was not started, or what it said on the
/// standard error; of a tool call that said nothing there, what it printed.
pub proof fn commands_succeed_with_what_was_printed(reply: Result<DmcpReplyView, Seq<char>>)
    ensures
        call_result(reply) is Ok <==> reply is Ok && (reply->Ok_0).success,
        text_result(reply) is Ok <==> reply is Ok && (reply->Ok_0).success,
        call_result(reply) matches Ok(text) ==> text == trimmed((reply->Ok_0).stdout),
        text_result(reply) matches Ok(text) ==> text == trimmed((reply->Ok_0).stdout),
        reply matches Err(why) ==> {
            let e = DispatchErrorView::DmcpError("failed to spawn dmcp: "@ + why);
            call_result(reply) == Err::<Seq<char>, _>(e) && text_result(reply) == Err::<
                Seq<char>,
                _,
            >(e)
        },
        reply matches Ok(r) ==> !r.success ==> {
            &&& text_result(reply) == Err::<Seq<char>, _>(
                DispatchErrorView::DmcpError(trimmed(r.stderr)),
            )
            &&& r.stderr.len() > 0 ==> call_result(reply) == Err::<Seq<char>, _>(
                DispatchErrorView::DmcpError(trimmed(r.stderr)),
            )
            &&& r.stderr.len() == 0 ==> call_result(reply) == Err::<Seq<char>, _>(
                DispatchErrorView::DmcpError(trimmed(r.stdout)),
            )
        },
{
}

/// A command that answers with JSON or with a number gives what a parser makes of the text that
/// was printed, and the error of the parser where it makes nothing of it. Where the command failed
/// its error stays.
pub proof fn answers_are_parsed(reply: Result<DmcpReplyView, Seq<char>>, command: Seq<char>)
    ensures
        text_result(reply) matches Err(e) ==> json_answer(reply, command) == Err::<JsonView, _>(e)
            && count_answer(reply) == Err::<u64, _>(e),
        text_result(reply) matches Ok(text) ==> match json_parse(text) {
            Ok(v) => json_answer(reply, command) == Ok::<_, DispatchErrorView>(v),
            Err(e) => json_answer(reply, command) == Err::<JsonView, _>(
                DispatchErrorView::DmcpError("invalid JSON from dmcp "@ + command + ": "@ + e),
            ),
        },
        text_result(reply) matches Ok(text) ==> match count_value(text) {
            Some(n) => count_answer(reply) == Ok::<_, DispatchErrorView>(n),
            None => count_answer(reply) == Err::<u64, _>(
                DispatchErrorView::DmcpError("invalid count from dmcp: "@ + count_error(text)),
            ),
        },
{
}

/// The number of servers that dmcp prints in decimal digits is the number that is given.
pub proof fn printed_count_is_given(n: u64, stderr: Seq<char>, stdout: Seq<char>)
    requires
        trimmed(stdout) == decimal(n as nat),
    ensures
        count_answer(Ok(DmcpReplyView { success: true, stdout, stderr })) == Ok::<
            u64,
            DispatchErrorView,
        >(n),
{
    crate::text::written_number_is_read_back(n as nat, 0);
}

} // verus!
