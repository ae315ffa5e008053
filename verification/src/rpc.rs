//! JSON-RPC messages.

use vstd::prelude::*;

use crate::json::{opt_json_view, Fields, Json, JsonView};

verus! {

/// A request as a client sends it.
#[derive(Debug, PartialEq)]
pub struct JsonRpcRequest {
    pub jsonrpc: String,
    pub id: Option<Json>,
    pub method: String,
    pub params: Json,
}

/// The error of a response.
#[derive(Debug, PartialEq)]
pub struct JsonRpcError {
    pub code: i64,
    pub message: String,
    pub data: Option<Json>,
}

/// A response.
#[derive(Debug, PartialEq)]
pub struct JsonRpcResponse {
    pub jsonrpc: String,
    pub id: Json,
    pub result: Option<Json>,
    pub error: Option<JsonRpcError>,
}

/// The mathematical value of a `JsonRpcError`.
pub struct RpcErrorView {
    pub code: i64,
    pub message: Seq<char>,
    pub data: Option<JsonView>,
}

/// The mathematical value of a `JsonRpcResponse`.
pub struct ResponseView {
    pub jsonrpc: Seq<char>,
    pub id: JsonView,
    pub result: Option<JsonView>,
    pub error: Option<RpcErrorView>,
}

impl View for JsonRpcError {
    type V = RpcErrorView;

    open spec fn view(&self) -> RpcErrorView {
        RpcErrorView {
            code: self.code,
            message: self.message@,
            data: opt_json_view(self.data),
        }
    }
}

impl View for JsonRpcResponse {
    type V = ResponseView;

    open spec fn view(&self) -> ResponseView {
        ResponseView {
            jsonrpc: self.jsonrpc@,
            id: self.id@,
            result: opt_json_view(self.result),
            error: match self.error {
                Some(e) => Some(e@),
                None => None,
            },
        }
    }
}

/// The response to a request that succeeded.
pub open spec fn success_view(id: JsonView, result: JsonView) -> ResponseView {
    ResponseView { jsonrpc: "2.0"@, id, result: Some(result), error: None }
}

/// The response to a request that failed.
pub open spec fn error_view(id: JsonView, code: i64, message: Seq<char>) -> ResponseView {
    ResponseView {
        jsonrpc: "2.0"@,
        id,
        result: None,
        error: Some(RpcErrorView { code, message, data: None }),
    }
}

impl JsonRpcResponse {
    /// The response to a request that succeeded.
    pub fn success(id: Json, result: Json) -> (res: JsonRpcResponse)
        ensures
            res@ == success_view(id@, result@),
    {
        JsonRpcResponse { jsonrpc: "2.0".to_owned(), id, result: Some(result), error: None }
    }

    /// The response to a request that failed.
    pub fn error(id: Json, code: i64, message: &str) -> (res: JsonRpcResponse)
        ensures
            res@ == error_view(id@, code, message@),
    {
        JsonRpcResponse {
            jsonrpc: "2.0".to_owned(),
            id,
            result: None,
            error: Some(JsonRpcError { code, message: message.to_owned(), data: None }),
        }
    }
}

/// The content of a tool's result that is one text.
pub open spec fn text_content(text: Seq<char>) -> JsonView {
    JsonView::Array(
        Seq::empty().push(
            JsonView::Object(
                Seq::empty().push(("type"@, JsonView::Str("text"@))).push(
                    ("text"@, JsonView::Str(text)),
                ),
            ),
        ),
    )
}

/// The content of a tool's result that is one text.
pub fn content_of(text: &str) -> (res: Json)
    ensures
        res@ == text_content(text@),
{
    let item = Fields::new().with("type", Json::text("text")).with(
        "text",
        Json::text(text),
    ).object();
    let mut items: Vec<Json> = Vec::new();
    items.push(item);
    let res = Json::Array(items);
    assert(res@->Array_0 =~= text_content(text@)->Array_0);
    res
}

} // verus!
