use dispatch::json::{Json, JsonNumber};
use dispatch::tools::{every_tool, tool_definitions, Tool};
use serde_json::Value;

fn value_of(j: &Json) -> Value {
    match j {
        Json::Null => Value::Null,
        Json::Bool(b) => Value::Bool(*b),
        Json::Number(JsonNumber::PosInt(n)) => Value::from(*n),
        Json::Number(JsonNumber::NegInt(n)) => Value::from(*n),
        Json::Number(JsonNumber::Float(t)) => Value::from(t.parse::<f64>().unwrap()),
        Json::Str(s) => Value::from(s.as_str()),
        Json::Array(items) => Value::Array(items.iter().map(value_of).collect()),
        Json::Object(fields) => {
            Value::Object(fields.iter().map(|(k, v)| (k.clone(), value_of(v))).collect())
        }
    }
}

const DEFINITIONS: &str = r#"[
        {
            "name": "dispatch",
            "description": "Dispatch a list of tasks for concurrent execution via MCP servers. Each task specifies a server, tool, parameters, and optional settings. Blocks until any task signals (EXIT, REMIND, or KILL), then returns the signal window. The LLM receives each task's output as it arrives and can loop back with 'wait' for remaining tasks. Strategy is prepended to every wakeup response if set.",
            "inputSchema": {
                "type": "object",
                "properties": {
                    "tasks": {
                        "type": "array",
                        "items": {
                            "type": "object",
                            "properties": {
                                "server": { "type": "string", "description": "MCP server ID (as known to dmcp)" },
                                "tool": { "type": "string", "description": "Tool name on the server" },
                                "params": { "type": "object", "description": "Parameters to pass to the tool" },
                                "remind_after": { "type": "integer", "description": "Seconds before firing a reminder (omit for no reminder)" },
                                "fire_wake": {
                                    "type": "boolean",
                                    "description": "Default: true. Set to false for fire-and-forget background tasks — suppresses per-task wakeup so the LLM is only woken when all fire_wake=false tasks complete together or a reminder fires."
                                },
                                "defer_output": {
                                    "type": "boolean",
                                    "description": "If true, store output out-of-band and show only '[hash=h] 200 (deferred)' in the EXIT signal. Use for large payloads to keep the signal window compact. Default: false (output inlined as '[hash=h] 200 <h>output</h>')."
                                }
                            },
                            "required": ["server", "tool"]
                        },
                        "description": "List of tasks to dispatch concurrently"
                    },
                    "strategy": {
                        "type": "string",
                        "description": "Current goal state and workflow plan. Stored in the orchestrator and prepended to every LLM wakeup response for this session. Update it on each dispatch call to keep context across wakeup cycles."
                    },
                    "session_id": {
                        "type": "string",
                        "description": "Optional session identifier (e.g. the goal ID from the orchestrating LLM). When provided, the signal window returned on each wakeup is filtered to only show signals for PIDs belonging to this session — preventing historical entries from earlier goals from polluting the LLM context."
                    }
                },
                "required": ["tasks"]
            }
        },
        {
            "name": "kill",
            "description": "Terminate running tasks by PID.",
            "inputSchema": {
                "type": "object",
                "properties": {
                    "pids": {
                        "type": "array",
                        "items": { "type": "integer" },
                        "description": "PIDs of tasks to kill"
                    }
                },
                "required": ["pids"]
            }
        },
        {
            "name": "wait",
            "description": "Acknowledge a reminder and let the task continue running. A new reminder will fire after the same interval. After acknowledging, blocks until the next event (task completion or reminder).",
            "inputSchema": {
                "type": "object",
                "properties": {
                    "pids": {
                        "type": "array",
                        "items": { "type": "integer" },
                        "description": "PIDs of tasks to continue waiting on"
                    }
                },
                "required": ["pids"]
            }
        },
        {
            "name": "status",
            "description": "Get current state of all active tasks.",
            "inputSchema": {
                "type": "object",
                "properties": {}
            }
        },
        {
            "name": "log",
            "description": "Get the signal window (last N entries).",
            "inputSchema": {
                "type": "object",
                "properties": {
                    "count": {
                        "type": "integer",
                        "description": "Number of entries to return (default: 20)"
                    }
                }
            }
        },
        {
            "name": "get_output",
            "description": "Retrieve the full output from one or more completed MCP tasks. By default, output is already inlined in the EXIT signal as '[hash=h] 200 <h>output</h>' — use this tool to re-read output, or to retrieve output from tasks that used defer_output: true (those show only '[hash=h] 200 (deferred)' in the signal window). Failed tasks (500) have no stored output; check the signal log for error details.",
            "inputSchema": {
                "type": "object",
                "properties": {
                    "pids": {
                        "type": "array",
                        "items": { "type": "integer" },
                        "description": "PIDs of completed tasks to retrieve output for. Multiple PIDs can be fetched in one call."
                    }
                },
                "required": ["pids"]
            }
        },
        {
            "name": "timer",
            "description": "Set a one-shot timer. Fires a REMIND signal after the specified duration, then exits. No MCP server involved — pure delay. Use for goal deferral, scheduled re-checks, or any timed reminder. Killable via the kill tool.",
            "inputSchema": {
                "type": "object",
                "properties": {
                    "label": {
                        "type": "string",
                        "description": "Human-readable label for the timer (appears in signals and status)"
                    },
                    "duration": {
                        "type": "integer",
                        "description": "Seconds until the REMIND signal fires"
                    },
                    "metadata": {
                        "type": "object",
                        "description": "Arbitrary key-value data passed through to the REMIND signal (opaque to dispatch)"
                    }
                },
                "required": ["label", "duration"]
            }
        },
        {
            "name": "browse_servers",
            "description": "Search the MCP server registry using a vector (embedding). Returns the top-k most similar servers above the minimum score threshold.",
            "inputSchema": {
                "type": "object",
                "properties": {
                    "vector": {
                        "type": "array",
                        "items": { "type": "number" },
                        "description": "Query embedding vector"
                    },
                    "top_k": {
                        "type": "integer",
                        "description": "Maximum number of results to return"
                    },
                    "min_score": {
                        "type": "number",
                        "description": "Minimum similarity score threshold (0.0–1.0)"
                    }
                },
                "required": ["vector", "top_k", "min_score"]
            }
        },
        {
            "name": "browse_servers_batch",
            "description": "Search the MCP server registry with multiple vectors in a single call. Returns results grouped by input vector index. Use when dispatching a plan with multiple sub-tasks that each need server discovery.",
            "inputSchema": {
                "type": "object",
                "properties": {
                    "vectors": {
                        "type": "array",
                        "items": {
                            "type": "array",
                            "items": { "type": "number" }
                        },
                        "description": "Array of query embedding vectors"
                    },
                    "top_k": {
                        "type": "integer",
                        "description": "Maximum number of results per vector"
                    },
                    "min_score": {
                        "type": "number",
                        "description": "Minimum similarity score threshold (0.0–1.0)"
                    }
                },
                "required": ["vectors", "top_k", "min_score"]
            }
        },
        {
            "name": "server_count",
            "description": "Get the number of MCP servers visible in the registry. Use this to decide whether to use vector or keyword search.",
            "inputSchema": {
                "type": "object",
                "properties": {}
            }
        },
        {
            "name": "embedding_spec",
            "description": "Get the embedding model specification used by the registry (model name, version, dimensions). Use this to produce vectors compatible with the registry's index.",
            "inputSchema": {
                "type": "object",
                "properties": {}
            }
        },
        {
            "name": "sync_index",
            "description": "Refresh the local vector index from the registry. Run this before vector searches when the index may be stale.",
            "inputSchema": {
                "type": "object",
                "properties": {}
            }
        },
        {
            "name": "index_server",
            "description": "Add a non-approved server to the local vector index so it can be found via vector search.",
            "inputSchema": {
                "type": "object",
                "properties": {
                    "server_id": {
                        "type": "string",
                        "description": "ID of the server to index"
                    },
                    "vectors": {
                        "type": "array",
                        "items": {
                            "type": "array",
                            "items": { "type": "number" }
                        },
                        "description": "Embedding vectors representing the server"
                    }
                },
                "required": ["server_id", "vectors"]
            }
        }
    ]"#;

#[test]
fn definitions_of_all_tools() {
    let expected: Value = serde_json::from_str(DEFINITIONS).unwrap();
    assert_eq!(value_of(&tool_definitions()), expected);
}

#[test]
fn listed_tools_are_found_by_name() {
    let tools = every_tool();
    assert_eq!(tools.len(), 13);
    for tool in &tools {
        assert_eq!(Tool::from_name(tool.name()), Some(*tool));
    }
    let names: Vec<String> = match value_of(&tool_definitions()) {
        Value::Array(items) => {
            items.iter().map(|d| d["name"].as_str().unwrap().to_string()).collect()
        }
        other => panic!("not a list: {}", other),
    };
    let expected: Vec<&str> = tools.iter().map(|t| t.name()).collect();
    assert_eq!(names, expected);
    assert_eq!(Tool::from_name(""), None);
    assert_eq!(Tool::from_name("Dispatch"), None);
}

#[test]
fn definition_of_one_tool() {
    assert_eq!(Tool::Kill.description(), "Terminate running tasks by PID.");
    let kill = value_of(&Tool::Kill.define());
    assert_eq!(kill["name"], "kill");
    assert_eq!(kill["inputSchema"]["required"][0], "pids");
}
