# dispatch

Signal-driven task orchestrator for MCP servers, with its logic verified in Verus.

A client hands over a list of MCP tool calls, or sets timers, and goes to sleep. The orchestrator
keeps the tasks, logs every event as a signal in a rolling window of twenty entries, and wakes the
client when there is something to decide: the last running task has ended, a task has ended that
asks for attention, or a task has been running for long.

## Layout

| Module | What it holds |
|--------|---------------|
| `orchestrator` | The state machine: starting, killing, waiting, ends of tasks, wake-ups |
| `laws` | What holds over every history of operations |
| `task`, `signal`, `reminder`, `pid`, `nonce`, `event` | The parts of its state, and what goes in and out |
| `mcp_server`, `tools`, `rpc` | Which request gets which answer |
| `mcp_client` | How dmcp is called and how its answers are read |
| `json`, `text`, `error` | Plain values |

The library does no I/O. It queues actions (call a tool, sleep, abort, start or cancel a
reminder), and takes events (a task has ended, a reminder is due). `app/` is the program around
it: stdin and stdout, the dmcp process, tokio tasks, serde, and floating-point vectors.

## What is proved

Each function states what it returns and how it changes the state, over the views of its types.
An orchestrator's view keeps the tasks, the window, the armed reminders, the counters, the
strategy, the session and the queued actions; operations are relations between two such views
(`dispatched`, `tasks_killed`, `result_handled`, and so on).

The clock, the notation of JSON, the decoding of UTF-8 and the parsing of a count come from `std`,
`chrono`, `tokio` and `serde_json`. What is assumed of them stands in the contracts of the few
functions that call them.
