//! What the answers of the server hold: laws that tie each of them to the arguments of its call
//! and to the state, in the terms of a client that reads them.

use vstd::prelude::*;

use crate::error::DispatchErrorView;
use crate::event::{call_report, ActionView};
use crate::json::{added_entry_counts, json_text, lookup, u64_list_error, JsonView, NumberView};
use crate::mcp_server::{
    browse_batch_read, browse_read, call_read, called_name, count_reply_view, dispatch_handled,
    dispatch_reply_view, index_read, initialize_result, kill_handled, line_read, log_view, numbers,
    output_json, output_text, outputs_fields, outputs_text, outputs_view, pids_decoded,
    printed_reply_view, result_with, results_reply_view, spec_reply_view, status_view, step_for,
    taken, tasks_given, timer_handled, timer_reply_view, tools_list_result, wait_handled,
    wait_reply_view, ServerStepView, Turn, SERVER_ERROR,
};
use crate::orchestrator::{
    dispatched, first_unknown, kill_done, killed_of, result_handled, tasks_killed, tasks_waited,
    timer_dispatched, wait_done, waited_of, OrchestratorView,
};
use crate::rpc::{error_view, success_view, text_content, JsonRpcRequest, ResponseView};
use crate::signal::{window_json, window_text};
use crate::task::{TaskDefView, TaskState, TaskStatus};
use crate::text::{
    decimal, numbers_are_told_apart, trimmed, trimming_keeps_what_stands_between, white_space,
};
use crate::tools::{listed_tools_can_be_called, Tool};

verus! {

/// Whether a response is a success with this id and one text for the reader.
pub open spec fn reads(response: ResponseView, id: JsonView, text: Seq<char>) -> bool {
    &&& response.jsonrpc == "2.0"@
    &&& response.id == id
    &&& response.error is None
    &&& response.result matches Some(result) && {
        &&& result.field("content"@) matches Some(JsonView::Array(items)) && {
            &&& items.len() == 1
            &&& items[0].str_field("type"@) == Some("text"@)
            &&& items[0].str_field("text"@) == Some(text)
        }
    }
}

/// Whether a response is a success with this id, one text for the reader, and a value under a key.
pub open spec fn gives(
    response: ResponseView,
    id: JsonView,
    text: Seq<char>,
    key: Seq<char>,
    value: JsonView,
) -> bool {
    reads(response, id, text) && response.result->0.field(key) == Some(value)
}

/// Whether a response is a failure with this id, this code and this message.
pub open spec fn fails(
    response: ResponseView,
    id: JsonView,
    code: int,
    message: Seq<char>,
) -> bool {
    &&& response.jsonrpc == "2.0"@
    &&& response.id == id
    &&& response.result is None
    &&& response.error matches Some(e) && e.code == code && e.message == message && e.data is None
}

/// What a result with a text holds.
proof fn result_holds_both(id: JsonView, text: Seq<char>, key: Seq<char>, value: JsonView)
    requires
        key != "content"@,
    ensures
        gives(success_view(id, result_with(text, key, value)), id, text, key, value),
{
    content_holds_the_text(text);
    let f0: Seq<(Seq<char>, JsonView)> = Seq::empty();
    let f1 = f0.push(("content"@, text_content(text)));
    added_entry_counts(f0, "content"@, text_content(text), key);
    added_entry_counts(f1, key, value, "content"@);
}

/// What the content of a result holds.
proof fn content_holds_the_text(text: Seq<char>)
    ensures
        text_content(text) is Array,
        text_content(text)->Array_0.len() == 1,
        text_content(text)->Array_0[0].str_field("type"@) == Some("text"@),
        text_content(text)->Array_0[0].str_field("text"@) == Some(text),
{
    reveal_strlit("type");
    reveal_strlit("text");
    assert("type"@[1] != "text"@[1]);
    let f0: Seq<(Seq<char>, JsonView)> = Seq::empty();
    let f1 = f0.push(("type"@, JsonView::Str("text"@)));
    added_entry_counts(f0, "type"@, JsonView::Str("text"@), "type"@);
    added_entry_counts(f1, "text"@, JsonView::Str(text), "type"@);
}

/// The keys under which answers give a value are not that of the text.
proof fn keys_are_not_content()
    ensures
        "content"@ != "pids"@,
        "content"@ != "waited"@,
        "content"@ != "killed"@,
        "content"@ != "pid"@,
        "content"@ != "tasks"@,
        "content"@ != "entries"@,
        "content"@ != "outputs"@,
        "content"@ != "results"@,
        "content"@ != "spec"@,
        "content"@ != "count"@,
{
    reveal_strlit("content");
    reveal_strlit("pids");
    reveal_strlit("waited");
    reveal_strlit("killed");
    reveal_strlit("pid");
    reveal_strlit("tasks");
    reveal_strlit("entries");
    reveal_strlit("outputs");
    reveal_strlit("results");
    reveal_strlit("spec");
    reveal_strlit("count");
    assert("content"@.len() == 7 && "content"@[0] == 'c');
    assert("pids"@.len() == 4 && "waited"@.len() == 6 && "killed"@.len() == 6);
    assert("pid"@.len() == 3 && "tasks"@.len() == 5 && "entries"@[0] == 'e');
    assert("outputs"@[0] == 'o' && "results"@[0] == 'r' && "spec"@.len() == 4);
    assert("count"@.len() == 5);
}

/// A list of numbers in an answer is read back as the same list.
pub proof fn numbers_are_read_back(list: Seq<u64>)
    ensures
        numbers(list).as_u64_list() == Some(list),
{
    let items = numbers(list)->Array_0;
    assert forall|i: int| 0 <= i < items.len() implies (#[trigger] items[i]).as_u64() == Some(
        list[i],
    ) by {}
    assert(Seq::new(items.len(), |i: int| items[i].as_u64()->0) =~= list);
}

// --- dispatch ---

/// A `dispatch` call starts the tasks that were decoded, under the strategy and in the session
/// that its arguments name, and is refused where there are none. What is refused changes nothing.
pub proof fn dispatch_call_starts_the_tasks_named(
    a: OrchestratorView,
    b: OrchestratorView,
    id: JsonView,
    arguments: JsonView,
    decoded: Result<Seq<TaskDefView>, Seq<char>>,
    outcome: Result<Seq<u64>, ResponseView>,
)
    requires
        dispatch_handled(a, b, id, arguments, decoded, outcome),
    ensures
        outcome is Ok <==> arguments.field("tasks"@) is Some && decoded is Ok
            && decoded->Ok_0.len() > 0,
        tasks_given(arguments) == arguments.field("tasks"@),
        outcome matches Ok(pids) ==> {
            &&& dispatched(a, b, decoded->Ok_0, pids)
            &&& b.session == arguments.str_field("session_id"@)
            &&& arguments.str_field("strategy"@) is Some ==> b.strategy == arguments.str_field(
                "strategy"@,
            )
            &&& arguments.str_field("strategy"@) is None ==> b.strategy == a.strategy
        },
        outcome matches Err(response) ==> {
            &&& b == a
            &&& arguments.field("tasks"@) is None ==> fails(
                response,
                id,
                -32602,
                "Missing 'tasks' parameter"@,
            )
            &&& arguments.field("tasks"@) is Some && decoded is Err ==> fails(
                response,
                id,
                -32602,
                "Invalid tasks: "@ + decoded->Err_0,
            )
            &&& arguments.field("tasks"@) is Some && decoded is Ok ==> fails(
                response,
                id,
                -32602,
                "Empty task list"@,
            )
        },
{
}

/// When the client wakes, the answers to `dispatch`, `wait` and `timer` show it what it reads and
/// name the tasks, or hold the message of the error that ended the wait.
pub proof fn wake_up_is_passed_on(
    id: JsonView,
    pids: Seq<u64>,
    pid: u64,
    woken: Result<Seq<char>, DispatchErrorView>,
)
    ensures
        woken matches Ok(text) ==> {
            &&& reads(dispatch_reply_view(id, pids, woken), id, text)
            &&& reads(wait_reply_view(id, pids, woken), id, text)
            &&& reads(timer_reply_view(id, pid, woken), id, text)
            &&& dispatch_reply_view(id, pids, woken).result->0.field("pids"@) matches Some(list)
                && list.as_u64_list() == Some(pids)
            &&& wait_reply_view(id, pids, woken).result->0.field("waited"@) matches Some(list)
                && list.as_u64_list() == Some(pids)
            &&& timer_reply_view(id, pid, woken).result->0.u64_field("pid"@) == Some(pid)
        },
        woken matches Err(e) ==> {
            &&& fails(
                dispatch_reply_view(id, pids, woken),
                id,
                -32000,
                "Dispatch error: "@ + e.message(),
            )
            &&& fails(
                wait_reply_view(id, pids, woken),
                id,
                -32000,
                "Dispatch error: "@ + e.message(),
            )
            &&& fails(timer_reply_view(id, pid, woken), id, -32000, "Timer error: "@ + e.message())
        },
{
    keys_are_not_content();
    numbers_are_read_back(pids);
    if let Ok(text) = woken {
        result_holds_both(id, text, "pids"@, numbers(pids));
        result_holds_both(id, text, "waited"@, numbers(pids));
        result_holds_both(id, text, "pid"@, JsonView::Number(NumberView::PosInt(pid)));
    }
}

// --- kill and wait ---

/// A `kill` call kills the tasks whose PIDs stand in the list among its arguments. It shows the
/// log as it is then and names those that were killed, or says which PID is unknown. Without a
/// list of numbers it changes nothing and says so.
pub proof fn kill_call_kills_the_pids_named(
    a: OrchestratorView,
    b: OrchestratorView,
    id: JsonView,
    arguments: JsonView,
    response: ResponseView,
)
    requires
        kill_handled(a, b, id, pids_decoded(arguments), response),
    ensures
        arguments.field("pids"@) is None ==> b == a && fails(
            response,
            id,
            -32602,
            "Missing 'pids' parameter"@,
        ),
        arguments.field("pids"@) matches Some(v) ==> match v.as_u64_list() {
            None => b == a && fails(response, id, -32602, "Invalid pids: "@ + u64_list_error(v)),
            Some(pids) => if forall|i: int|
                0 <= i < pids.len() ==> a.tasks.contains_key(#[trigger] pids[i]) {
                exists|killed: Seq<u64>|
                    {
                        &&& #[trigger] kill_done(a, b, pids, Ok(killed))
                        &&& reads(response, id, window_text(b.entries, 20))
                        &&& response.result->0.field("killed"@) matches Some(list)
                            && list.as_u64_list() == Some(killed)
                    }
            } else {
                exists|k: int|
                    {
                        &&& 0 <= k < pids.len()
                        &&& !a.tasks.contains_key(#[trigger] pids[k])
                        &&& forall|i: int| 0 <= i < k ==> a.tasks.contains_key(#[trigger] pids[i])
                        &&& kill_done(a, b, pids, Err(DispatchErrorView::TaskNotFound(pids[k])))
                        &&& fails(
                            response,
                            id,
                            -32000,
                            "task not found: PID "@ + decimal(pids[k] as nat),
                        )
                    }
            },
        },
{
    keys_are_not_content();
    if let Some(v) = arguments.field("pids"@) {
        if let Some(pids) = v.as_u64_list() {
            if forall|i: int| 0 <= i < pids.len() ==> a.tasks.contains_key(#[trigger] pids[i]) {
                let killed = killed_of(a.tasks, pids);
                assert(kill_done(a, b, pids, Ok(killed)));
                result_holds_both(id, window_text(b.entries, 20), "killed"@, numbers(killed));
                numbers_are_read_back(killed);
            } else {
                let k = choose|k: int| #[trigger]
                    first_unknown(a.tasks, pids, k) && tasks_killed(
                        a,
                        b,
                        killed_of(a.tasks, pids.take(k)),
                    ) && response == error_view(
                        id,
                        SERVER_ERROR,
                        DispatchErrorView::TaskNotFound(pids[k]).message(),
                    );
                assert(!a.tasks.contains_key(pids[k]));
                assert forall|i: int| 0 <= i < k implies a.tasks.contains_key(
                    #[trigger] pids[i],
                ) by {
                    assert(pids.take(k)[i] == pids[i]);
                }
                assert(kill_done(a, b, pids, Err(DispatchErrorView::TaskNotFound(pids[k]))));
            }
        }
    }
}

/// A `wait` call goes on with the PIDs that stand in the list among its arguments, or says which of
/// them is unknown. Without a list of numbers it changes nothing and says so.
pub proof fn wait_call_goes_on_with_the_pids_named(
    a: OrchestratorView,
    b: OrchestratorView,
    id: JsonView,
    arguments: JsonView,
    outcome: Result<Seq<u64>, ResponseView>,
)
    requires
        wait_handled(a, b, id, pids_decoded(arguments), outcome),
    ensures
        arguments.field("pids"@) is None ==> b == a && outcome is Err && fails(
            outcome->Err_0,
            id,
            -32602,
            "Missing 'pids' parameter"@,
        ),
        arguments.field("pids"@) matches Some(v) ==> match v.as_u64_list() {
            None => b == a && outcome is Err && fails(
                outcome->Err_0,
                id,
                -32602,
                "Invalid pids: "@ + u64_list_error(v),
            ),
            Some(pids) => if forall|i: int|
                0 <= i < pids.len() ==> a.tasks.contains_key(#[trigger] pids[i]) {
                &&& outcome == Ok::<Seq<u64>, ResponseView>(pids)
                &&& exists|waited: Seq<u64>| #[trigger] wait_done(a, b, pids, Ok(waited))
            } else {
                exists|k: int|
                    {
                        &&& 0 <= k < pids.len()
                        &&& !a.tasks.contains_key(#[trigger] pids[k])
                        &&& forall|i: int| 0 <= i < k ==> a.tasks.contains_key(#[trigger] pids[i])
                        &&& wait_done(a, b, pids, Err(DispatchErrorView::TaskNotFound(pids[k])))
                        &&& outcome is Err
                        &&& fails(
                            outcome->Err_0,
                            id,
                            -32000,
                            "task not found: PID "@ + decimal(pids[k] as nat),
                        )
                    }
            },
        },
{
    if let Some(v) = arguments.field("pids"@) {
        if let Some(pids) = v.as_u64_list() {
            if forall|i: int| 0 <= i < pids.len() ==> a.tasks.contains_key(#[trigger] pids[i]) {
                assert(wait_done(a, b, pids, Ok(waited_of(a.tasks, pids))));
            } else {
                let k = choose|k: int| #[trigger]
                    first_unknown(a.tasks, pids, k) && tasks_waited(
                        a,
                        b,
                        waited_of(a.tasks, pids.take(k)),
                    ) && outcome == Err::<Seq<u64>, ResponseView>(
                        error_view(
                            id,
                            SERVER_ERROR,
                            DispatchErrorView::TaskNotFound(pids[k]).message(),
                        ),
                    );
                assert(!a.tasks.contains_key(pids[k]));
                assert forall|i: int| 0 <= i < k implies a.tasks.contains_key(
                    #[trigger] pids[i],
                ) by {
                    assert(pids.take(k)[i] == pids[i]);
                }
                assert(wait_done(a, b, pids, Err(DispatchErrorView::TaskNotFound(pids[k]))));
            }
        }
    }
}

// --- timer ---

/// A `timer` call starts a timer with the very label, duration and metadata of its arguments, and
/// the sleep that is queued for it is of that duration. It is refused where the label is no text or
/// the duration no number, and then nothing changes.
pub proof fn timer_call_starts_the_timer_asked_for(
    a: OrchestratorView,
    b: OrchestratorView,
    id: JsonView,
    arguments: JsonView,
    outcome: Result<u64, ResponseView>,
    d: u64,
    label: Seq<char>,
)
    requires
        timer_handled(a, b, id, arguments, outcome),
    ensures
        outcome is Ok <==> arguments.str_field("label"@) is Some && arguments.u64_field(
            "duration"@,
        ) is Some,
        outcome matches Ok(pid) ==> arguments.u64_field("duration"@) == Some(d)
            && arguments.str_field("label"@) == Some(label) ==> {
            let task = b.tasks[pid];
            &&& pid == a.next_pid
            &&& b.tasks.dom() == a.tasks.dom().insert(pid)
            &&& task.pid == pid
            &&& task.state == TaskState::Running
            &&& task.session == a.session
            &&& task.kind is Timer
            &&& task.kind->Timer_0.duration == d
            &&& task.kind->Timer_0.label == label
            &&& task.kind->Timer_0.metadata == arguments.field("metadata"@)
            &&& b.pending.len() == a.pending.len() + 1
            &&& b.pending.take(a.pending.len() as int) == a.pending
            &&& b.pending.last() == ActionView::Sleep {
                pid,
                label,
                duration: d,
                metadata: arguments.field("metadata"@),
            }
            &&& timer_dispatched(a, b, task.kind->Timer_0, pid)
        },
        outcome matches Err(response) ==> {
            &&& b == a
            &&& arguments.str_field("label"@) is None ==> fails(
                response,
                id,
                -32602,
                "Missing 'label' parameter"@,
            )
            &&& arguments.str_field("label"@) is Some ==> fails(
                response,
                id,
                -32602,
                "Missing or invalid 'duration' parameter"@,
            )
        },
{
    if let Ok(pid) = outcome {
        assert(b.pending.take(a.pending.len() as int) =~= a.pending);
        assert(b.tasks.dom() =~= a.tasks.dom().insert(pid));
    }
}

// --- get_output ---

/// What `get_output` tells the reader of one PID: its number, the nonce of its task where it has
/// one, and on the next line the whole output; or that there is none.
pub open spec fn told_of(state: OrchestratorView, pid: u64) -> Seq<char> {
    let known = state.tasks.contains_key(pid);
    if known && state.tasks[pid].output is Some {
        "PID "@ + decimal(pid as nat) + (match state.tasks[pid].nonce {
            Some(h) => " [hash="@ + h + "]"@,
            None => Seq::empty(),
        }) + "\n"@ + state.tasks[pid].output->0
    } else {
        "PID "@ + decimal(pid as nat)
            + ": no stored output (task failed or PID unknown \u{2014} check signal log)"@
    }
}

/// The part of the text of `get_output` on one PID.
proof fn part_is_told(state: OrchestratorView, pid: u64)
    ensures
        output_text(state, pid) == told_of(state, pid),
{
    if state.tasks.contains_key(pid) && state.tasks[pid].output is Some {
        assert(output_text(state, pid) =~= told_of(state, pid));
    }
}

/// The parts of the text of `get_output` stand in it one after the other.
proof fn parts_stand_in_the_text(state: OrchestratorView, pids: Seq<u64>, i: int) -> (ends: (
    Seq<char>,
    Seq<char>,
))
    requires
        0 <= i < pids.len(),
    ensures
        outputs_text(state, pids) == ends.0 + told_of(state, pids[i]) + ends.1,
        i == 0 ==> ends.0 == Seq::<char>::empty(),
        i > 0 ==> ends.0 == outputs_text(state, pids.take(i)) + "\n\n---\n\n"@,
        i == pids.len() - 1 ==> ends.1 == Seq::<char>::empty(),
        i < pids.len() - 1 ==> "\n\n---\n\n"@.is_prefix_of(ends.1),
    decreases pids.len(),
{
    part_is_told(state, pids[i]);
    let none = Seq::<char>::empty();
    let sep = "\n\n---\n\n"@;
    let text = outputs_text(state, pids);
    if i == pids.len() - 1 {
        assert(pids.take(i) =~= pids.drop_last());
        if i == 0 {
            assert(text =~= none + told_of(state, pids[i]) + none);
            (none, none)
        } else {
            let before = outputs_text(state, pids.take(i)) + sep;
            assert(text =~= before + told_of(state, pids[i]) + none);
            (before, none)
        }
    } else {
        let some = pids.drop_last();
        let (before, after) = parts_stand_in_the_text(state, some, i);
        assert(some.take(i) =~= pids.take(i));
        let more = after + sep + output_text(state, pids.last());
        assert(text =~= before + told_of(state, pids[i]) + more);
        if i == some.len() - 1 {
            assert(more =~= sep + output_text(state, pids.last()));
        }
        assert(sep.is_prefix_of(more));
        (before, more)
    }
}

/// The entry for each PID in the answer to `get_output` is found under its number.
proof fn outputs_are_found(state: OrchestratorView, pids: Seq<u64>, i: int)
    requires
        0 <= i < pids.len(),
    ensures
        lookup(outputs_fields(state, pids), decimal(pids[i] as nat)) == Some(
            output_json(state, pids[i]),
        ),
    decreases pids.len(),
{
    let fields = outputs_fields(state, pids);
    let some = pids.drop_last();
    assert(fields.drop_last() =~= outputs_fields(state, some));
    numbers_are_told_apart(pids[i] as nat, pids.last() as nat);
    if pids[i] != pids.last() {
        assert(some[i] == pids[i]);
        outputs_are_found(state, some, i);
    }
}

/// The answer to `get_output` holds, for every PID that is asked for, the whole stored output of
/// its task and its nonce under the number of the PID, or `null` where there is no output. Its text
/// tells of the PIDs one after the other, with a rule between them, and what it tells of one with
/// an output ends with a line break and that whole output.
pub proof fn stored_output_is_given_in_full(
    state: OrchestratorView,
    id: JsonView,
    arguments: JsonView,
    pids: Seq<u64>,
    i: int,
) -> (around: (Seq<char>, Seq<char>))
    requires
        arguments.field("pids"@) is Some,
        (arguments.field("pids"@)->0).as_u64_list() == Some(pids),
        0 <= i < pids.len(),
    ensures
        ({
            let response = outputs_view(state, id, pids_decoded(arguments));
            let task = state.tasks[pids[i]];
            let stored = state.tasks.contains_key(pids[i]) && task.output is Some;
            let told = "PID "@ + decimal(pids[i] as nat) + if stored {
                (match task.nonce {
                    Some(h) => " [hash="@ + h + "]"@,
                    None => Seq::empty(),
                }) + "\n"@ + task.output->0
            } else {
                ": no stored output (task failed or PID unknown \u{2014} check signal log)"@
            };
            &&& reads(response, id, around.0 + told + around.1)
            &&& stored ==> ("\n"@ + task.output->0).is_suffix_of(told)
        }),
        i == 0 ==> around.0 == Seq::<char>::empty(),
        i > 0 ==> "\n\n---\n\n"@.is_suffix_of(around.0),
        i == pids.len() - 1 ==> around.1 == Seq::<char>::empty(),
        i < pids.len() - 1 ==> "\n\n---\n\n"@.is_prefix_of(around.1),
        ({
            let response = outputs_view(state, id, pids_decoded(arguments));
            let task = state.tasks[pids[i]];
            let stored = state.tasks.contains_key(pids[i]) && task.output is Some;
            response.result->0.field("outputs"@) matches Some(outputs) && outputs.field(
                decimal(pids[i] as nat),
            ) matches Some(entry) && {
                &&& !stored ==> entry is Null
                &&& stored ==> entry.str_field("output"@) == task.output
                &&& stored && task.nonce is Some ==> entry.str_field("hash"@) == task.nonce
                &&& stored && task.nonce is None ==> entry.field("hash"@) == Some(JsonView::Null)
            }
        }),
{
    let response = outputs_view(state, id, pids_decoded(arguments));
    keys_are_not_content();
    let text = outputs_text(state, pids);
    let outputs = JsonView::Object(outputs_fields(state, pids));
    result_holds_both(id, text, "outputs"@, outputs);
    outputs_are_found(state, pids, i);
    let (before, after) = parts_stand_in_the_text(state, pids, i);
    let task = state.tasks[pids[i]];
    let stored = state.tasks.contains_key(pids[i]) && task.output is Some;
    let told = "PID "@ + decimal(pids[i] as nat) + if stored {
        (match task.nonce {
            Some(h) => " [hash="@ + h + "]"@,
            None => Seq::empty(),
        }) + "\n"@ + task.output->0
    } else {
        ": no stored output (task failed or PID unknown \u{2014} check signal log)"@
    };
    assert(told =~= told_of(state, pids[i]));
    assert(reads(response, id, before + told + after));
    if i > 0 {
        assert("\n\n---\n\n"@.is_suffix_of(before)) by {
            let sep = "\n\n---\n\n"@;
            assert(before.subrange(before.len() - sep.len(), before.len() as int) =~= sep);
        }
    }
    reveal_strlit("hash");
    reveal_strlit("output");
    assert("hash"@.len() == 4 && "output"@.len() == 6);
    if stored {
        let hash = match task.nonce {
            Some(h) => JsonView::Str(h),
            None => JsonView::Null,
        };
        let f0: Seq<(Seq<char>, JsonView)> = Seq::empty();
        let f1 = f0.push(("hash"@, hash));
        added_entry_counts(f0, "hash"@, hash, "hash"@);
        added_entry_counts(f1, "output"@, JsonView::Str(task.output->0), "hash"@);
        let last = "\n"@ + task.output->0;
        assert(told.subrange(told.len() - last.len(), told.len() as int) =~= last);
    }
    (before, after)
}

/// A `get_output` call without a list of PIDs, with one that is not all numbers, or with an empty
/// one is refused.
pub proof fn get_output_needs_pids(state: OrchestratorView, id: JsonView, arguments: JsonView)
    ensures
        ({
            let response = outputs_view(state, id, pids_decoded(arguments));
            match arguments.field("pids"@) {
                None => fails(response, id, -32602, "Missing 'pids' parameter"@),
                Some(v) => match v.as_u64_list() {
                    None => fails(response, id, -32602, "Invalid pids: "@ + u64_list_error(v)),
                    Some(pids) => pids.len() == 0 ==> fails(
                        response,
                        id,
                        -32602,
                        "Empty pids list"@,
                    ),
                },
            }
        }),
{
}

// --- status, log and what dmcp answers ---

/// The answer to `status` shows the text and holds one entry for each status, in their order.
pub proof fn status_call_tells_of_every_task(
    id: JsonView,
    statuses: Seq<TaskStatus>,
    text: Seq<char>,
    i: int,
)
    ensures
        reads(status_view(id, statuses, text), id, text),
        status_view(id, statuses, text).result->0.field("tasks"@) matches Some(
            JsonView::Array(list),
        ) && list.len() == statuses.len() && (0 <= i < statuses.len() ==> list[i]
            == statuses[i]@.json()),
{
    keys_are_not_content();
    result_holds_both(
        id,
        text,
        "tasks"@,
        JsonView::Array(statuses.map_values(|s: TaskStatus| s@.json())),
    );
}

/// The answer to `log` shows the last entries of the log and holds them, as many as are asked for,
/// and as many as twenty where nothing is said.
pub proof fn log_call_shows_as_many_as_asked(
    state: OrchestratorView,
    id: JsonView,
    arguments: JsonView,
    n: u64,
)
    requires
        n <= usize::MAX,
    ensures
        arguments.u64_field("count"@) == Some(n) ==> gives(
            log_view(state, id, arguments),
            id,
            window_text(state.entries, n as nat),
            "entries"@,
            window_json(state.entries, n as nat),
        ),
        arguments.u64_field("count"@) is None ==> gives(
            log_view(state, id, arguments),
            id,
            window_text(state.entries, 20),
            "entries"@,
            window_json(state.entries, 20),
        ),
{
    keys_are_not_content();
    let count: nat = match arguments.u64_field("count"@) {
        Some(m) => (m as usize) as nat,
        None => 20,
    };
    result_holds_both(
        id,
        window_text(state.entries, count),
        "entries"@,
        window_json(state.entries, count),
    );
}

/// What dmcp found is passed on under its key, with its text for the reader, and what it printed
/// as the text; where it failed, the message of the error is.
pub proof fn findings_are_passed_on(
    id: JsonView,
    found: Result<JsonView, DispatchErrorView>,
    count: Result<u64, DispatchErrorView>,
    printed: Result<Seq<char>, DispatchErrorView>,
)
    ensures
        match found {
            Ok(v) => {
                &&& gives(results_reply_view(id, found), id, json_text(v), "results"@, v)
                &&& gives(spec_reply_view(id, found), id, json_text(v), "spec"@, v)
            },
            Err(e) => {
                &&& fails(results_reply_view(id, found), id, -32000, e.message())
                &&& fails(spec_reply_view(id, found), id, -32000, e.message())
            },
        },
        match count {
            Ok(n) => {
                &&& reads(count_reply_view(id, count), id, decimal(n as nat))
                &&& count_reply_view(id, count).result->0.u64_field("count"@) == Some(n)
            },
            Err(e) => fails(count_reply_view(id, count), id, -32000, e.message()),
        },
        match printed {
            Ok(text) => reads(printed_reply_view(id, printed), id, text),
            Err(e) => fails(printed_reply_view(id, printed), id, -32000, e.message()),
        },
{
    keys_are_not_content();
    if let Ok(v) = found {
        result_holds_both(id, json_text(v), "results"@, v);
        result_holds_both(id, json_text(v), "spec"@, v);
    }
    if let Ok(n) = count {
        let value = JsonView::Number(NumberView::PosInt(n));
        result_holds_both(id, decimal(n as nat), "count"@, value);
    }
    if let Ok(text) = printed {
        content_holds_the_text(text);
        added_entry_counts(Seq::empty(), "content"@, text_content(text), "content"@);
    }
}

/// What a call printed is what `get_output` gives for its PID afterwards.
pub proof fn printed_output_is_given_back(
    a: OrchestratorView,
    b: OrchestratorView,
    pid: u64,
    printed: Seq<char>,
    id: JsonView,
    arguments: JsonView,
    pids: Seq<u64>,
)
    requires
        a.tasks.contains_key(pid),
        a.tasks[pid].state == TaskState::Running,
        result_handled(a, b, call_report(pid, Ok(printed))),
        arguments.field("pids"@) is Some,
        (arguments.field("pids"@)->0).as_u64_list() == Some(pids),
        pids.contains(pid),
    ensures
        ({
            let response = outputs_view(b, id, pids_decoded(arguments));
            response.result->0.field("outputs"@) matches Some(outputs) && outputs.field(
                decimal(pid as nat),
            ) matches Some(entry) && entry.str_field("output"@) == Some(printed)
        }),
{
    let i = pids.index_of(pid);
    let around = stored_output_is_given_in_full(b, id, arguments, pids, i);
}

// --- Which request gets which answer ---

/// A tool call is read as the tool with the name that it gives, and with its arguments, which are
/// an empty object where it has none. Where there is no such tool the call is refused.
pub proof fn tool_call_names_its_tool(
    id: JsonView,
    params: JsonView,
    outcome: Result<(Tool, JsonView), ResponseView>,
    tool: Tool,
)
    requires
        call_read(id, params, outcome),
    ensures
        params.str_field("name"@) == Some(tool.label()) ==> outcome is Ok && (outcome->Ok_0).0
            == tool,
        outcome matches Ok((t, arguments)) ==> {
            &&& params.str_field("name"@) == Some(t.label())
            &&& params.field("arguments"@) is Some ==> Some(arguments) == params.field(
                "arguments"@,
            )
            &&& params.field("arguments"@) is None ==> arguments == JsonView::Object(Seq::empty())
        },
        outcome matches Err(response) ==> match params.str_field("name"@) {
            Some(name) => name != tool.label() && fails(
                response,
                id,
                -32602,
                "Unknown tool: "@ + name,
            ),
            None => fails(response, id, -32602, "Unknown tool: "@),
        },
{
    listed_tools_can_be_called(tool, called_name(params));
    if params.str_field("name"@) is None {
        listed_names_are_not_empty(tool);
        assert("Unknown tool: "@ + Seq::<char>::empty() =~= "Unknown tool: "@);
        if let Ok((t, _)) = outcome {
            listed_names_are_not_empty(t);
        }
    }
}

/// No tool has an empty name.
proof fn listed_names_are_not_empty(tool: Tool)
    ensures
        tool.label().len() > 0,
{
    reveal_strlit("dispatch");
    reveal_strlit("kill");
    reveal_strlit("wait");
    reveal_strlit("status");
    reveal_strlit("log");
    reveal_strlit("get_output");
    reveal_strlit("timer");
    reveal_strlit("browse_servers");
    reveal_strlit("browse_servers_batch");
    reveal_strlit("server_count");
    reveal_strlit("embedding_spec");
    reveal_strlit("sync_index");
    reveal_strlit("index_server");
}

/// Each request is answered by its method: `initialize`, `tools/list` and `ping` with their
/// results, a tool call by calling the tool with all its parameters, and any other method with an
/// error if the request has an id and not at all if it has none.
pub proof fn methods_are_told_apart(request: JsonRpcRequest, error: String, id: JsonView)
    requires
        request.id is Some ==> id == (request.id->0)@,
        request.id is None ==> id is Null,
    ensures
        ({
            let step = step_for(Ok(request));
            let name = request.method@;
            &&& name == "initialize"@ ==> step == ServerStepView::Reply(
                success_view(id, initialize_result()),
            )
            &&& name == "tools/list"@ ==> step == ServerStepView::Reply(
                success_view(id, tools_list_result()),
            )
            &&& name == "ping"@ ==> step == ServerStepView::Reply(
                success_view(id, JsonView::Object(Seq::empty())),
            )
            &&& name == "tools/call"@ ==> step == ServerStepView::CallTool {
                id,
                params: request.params@,
            }
            &&& name == "notifications/initialized"@ ==> step is Skip
            &&& name != "initialize"@ && name != "tools/list"@ && name != "ping"@ && name
                != "tools/call"@ && name != "notifications/initialized"@ ==> if request.id is Some {
                step is Reply && fails(step->Reply_0, id, -32601, "Method not found"@)
            } else {
                step is Skip
            }
        }),
        step_for(Err(error)) is Reply,
        fails(step_for(Err(error))->Reply_0, JsonView::Null, -32700, "Parse error: "@ + error@),
{
    reveal_strlit("initialize");
    reveal_strlit("tools/list");
    reveal_strlit("tools/call");
    reveal_strlit("ping");
    reveal_strlit("notifications/initialized");
    assert("initialize"@.len() == 10 && "tools/list"@.len() == 10 && "tools/call"@.len() == 10);
    assert("ping"@.len() == 4 && "notifications/initialized"@.len() == 25);
    assert("initialize"@[0] != "tools/list"@[0] && "initialize"@[0] != "tools/call"@[0]);
    assert("tools/list"@[6] != "tools/call"@[6]);
}

/// A line with a character that is not white space is read without the white space around it, and
/// a request on it is answered where it has an id and is not the note that the client is
/// initialized. A line of white space alone is not read and gets no response.
pub proof fn lines_are_answered_unless_blank(turn: Turn, k: int)
    requires
        taken(turn),
    ensures
        0 <= k < turn.line.len() && !white_space(turn.line[k]) ==> {
            &&& line_read(turn.line) == Some(trimmed(turn.line))
            &&& turn.parsed is Err ==> turn.written is Some
            &&& turn.parsed matches Ok(request) ==> request.id matches Some(id)
                ==> request.method@ != "notifications/initialized"@ ==> turn.written is Some
                && (turn.written->0).id == id@
        },
        (forall|j: int| 0 <= j < turn.line.len() ==> white_space(#[trigger] turn.line[j])) ==> {
            line_read(turn.line) is None && turn.written is None
        },
{
    what_is_left_of_a_line(turn.line, k);
}

/// Something is left of a line where it has a character that is not white space, and only there.
proof fn what_is_left_of_a_line(line: Seq<char>, k: int)
    ensures
        0 <= k < line.len() && !white_space(line[k]) ==> trimmed(line).len() > 0,
        (forall|j: int| 0 <= j < line.len() ==> white_space(#[trigger] line[j])) ==> trimmed(
            line,
        ).len() == 0,
{
    let (p, q) = trimming_keeps_what_stands_between(line);
    assert(trimmed(line).len() == q - p);
    if p < q {
        assert(!white_space(line[p]));
    }
}

/// A success holds the id and the result, a failure the id, the code and the message, and nothing
/// else.
pub proof fn responses_hold_what_they_are_given(
    id: JsonView,
    result: JsonView,
    code: i64,
    message: Seq<char>,
)
    ensures
        success_view(id, result).id == id,
        success_view(id, result).result == Some(result),
        success_view(id, result).error is None,
        success_view(id, result).jsonrpc == "2.0"@,
        fails(error_view(id, code, message), id, code as int, message),
{
}

// --- Calls that go to dmcp ---

/// A search call passes the vectors, the number of results and the score on to dmcp. It is refused
/// where the vectors are missing or cannot be decoded, or where the number or the score is missing.
pub proof fn search_call_passes_its_arguments_on(
    id: JsonView,
    arguments: JsonView,
    vectors: Result<Seq<char>, Seq<char>>,
    min_score: Option<Seq<char>>,
    one: Result<Seq<Seq<char>>, ResponseView>,
    many: Result<Seq<Seq<char>>, ResponseView>,
    top_k: u64,
)
    requires
        browse_read(id, arguments, vectors, min_score, one),
        browse_batch_read(id, arguments, vectors, min_score, many),
    ensures
        one is Ok <==> arguments.field("vector"@) is Some && vectors is Ok && arguments.u64_field(
            "top_k"@,
        ) is Some && min_score is Some,
        many is Ok <==> arguments.field("vectors"@) is Some && vectors is Ok && arguments.u64_field(
            "top_k"@,
        ) is Some && min_score is Some,
        one matches Ok(args) ==> arguments.u64_field("top_k"@) == Some(top_k) ==> {
            &&& args.len() == 8
            &&& args[0] == "browse"@ && args[1] == "--vector"@ && args[2] == vectors->Ok_0
            &&& args[3] == "--top-k"@ && args[4] == decimal(top_k as nat)
            &&& args[5] == "--min-score"@ && args[6] == min_score->0 && args[7] == "--json"@
        },
        many matches Ok(args) ==> arguments.u64_field("top_k"@) == Some(top_k) ==> {
            &&& args.len() == 8
            &&& args[0] == "browse"@ && args[1] == "--vectors"@ && args[2] == vectors->Ok_0
            &&& args[3] == "--top-k"@ && args[4] == decimal(top_k as nat)
            &&& args[5] == "--min-score"@ && args[6] == min_score->0 && args[7] == "--json"@
        },
        one matches Err(response) ==> fails(
            response,
            id,
            -32602,
            if arguments.field("vector"@) is None {
                "Missing 'vector' parameter"@
            } else if vectors is Err {
                "Invalid vector: "@ + vectors->Err_0
            } else if arguments.u64_field("top_k"@) is None {
                "Missing or invalid 'top_k' parameter"@
            } else {
                "Missing or invalid 'min_score' parameter"@
            },
        ),
        many matches Err(response) ==> fails(
            response,
            id,
            -32602,
            if arguments.field("vectors"@) is None {
                "Missing 'vectors' parameter"@
            } else if vectors is Err {
                "Invalid vectors: "@ + vectors->Err_0
            } else if arguments.u64_field("top_k"@) is None {
                "Missing or invalid 'top_k' parameter"@
            } else {
                "Missing or invalid 'min_score' parameter"@
            },
        ),
{
    names_of_vectors();
}

/// How the arguments of searches are named in a refusal.
proof fn names_of_vectors()
    ensures
        "Missing '"@ + "vector"@ + "' parameter"@ == "Missing 'vector' parameter"@,
        "Missing '"@ + "vectors"@ + "' parameter"@ == "Missing 'vectors' parameter"@,
        "Invalid "@ + "vector"@ + ": "@ == "Invalid vector: "@,
        "Invalid "@ + "vectors"@ + ": "@ == "Invalid vectors: "@,
{
    reveal_strlit("Missing '");
    reveal_strlit("' parameter");
    reveal_strlit("vector");
    reveal_strlit("vectors");
    reveal_strlit("Invalid ");
    reveal_strlit(": ");
    reveal_strlit("Missing 'vector' parameter");
    reveal_strlit("Missing 'vectors' parameter");
    reveal_strlit("Invalid vector: ");
    reveal_strlit("Invalid vectors: ");
    assert("Missing '"@ + "vector"@ + "' parameter"@ =~= "Missing 'vector' parameter"@);
    assert("Missing '"@ + "vectors"@ + "' parameter"@ =~= "Missing 'vectors' parameter"@);
    assert("Invalid "@ + "vector"@ + ": "@ =~= "Invalid vector: "@);
    assert("Invalid "@ + "vectors"@ + ": "@ =~= "Invalid vectors: "@);
}

/// An `index_server` call passes the server and the vectors on to dmcp, and is refused where one of
/// them is missing or the vectors cannot be decoded.
pub proof fn index_call_passes_its_arguments_on(
    id: JsonView,
    arguments: JsonView,
    vectors: Result<Seq<char>, Seq<char>>,
    outcome: Result<Seq<Seq<char>>, ResponseView>,
)
    requires
        index_read(id, arguments, vectors, outcome),
    ensures
        outcome is Ok <==> arguments.str_field("server_id"@) is Some && arguments.field(
            "vectors"@,
        ) is Some && vectors is Ok,
        outcome matches Ok(args) ==> {
            &&& args.len() == 4
            &&& args[0] == "index-server"@
            &&& Some(args[1]) == arguments.str_field("server_id"@)
            &&& args[2] == "--vectors"@ && args[3] == vectors->Ok_0
        },
        outcome matches Err(response) ==> fails(
            response,
            id,
            -32602,
            if arguments.str_field("server_id"@) is None {
                "Missing 'server_id' parameter"@
            } else if arguments.field("vectors"@) is None {
                "Missing 'vectors' parameter"@
            } else {
                "Invalid vectors: "@ + vectors->Err_0
            },
        ),
{
    names_of_vectors();
}

} // verus!
