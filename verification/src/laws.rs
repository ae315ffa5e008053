//! What holds of an orchestrator over its whole life, whatever its operations are and in
//! whatever order they come.

use vstd::prelude::*;

use crate::event::{TaskResultKindView, TaskResultView};
use crate::json::{added_entry_counts, lookup, JsonView, NumberView};
use crate::nonce::is_four_hex;
use crate::orchestrator::{
    all_known, any_running, armed_for, channel_restarted, delimited, dispatched, first_unknown,
    headed, is_running, killed_of, metadata_json, raw_output, reminded, reminder_ticked,
    result_handled, result_signals, results_trace, session_pids, shut_down, shut_down_in, task_at,
    tasks_killed, tasks_waited, timer_dispatched, timer_exit_signal, timer_init_payload,
    timer_remind_payload, timer_remind_signal, waited_of, with_killed, OrchestratorView,
};
use crate::pid::{counted_on, counter_range};
use crate::reminder::{Reminder, ReminderEvent};
use crate::signal::{logged, SignalKind, SignalView};
use crate::task::{TaskDefView, TaskKindView, TaskState, TaskView, TimerDefView};

verus! {

/// An operation on an orchestrator.
pub enum Step {
    Dispatch {
        defs: Seq<TaskDefView>,
        pids: Seq<u64>,
        strategy: Option<Seq<char>>,
        session: Option<Seq<char>>,
    },
    Timer { def: TimerDefView, pid: u64 },
    Kill { pids: Seq<u64> },
    Wait { pids: Seq<u64> },
    Result { result: TaskResultView },
    Remind { event: ReminderEvent },
    Tick { pid: u64, fired: Option<ReminderEvent> },
    Closed,
    TakeActions,
    ShutDown,
}

/// Whether an operation took an orchestrator from `a` to `b`.
pub open spec fn happens(a: OrchestratorView, b: OrchestratorView, step: Step) -> bool {
    match step {
        Step::Dispatch { defs, pids, strategy, session } => {
            &&& dispatched(a, b, defs, pids)
            &&& headed(a, b, strategy, session)
        },
        Step::Timer { def, pid } => timer_dispatched(a, b, def, pid),
        Step::Kill { pids } => tasks_killed(a, b, killed_of(a.tasks, pids)),
        Step::Wait { pids } => tasks_waited(a, b, waited_of(a.tasks, pids)),
        Step::Result { result } => result_handled(a, b, result),
        Step::Remind { event } => reminded(a, b, event),
        Step::Tick { pid, fired } => reminder_ticked(a, b, pid, fired),
        Step::Closed => channel_restarted(a, b),
        Step::TakeActions => b == (OrchestratorView { pending: Seq::empty(), ..a }),
        Step::ShutDown => shut_down(a, b),
    }
}

/// How many PIDs an operation hands out.
pub open spec fn pids_used(step: Step) -> nat {
    match step {
        Step::Dispatch { defs, .. } => defs.len(),
        Step::Timer { .. } => 1,
        _ => 0,
    }
}

/// Whether there are PIDs left for the operation.
pub open spec fn has_pids(a: OrchestratorView, step: Step) -> bool {
    a.next_pid + pids_used(step) < counter_range()
}

/// What a task's record looks like: an MCP task has a nonce, a timer has none, and only an MCP
/// task that has exited can have a stored output.
pub open spec fn orderly_task(task: TaskView) -> bool {
    &&& task.kind is Mcp ==> (task.nonce matches Some(n) && is_four_hex(n))
    &&& task.kind is Timer ==> task.nonce is None
    &&& task.output is Some ==> task.kind is Mcp && task.state == TaskState::Exited
}

/// Whether all tasks are numbered with PIDs that were handed out, and their records are orderly.
pub open spec fn orderly(a: OrchestratorView) -> bool {
    &&& 1 <= a.next_pid
    &&& forall|pid: u64| #[trigger]
        a.tasks.contains_key(pid) ==> 1 <= pid < a.next_pid && orderly_task(a.tasks[pid])
}

/// Whether a report on a task is one that a task of its kind gives: of a call for an MCP task, of
/// an expiry for a timer.
pub open spec fn fits(tasks: Map<u64, TaskView>, step: Step) -> bool {
    match step {
        Step::Result { result } => tasks.contains_key(result.pid) ==> (result.kind is McpComplete
            <==> tasks[result.pid].kind is Mcp),
        _ => true,
    }
}

/// The members of `killed_of` are running tasks, no PID occurs twice among them, and every
/// running task that was named is among them.
pub proof fn killed_are_the_running_ones_named(tasks: Map<u64, TaskView>, pids: Seq<u64>)
    ensures
        killed_of(tasks, pids).no_duplicates(),
        forall|pid: u64| #[trigger]
            killed_of(tasks, pids).contains(pid) <==> pids.contains(pid) && is_running(tasks, pid),
    decreases pids.len(),
{
    let killed = killed_of(tasks, pids);
    if pids.len() > 0 {
        let some = pids.drop_last();
        let last = pids.last();
        let before = killed_of(tasks, some);
        killed_are_the_running_ones_named(tasks, some);
        assert(pids =~= some.push(last));
        assert(pids[pids.len() - 1] == last);
        assert forall|pid: u64| #[trigger] killed.contains(pid) <==> pids.contains(pid)
            && is_running(tasks, pid) by {
            if killed.contains(pid) {
                let i = choose|i: int| 0 <= i < killed.len() && killed[i] == pid;
                if i < before.len() {
                    assert(before[i] == pid);
                    assert(before.contains(pid));
                    let j = choose|j: int| 0 <= j < some.len() && some[j] == pid;
                    assert(pids[j] == pid);
                }
            }
            if pids.contains(pid) && is_running(tasks, pid) {
                if before.contains(pid) {
                    let i = choose|i: int| 0 <= i < before.len() && before[i] == pid;
                    assert(killed[i] == pid);
                } else {
                    let j = choose|j: int| 0 <= j < pids.len() && pids[j] == pid;
                    if j < some.len() {
                        assert(some[j] == pid);
                        assert(some.contains(pid));
                    }
                    assert(killed[killed.len() - 1] == pid);
                }
            }
        }
        assert forall|i: int, j: int|
            0 <= i < killed.len() && 0 <= j < killed.len() && i != j implies killed[i]
            != killed[j] by {
            if i < before.len() {
                assert(before.contains(before[i]));
            }
            if j < before.len() {
                assert(before.contains(before[j]));
            }
        }
    }
}

/// The PIDs of a dispatch, as long as PIDs are left: they rise one by one, and an orderly state
/// has none of them in use.
proof fn dispatched_pids_are_new(
    a: OrchestratorView,
    b: OrchestratorView,
    defs: Seq<TaskDefView>,
    pids: Seq<u64>,
)
    requires
        orderly(a),
        dispatched(a, b, defs, pids),
        a.next_pid + defs.len() < counter_range(),
    ensures
        pids.len() == defs.len(),
        forall|i: int| 0 <= i < pids.len() ==> #[trigger] pids[i] == a.next_pid + i,
        forall|pid: u64| #[trigger] a.tasks.contains_key(pid) ==> !pids.contains(pid),
{
    assert forall|i: int| 0 <= i < pids.len() implies #[trigger] pids[i] == a.next_pid + i by {
        assert(pids[i] == counted_on(a.next_pid, i as nat));
    }
}

/// A dispatch keeps the records in order.
proof fn dispatch_keeps_order(
    a: OrchestratorView,
    b: OrchestratorView,
    defs: Seq<TaskDefView>,
    pids: Seq<u64>,
)
    requires
        orderly(a),
        dispatched(a, b, defs, pids),
        a.next_pid + defs.len() < counter_range(),
    ensures
        orderly(b),
        b.next_pid == a.next_pid + defs.len(),
{
    dispatched_pids_are_new(a, b, defs, pids);
    assert forall|pid: u64| #[trigger] b.tasks.contains_key(pid) implies 1 <= pid < b.next_pid
        && orderly_task(b.tasks[pid]) by {
        if pids.contains(pid) {
            let i = choose|i: int| 0 <= i < pids.len() && pids[i] == pid;
            assert(pids[i] == pid);
        } else {
            assert(a.tasks.contains_key(pid));
            assert(b.tasks[pid] == a.tasks[pid]);
        }
    }
}

/// To kill running tasks keeps the records in order.
proof fn killing_keeps_order(a: OrchestratorView, b: OrchestratorView, killed: Seq<u64>)
    requires
        orderly(a),
        forall|pid: u64| #[trigger] killed.contains(pid) ==> is_running(a.tasks, pid),
        b.tasks == with_killed(a.tasks, killed),
        b.next_pid == a.next_pid,
    ensures
        orderly(b),
{
    assert forall|pid: u64| #[trigger] b.tasks.contains_key(pid) implies 1 <= pid < b.next_pid
        && orderly_task(b.tasks[pid]) by {
        assert(a.tasks.contains_key(pid));
        assert(killed.contains(pid) ==> is_running(a.tasks, pid));
    }
}

/// PIDs are handed out in rising order, none of them is in use, and an orderly state stays so:
/// as long as PIDs are left, every operation keeps the records in order.
pub proof fn steps_keep_order(a: OrchestratorView, b: OrchestratorView, step: Step)
    requires
        orderly(a),
        happens(a, b, step),
        has_pids(a, step),
        fits(a.tasks, step),
    ensures
        orderly(b),
        b.next_pid == a.next_pid + pids_used(step),
        step matches Step::Dispatch { pids, .. } ==> forall|i: int|
            0 <= i < pids.len() ==> #[trigger] pids[i] == a.next_pid + i && !a.tasks.contains_key(
                pids[i],
            ),
        step matches Step::Timer { pid, .. } ==> pid == a.next_pid && !a.tasks.contains_key(pid),
{
    match step {
        Step::Dispatch { defs, pids, .. } => {
            dispatched_pids_are_new(a, b, defs, pids);
            dispatch_keeps_order(a, b, defs, pids);
        },
        Step::Kill { pids } => {
            killed_are_the_running_ones_named(a.tasks, pids);
            killing_keeps_order(a, b, killed_of(a.tasks, pids));
        },
        Step::ShutDown => {
            let order = choose|order: Seq<u64>| #[trigger] shut_down_in(a, b, order);
            killing_keeps_order(a, b, order);
        },
        _ => {},
    }
}

/// A task that has exited or was killed stays as it is, whatever operation comes.
pub proof fn finished_tasks_stay(a: OrchestratorView, b: OrchestratorView, step: Step, pid: u64)
    requires
        orderly(a),
        happens(a, b, step),
        has_pids(a, step),
        a.tasks.contains_key(pid),
        !is_running(a.tasks, pid),
    ensures
        b.tasks.contains_key(pid),
        b.tasks[pid] == a.tasks[pid],
{
    match step {
        Step::Dispatch { defs, pids, .. } => {
            dispatched_pids_are_new(a, b, defs, pids);
        },
        Step::Kill { pids } => {
            killed_are_the_running_ones_named(a.tasks, pids);
            assert(!killed_of(a.tasks, pids).contains(pid));
        },
        Step::ShutDown => {
            let order = choose|order: Seq<u64>| #[trigger] shut_down_in(a, b, order);
            assert(!order.contains(pid));
        },
        _ => {},
    }
}

/// Whether the operations took an orchestrator through these states.
pub open spec fn history(states: Seq<OrchestratorView>, steps: Seq<Step>) -> bool {
    &&& states.len() == steps.len() + 1
    &&& forall|i: int|
        0 <= i < steps.len() ==> {
            &&& happens(states[i], states[i + 1], #[trigger] steps[i])
            &&& has_pids(states[i], steps[i])
            &&& fits(states[i].tasks, steps[i])
        }
}

/// Whether the tasks that have finished in `a` are the same in `b`.
pub open spec fn finished_kept(a: OrchestratorView, b: OrchestratorView) -> bool {
    forall|pid: u64| #[trigger]
        a.tasks.contains_key(pid) && !is_running(a.tasks, pid) ==> b.tasks.contains_key(pid)
            && b.tasks[pid] == a.tasks[pid]
}

/// Over a whole history, from a state in order (as a new orchestrator is), every state is in
/// order, and a task that has finished stays as it is for good.
pub proof fn history_keeps_order(
    states: Seq<OrchestratorView>,
    steps: Seq<Step>,
    i: int,
    j: int,
)
    requires
        history(states, steps),
        orderly(states[0]),
        0 <= i <= j < states.len(),
    ensures
        orderly(states[i]),
        orderly(states[j]),
        finished_kept(states[i], states[j]),
    decreases j,
{
    if j > 0 {
        let a = states[j - 1];
        let b = states[j];
        let step = steps[j - 1];
        assert(happens(a, b, step) && has_pids(a, step) && fits(a.tasks, step));
        if i < j {
            history_keeps_order(states, steps, i, j - 1);
            steps_keep_order(a, b, step);
            assert forall|pid: u64| #[trigger]
                states[i].tasks.contains_key(pid) && !is_running(states[i].tasks, pid) implies
                b.tasks.contains_key(pid) && b.tasks[pid] == states[i].tasks[pid] by {
                assert(a.tasks.contains_key(pid));
                finished_tasks_stay(a, b, step, pid);
            }
        } else {
            history_keeps_order(states, steps, j - 1, j - 1);
            steps_keep_order(a, b, step);
        }
    }
}

/// A new orchestrator is in order.
pub proof fn new_state_is_orderly(a: OrchestratorView)
    requires
        a.tasks == Map::<u64, TaskView>::empty(),
        a.next_pid == 1,
    ensures
        orderly(a),
{
}

/// Reports that have piled up are taken in one by one, each as it would be on its own.
pub proof fn drained_results_come_one_by_one(
    states: Seq<OrchestratorView>,
    results: Seq<TaskResultView>,
    i: int,
)
    requires
        results_trace(states, results),
        0 <= i < results.len(),
    ensures
        happens(states[i], states[i + 1], Step::Result { result: results[i] }),
{
}

/// A task that was killed is silent from then on: it is not running, its reminder is disarmed, a
/// report on its end changes no task and logs nothing, no reminder for it is logged, and to kill
/// it again changes nothing.
pub proof fn killed_tasks_are_silent(
    a: OrchestratorView,
    b: OrchestratorView,
    pids: Seq<u64>,
    pid: u64,
    c: OrchestratorView,
    result: TaskResultView,
    event: ReminderEvent,
)
    requires
        tasks_killed(a, b, killed_of(a.tasks, pids)),
        pids.contains(pid),
        is_running(a.tasks, pid),
        result.pid == pid,
        event.pid == pid,
    ensures
        b.tasks.contains_key(pid),
        b.tasks[pid].state == TaskState::Killed,
        !b.reminders.contains_key(pid),
        result_handled(b, c, result) ==> c.tasks == b.tasks && c.entries == b.entries,
        reminded(b, c, event) ==> c == b,
        killed_of(b.tasks, seq![pid]).len() == 0,
{
    let killed = killed_of(a.tasks, pids);
    killed_are_the_running_ones_named(a.tasks, pids);
    assert(killed.contains(pid));
    assert(killed.to_set().contains(pid));
    assert(seq![pid].drop_last() =~= Seq::empty());
    assert(killed_of(b.tasks, seq![pid].drop_last()).len() == 0);
    assert(seq![pid].last() == pid);
}

/// After a shutdown no task is running and no reminder is armed, and nothing was logged.
pub proof fn nothing_runs_after_shutdown(a: OrchestratorView, b: OrchestratorView)
    requires
        shut_down(a, b),
    ensures
        !any_running(b.tasks),
        b.reminders == Map::<u64, Reminder>::empty(),
        b.entries == a.entries,
        b.tasks.dom() == a.tasks.dom(),
{
    let order = choose|order: Seq<u64>| #[trigger] shut_down_in(a, b, order);
    assert forall|pid: u64| !is_running(b.tasks, pid) by {
        assert(order.contains(pid) <==> is_running(a.tasks, pid));
    }
    assert(b.tasks.dom() =~= a.tasks.dom());
}

/// To wait changes neither the tasks nor their reminders nor what is to be done: a reminder that
/// was armed stays armed and comes again after the same interval.
pub proof fn waiting_keeps_reminders(
    a: OrchestratorView,
    b: OrchestratorView,
    pids: Seq<u64>,
    c: OrchestratorView,
    pid: u64,
    event: Option<ReminderEvent>,
)
    requires
        tasks_waited(a, b, waited_of(a.tasks, pids)),
        a.reminders.contains_key(pid),
        reminder_ticked(b, c, pid, event),
    ensures
        b.tasks == a.tasks,
        b.reminders == a.reminders,
        b.pending == a.pending,
        event is Some,
        c.reminders.contains_key(pid),
        c.reminders[pid].interval == a.reminders[pid].interval,
{
}

/// Which PID an unknown one is reported for: there is a first unknown PID just where not every
/// PID is known, and it is only one.
pub proof fn first_unknown_is_determined(
    tasks: Map<u64, TaskView>,
    pids: Seq<u64>,
    k: int,
    l: int,
)
    ensures
        all_known(tasks, pids) <==> !exists|m: int| first_unknown(tasks, pids, m),
        first_unknown(tasks, pids, k) && first_unknown(tasks, pids, l) ==> k == l,
    decreases pids.len(),
{
    if !all_known(tasks, pids) {
        let some = pids.drop_last();
        let n = pids.len() - 1;
        first_unknown_is_determined(tasks, some, k, l);
        if all_known(tasks, some) {
            assert(pids.take(n) =~= some);
            assert forall|i: int| 0 <= i < n implies tasks.contains_key(#[trigger] pids[i]) by {
                assert(some[i] == pids[i]);
            }
            assert(first_unknown(tasks, pids, n));
        } else {
            let m = choose|m: int| first_unknown(tasks, some, m);
            assert(some.take(m) =~= pids.take(m));
            assert(first_unknown(tasks, pids, m));
        }
    } else {
        assert forall|m: int| !first_unknown(tasks, pids, m) by {}
    }
    if first_unknown(tasks, pids, k) && first_unknown(tasks, pids, l) {
        if k < l {
            assert(pids.take(l)[k] == pids[k]);
        }
        if l < k {
            assert(pids.take(k)[l] == pids[l]);
        }
    }
}

/// The reminders for tasks that were there before a dispatch are the same after it.
proof fn arming_keeps_others(
    reminders: Map<u64, Reminder>,
    defs: Seq<TaskDefView>,
    first: u64,
    pid: u64,
)
    requires
        pid < first,
        first + defs.len() < counter_range(),
    ensures
        armed_for(reminders, defs, first).contains_key(pid) <==> reminders.contains_key(pid),
        armed_for(reminders, defs, first)[pid] == reminders[pid],
    decreases defs.len(),
{
    if defs.len() > 0 {
        arming_keeps_others(reminders, defs.drop_last(), first, pid);
    }
}

/// A reminder stays armed, at the interval that was asked for, as long as its task runs: only
/// the end of the task disarms it.
pub proof fn reminders_come_until_the_end(
    a: OrchestratorView,
    b: OrchestratorView,
    step: Step,
    pid: u64,
)
    requires
        a.wf(),
        orderly(a),
        happens(a, b, step),
        has_pids(a, step),
        a.reminders.contains_key(pid),
        is_running(b.tasks, pid),
    ensures
        b.reminders.contains_key(pid),
        b.reminders[pid].interval == a.reminders[pid].interval,
{
    assert(is_running(a.tasks, pid));
    match step {
        Step::Dispatch { defs, .. } => {
            arming_keeps_others(a.reminders, defs, a.next_pid, pid);
        },
        Step::Kill { pids } => {
            let killed = killed_of(a.tasks, pids);
            assert(!killed.contains(pid));
            assert(!killed.to_set().contains(pid));
        },
        Step::ShutDown => {
            nothing_runs_after_shutdown(a, b);
        },
        _ => {},
    }
}

/// A timer that expires is reminded of and then exits, in this order, and does so once: whatever
/// is reported on it afterwards logs nothing.
pub proof fn timers_fire_once(
    a: OrchestratorView,
    b: OrchestratorView,
    c: OrchestratorView,
    pid: u64,
    def: TimerDefView,
    later: TaskResultView,
)
    requires
        is_running(a.tasks, pid),
        a.tasks[pid].kind == TaskKindView::Timer(def),
        result_handled(
            a,
            b,
            TaskResultView {
                pid,
                kind: TaskResultKindView::TimerExpired {
                    label: def.label,
                    metadata: def.metadata,
                    elapsed: def.duration,
                },
            },
        ),
        result_handled(b, c, later),
        later.pid == pid,
    ensures
        logged(
            a.entries,
            b.entries,
            seq![timer_remind_signal(pid, def.label, def.metadata, def.duration)] + seq![
                timer_exit_signal(pid, def.label),
            ],
            a.capacity,
        ),
        b.tasks[pid].state == TaskState::Exited,
        c.entries == b.entries,
        c.tasks == b.tasks,
{
}

/// The metadata of a timer are passed through unchanged, to its INIT and to its REMIND signal,
/// and so are its label and its PID.
pub proof fn metadata_pass_through(pid: u64, def: TimerDefView, elapsed: u64)
    ensures
        ({
            let init = timer_init_payload(pid, def);
            let remind = timer_remind_payload(pid, def.label, def.metadata, elapsed);
            &&& init.field("metadata"@) == Some(metadata_json(def.metadata))
            &&& remind.field("metadata"@) == Some(metadata_json(def.metadata))
            &&& init.field("label"@) == Some(JsonView::Str(def.label))
            &&& remind.field("label"@) == Some(JsonView::Str(def.label))
            &&& init.u64_field("pid"@) == Some(pid)
            &&& remind.u64_field("pid"@) == Some(pid)
        }),
{
    reveal_strlit("pid");
    reveal_strlit("type");
    reveal_strlit("label");
    reveal_strlit("metadata");
    reveal_strlit("duration");
    reveal_strlit("elapsed");
    assert("pid"@.len() == 3 && "type"@.len() == 4 && "label"@.len() == 5);
    assert("metadata"@.len() == 8 && "duration"@.len() == 8 && "elapsed"@.len() == 7);
    assert("metadata"@[0] != "duration"@[0]);
    let with_pid: Seq<(Seq<char>, JsonView)> = Seq::empty().push(
        ("pid"@, JsonView::Number(NumberView::PosInt(pid))),
    );
    added_entry_counts(Seq::empty(), "pid"@, with_pid[0].1, "pid"@);
    assert forall|kind: JsonView, last: Seq<char>, value: JsonView|
        last != "pid"@ && last != "label"@ && last != "metadata"@ implies ({
        let fields = #[trigger] with_pid.push(("type"@, kind)).push(
            ("label"@, JsonView::Str(def.label)),
        ).push(("metadata"@, metadata_json(def.metadata))).push((last, value));
        &&& lookup(fields, "metadata"@) == Some(metadata_json(def.metadata))
        &&& lookup(fields, "label"@) == Some(JsonView::Str(def.label))
        &&& lookup(fields, "pid"@) == Some(with_pid[0].1)
    }) by {
        let f1 = with_pid.push(("type"@, kind));
        let f2 = f1.push(("label"@, JsonView::Str(def.label)));
        let f3 = f2.push(("metadata"@, metadata_json(def.metadata)));
        added_entry_counts(with_pid, "type"@, kind, "pid"@);
        added_entry_counts(f1, "label"@, JsonView::Str(def.label), "pid"@);
        added_entry_counts(f2, "metadata"@, metadata_json(def.metadata), "pid"@);
        added_entry_counts(f2, "metadata"@, metadata_json(def.metadata), "label"@);
        added_entry_counts(f3, last, value, "pid"@);
        added_entry_counts(f3, last, value, "label"@);
        added_entry_counts(f3, last, value, "metadata"@);
    }
}

/// The EXIT signal of an MCP task carries the nonce of the task. What the call printed stands
/// between delimiters made of that nonce, after the nonce and the code of a success, or is left
/// out where it is deferred; the text of an error stands between the delimiters alone.
pub proof fn output_is_marked_by_its_nonce(
    a: OrchestratorView,
    b: OrchestratorView,
    pid: u64,
    def: TaskDefView,
    output: Result<Seq<char>, Seq<char>>,
) -> (exit: SignalView)
    requires
        orderly(a),
        is_running(a.tasks, pid),
        a.tasks[pid].kind == TaskKindView::Mcp(def),
        result_handled(
            a,
            b,
            TaskResultView { pid, kind: TaskResultKindView::McpComplete(output) },
        ),
    ensures
        logged(a.entries, b.entries, seq![exit], a.capacity),
        exit.pid == pid,
        exit.kind == SignalKind::Exit,
        exit.nonce == a.tasks[pid].nonce,
        exit.nonce matches Some(h) && is_four_hex(h) && exit.message == match output {
            Ok(_) => if def.defer_output {
                "[hash="@ + h + "] 200 (deferred)"@
            } else {
                "[hash="@ + h + "] 200 "@ + delimited(h, raw_output(output))
            },
            Err(e) => delimited(h, e),
        },
{
    let result = TaskResultView { pid, kind: TaskResultKindView::McpComplete(output) };
    assert(a.tasks.contains_key(pid));
    let signals = result_signals(task_at(a.tasks, pid), result);
    assert(signals =~= seq![signals[0]]);
    signals[0]
}

/// The output of an MCP task that has succeeded can be read from then on, and is always what the
/// call printed. One that has failed never has a stored output.
pub proof fn stored_output_is_read_back(
    states: Seq<OrchestratorView>,
    steps: Seq<Step>,
    i: int,
    j: int,
    pid: u64,
    output: Result<Seq<char>, Seq<char>>,
)
    requires
        history(states, steps),
        orderly(states[0]),
        0 <= i < j < states.len(),
        steps[i] == (Step::Result {
            result: TaskResultView { pid, kind: TaskResultKindView::McpComplete(output) },
        }),
        is_running(states[i].tasks, pid),
    ensures
        states[j].tasks.contains_key(pid),
        states[j].tasks[pid].state == TaskState::Exited,
        states[j].tasks[pid].output == match output {
            Ok(out) => Some(out),
            Err(_) => None,
        },
{
    assert(happens(states[i], states[i + 1], steps[i]));
    history_keeps_order(states, steps, i, i);
    history_keeps_order(states, steps, i + 1, j);
    assert(states[i].tasks.contains_key(pid));
    assert(states[i + 1].tasks.contains_key(pid));
}

/// The tasks of a dispatch belong to its session, and no task of another session does.
pub proof fn sessions_are_kept_apart(
    a: OrchestratorView,
    b: OrchestratorView,
    defs: Seq<TaskDefView>,
    pids: Seq<u64>,
    session: Seq<char>,
    pid: u64,
)
    requires
        dispatched(a, b, defs, pids),
        b.session == Some(session),
    ensures
        pids.contains(pid) ==> session_pids(b.tasks, session).contains(pid),
        a.tasks.contains_key(pid) && !pids.contains(pid) ==> (session_pids(
            b.tasks,
            session,
        ).contains(pid) <==> a.tasks[pid].session == Some(session)),
{
    if pids.contains(pid) {
        let i = choose|i: int| 0 <= i < pids.len() && pids[i] == pid;
        assert(pids[i] == pid);
    }
    assert(b.tasks.contains_key(pid) <==> a.tasks.contains_key(pid) || pids.contains(pid));
}

/// When the only running task ends, nothing is running any more, so that the client wakes.
pub proof fn the_last_end_leaves_nothing_running(
    a: OrchestratorView,
    b: OrchestratorView,
    result: TaskResultView,
)
    requires
        forall|pid: u64| #[trigger] is_running(a.tasks, pid) ==> pid == result.pid,
        result_handled(a, b, result),
    ensures
        !any_running(b.tasks),
{
    assert forall|pid: u64| !is_running(b.tasks, pid) by {
        assert(is_running(a.tasks, pid) ==> pid == result.pid);
    }
}

/// Only a dispatch changes the strategy and the session, and it sets them to what it gives.
pub proof fn only_a_dispatch_sets_strategy_and_session(
    a: OrchestratorView,
    b: OrchestratorView,
    step: Step,
)
    requires
        happens(a, b, step),
    ensures
        match step {
            Step::Dispatch { strategy, session, .. } => headed(a, b, strategy, session),
            _ => b.strategy == a.strategy && b.session == a.session,
        },
{
}

/// Whether an operation gives a strategy.
pub open spec fn gives_strategy(step: Step) -> bool {
    step matches Step::Dispatch { strategy, .. } && strategy is Some
}

/// A strategy that is set heads what the client reads at every wake-up until another is given. It
/// does so over all sessions: a dispatch that names another session and gives no strategy leaves
/// it standing.
pub proof fn strategy_heads_every_wake_up(
    states: Seq<OrchestratorView>,
    steps: Seq<Step>,
    i: int,
    j: int,
    strategy: Seq<char>,
)
    requires
        history(states, steps),
        0 <= i <= j < states.len(),
        states[i].strategy == Some(strategy),
        forall|k: int| i <= k < j ==> !gives_strategy(#[trigger] steps[k]),
    ensures
        states[j].strategy == Some(strategy),
        strategy.is_prefix_of(states[j].wake_text()),
    decreases j - i,
{
    if i < j {
        strategy_heads_every_wake_up(states, steps, i, j - 1, strategy);
        assert(happens(states[j - 1], states[j], steps[j - 1]));
        only_a_dispatch_sets_strategy_and_session(states[j - 1], states[j], steps[j - 1]);
    }
    let text = states[j].wake_text();
    assert(strategy =~= text.subrange(0, strategy.len() as int));
}

} // verus!
