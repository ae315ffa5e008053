//! What the operations of an orchestrator are for, said of their inputs and of the states before
//! and after them alone.

use vstd::prelude::*;

use crate::error::{DispatchError, DispatchErrorView};
use crate::event::{ActionView, TaskResult, TaskResultKindView, TaskResultView, WaitEvent};
use crate::json::{added_entry_counts, json_text, lookup, JsonView, NumberView};
use crate::laws::killed_are_the_running_ones_named;
use crate::nonce::{nanos_below_second, nonce_text, passed_since_epoch};
use crate::orchestrator::{
    actions_taken, any_running, armed_for, delimited, dispatch_actions, dispatched, event_handled,
    first_unknown, headed, init_signal, init_signals, is_running, kill_actions, kill_done,
    kill_signal, kill_signals, killed_of, lists_statuses, metadata_json, pids_from, raw_output,
    remind_signal, reminder_ticked, result_handled, result_signals, results_handled, results_trace,
    session_pids, shut_down, shut_down_in, start_actions, status_pids, task_at, tasks_killed,
    tasks_waited, timer_dispatched, timer_exit_payload, timer_init_payload, timer_remind_payload,
    wait_done, wait_signal, waited_of, OrchestratorView,
};
use crate::pid::{counted_on, counter_range, pids_are_distinct};
use crate::reminder::{Reminder, ReminderEvent};
use crate::signal::{
    latest_signals_stand_last, spelled, window_text_shows_every_entry, EntryView, SignalKind,
    SignalView,
};
use crate::task::{
    is_status_of, secs_between, TaskDefView, TaskKindView, TaskState, TaskStatus,
    TaskStatusKindView, TaskView, TimerDefView,
};
use crate::text::decimal;

verus! {

/// The actions that were queued between two states.
pub open spec fn newly_queued(a: OrchestratorView, b: OrchestratorView) -> Seq<ActionView> {
    b.pending.skip(a.pending.len() as int)
}

// --- Starting tasks ---

/// An action of a dispatch is the call of one of its tasks, or starts the reminder of one that
/// asks for it.
proof fn dispatch_action_belongs(defs: Seq<TaskDefView>, first: u64, k: int) -> (j: int)
    requires
        0 <= k < dispatch_actions(defs, first).len(),
    ensures
        0 <= j < defs.len(),
        ({
            let action = dispatch_actions(defs, first)[k];
            let pid = counted_on(first, j as nat);
            ||| action == ActionView::Call {
                pid,
                server: defs[j].server,
                tool: defs[j].tool,
                params: defs[j].params,
            }
            ||| defs[j].remind_after matches Some(s) && s > 0 && action
                == ActionView::StartReminder { pid, secs: s }
        }),
    decreases defs.len(),
{
    let n = (defs.len() - 1) as nat;
    let some = defs.drop_last();
    let earlier = dispatch_actions(some, first);
    if k < earlier.len() {
        let j = dispatch_action_belongs(some, first, k);
        assert(some[j] == defs[j]);
        j
    } else {
        let own = start_actions(defs.last(), counted_on(first, n));
        assert(dispatch_actions(defs, first)[k] == own[k - earlier.len()]);
        n as int
    }
}

/// A dispatch queues the call of each of its tasks, and the start of each reminder.
proof fn dispatch_actions_cover(defs: Seq<TaskDefView>, first: u64, i: int)
    requires
        0 <= i < defs.len(),
    ensures
        dispatch_actions(defs, first).contains(
            ActionView::Call {
                pid: counted_on(first, i as nat),
                server: defs[i].server,
                tool: defs[i].tool,
                params: defs[i].params,
            },
        ),
        forall|s: u64|
            s > 0 && defs[i].remind_after == Some(s) ==> #[trigger] dispatch_actions(
                defs,
                first,
            ).contains(ActionView::StartReminder { pid: counted_on(first, i as nat), secs: s }),
    decreases defs.len(),
{
    let n = defs.len() - 1;
    let some = defs.drop_last();
    let all = dispatch_actions(defs, first);
    let earlier = dispatch_actions(some, first);
    let own = start_actions(defs.last(), counted_on(first, n as nat));
    assert(all == earlier + own);
    let pid = counted_on(first, i as nat);
    let call = ActionView::Call {
        pid,
        server: defs[i].server,
        tool: defs[i].tool,
        params: defs[i].params,
    };
    if i < n {
        dispatch_actions_cover(some, first, i);
        assert(some[i] == defs[i]);
        let k = choose|k: int| 0 <= k < earlier.len() && earlier[k] == call;
        assert(all[k] == call);
        if let Some(s) = defs[i].remind_after {
            if s > 0 {
                let start = ActionView::StartReminder { pid, secs: s };
                assert(earlier.contains(start));
                let k2 = choose|k: int| 0 <= k < earlier.len() && earlier[k] == start;
                assert(all[k2] == start);
            }
        }
    } else {
        assert(own.last() == call);
        assert(all[all.len() - 1] == call);
        if let Some(s) = defs[i].remind_after {
            if s > 0 {
                assert(all[earlier.len() as int] == ActionView::StartReminder { pid, secs: s });
            }
        }
    }
}

/// Whether an action is the call of a PID.
pub open spec fn is_call_of(action: ActionView, pid: u64) -> bool {
    action matches ActionView::Call { pid: p, .. } && p == pid
}

/// Whether an action starts the reminder of a PID.
pub open spec fn is_reminder_of(action: ActionView, pid: u64) -> bool {
    action matches ActionView::StartReminder { pid: p, .. } && p == pid
}

/// No task is called twice by a dispatch, and no reminder is started twice.
proof fn dispatch_actions_are_single(
    defs: Seq<TaskDefView>,
    first: u64,
    pid: u64,
    k: int,
    l: int,
)
    requires
        defs.len() < counter_range(),
        0 <= k < l < dispatch_actions(defs, first).len(),
    ensures
        ({
            let all = dispatch_actions(defs, first);
            &&& !(is_call_of(all[k], pid) && is_call_of(all[l], pid))
            &&& !(is_reminder_of(all[k], pid) && is_reminder_of(all[l], pid))
        }),
    decreases defs.len(),
{
    let n = defs.len() - 1;
    let some = defs.drop_last();
    let all = dispatch_actions(defs, first);
    let earlier = dispatch_actions(some, first);
    let own = start_actions(defs.last(), counted_on(first, n as nat));
    assert(all == earlier + own);
    if l < earlier.len() {
        dispatch_actions_are_single(some, first, pid, k, l);
    } else if k < earlier.len() {
        let j = dispatch_action_belongs(some, first, k);
        pids_are_distinct(first, j as nat, n as nat);
        assert(all[l] == own[l - earlier.len()]);
    } else {
        assert(all[l] == own[l - earlier.len()]);
        assert(all[k] == own[k - earlier.len()]);
    }
}

/// After a dispatch every task is called once, under its PID and with the server, the tool and the
/// parameters of its definition. A reminder is started once for each task that asks for one, at
/// the interval that it asks for, and for no other. Nothing else is queued, and what was queued
/// stays.
pub proof fn dispatch_calls_each_tool_as_asked(
    a: OrchestratorView,
    b: OrchestratorView,
    defs: Seq<TaskDefView>,
    pids: Seq<u64>,
    i: int,
    s: u64,
    k: int,
    l: int,
)
    requires
        dispatched(a, b, defs, pids),
        defs.len() < counter_range(),
    ensures
        pids.len() == defs.len(),
        b.pending.len() >= a.pending.len(),
        b.pending.take(a.pending.len() as int) == a.pending,
        0 <= i < defs.len() ==> newly_queued(a, b).contains(
            ActionView::Call {
                pid: pids[i],
                server: defs[i].server,
                tool: defs[i].tool,
                params: defs[i].params,
            },
        ),
        0 <= i < defs.len() && defs[i].remind_after == Some(s) && s > 0 ==> newly_queued(
            a,
            b,
        ).contains(ActionView::StartReminder { pid: pids[i], secs: s }),
        0 <= k < newly_queued(a, b).len() ==> ({
            ||| newly_queued(a, b)[k] matches ActionView::Call { pid, .. } && pids.contains(pid)
            ||| newly_queued(a, b)[k] matches ActionView::StartReminder { pid, .. }
                && pids.contains(pid)
        }),
        0 <= i < defs.len() && 0 <= k < newly_queued(a, b).len() && is_call_of(
            newly_queued(a, b)[k],
            pids[i],
        ) ==> newly_queued(a, b)[k] == (ActionView::Call {
            pid: pids[i],
            server: defs[i].server,
            tool: defs[i].tool,
            params: defs[i].params,
        }),
        0 <= i < defs.len() && 0 <= k < newly_queued(a, b).len() && is_reminder_of(
            newly_queued(a, b)[k],
            pids[i],
        ) ==> (defs[i].remind_after matches Some(secs) && secs > 0 && newly_queued(a, b)[k]
            == (ActionView::StartReminder { pid: pids[i], secs })),
        0 <= i < defs.len() && 0 <= k < l < newly_queued(a, b).len() ==> !(is_call_of(
            newly_queued(a, b)[k],
            pids[i],
        ) && is_call_of(newly_queued(a, b)[l], pids[i])),
        0 <= i < defs.len() && 0 <= k < l < newly_queued(a, b).len() ==> !(is_reminder_of(
            newly_queued(a, b)[k],
            pids[i],
        ) && is_reminder_of(newly_queued(a, b)[l], pids[i])),
{
    let queued = dispatch_actions(defs, a.next_pid);
    assert(newly_queued(a, b) =~= queued);
    assert(b.pending.take(a.pending.len() as int) =~= a.pending);
    if 0 <= i < defs.len() {
        dispatch_actions_cover(defs, a.next_pid, i);
        assert(pids[i] == counted_on(a.next_pid, i as nat));
    }
    if 0 <= k < queued.len() {
        let j = dispatch_action_belongs(defs, a.next_pid, k);
        assert(pids[j] == counted_on(a.next_pid, j as nat));
        if 0 <= i < defs.len() {
            if i < j {
                pids_are_distinct(a.next_pid, i as nat, j as nat);
            } else if j < i {
                pids_are_distinct(a.next_pid, j as nat, i as nat);
            }
        }
    }
    if 0 <= i < defs.len() && 0 <= k < l < queued.len() {
        dispatch_actions_are_single(defs, a.next_pid, pids[i], k, l);
    }
}

/// Arming the reminders of a dispatch leaves those of other PIDs as they are.
proof fn armed_elsewhere(
    reminders: Map<u64, Reminder>,
    defs: Seq<TaskDefView>,
    first: u64,
    pid: u64,
)
    requires
        !pids_from(first, defs.len()).contains(pid),
    ensures
        armed_for(reminders, defs, first).contains_key(pid) <==> reminders.contains_key(pid),
        armed_for(reminders, defs, first)[pid] == reminders[pid],
    decreases defs.len(),
{
    if defs.len() > 0 {
        let n = (defs.len() - 1) as nat;
        let all = pids_from(first, defs.len());
        let some = pids_from(first, n);
        assert(all[n as int] == counted_on(first, n));
        assert forall|j: int| 0 <= j < some.len() implies some[j] != pid by {
            assert(all[j] == some[j]);
        }
        armed_elsewhere(reminders, defs.drop_last(), first, pid);
    }
}

/// The reminder that a dispatch leaves armed for one of its tasks.
proof fn armed_at(reminders: Map<u64, Reminder>, defs: Seq<TaskDefView>, first: u64, i: int)
    requires
        0 <= i < defs.len() < counter_range(),
        !reminders.contains_key(counted_on(first, i as nat)),
    ensures
        ({
            let after = armed_for(reminders, defs, first);
            let pid = counted_on(first, i as nat);
            match defs[i].remind_after {
                Some(s) => if s > 0 {
                    after.contains_key(pid) && after[pid].interval == s && after[pid].fired == 0
                } else {
                    !after.contains_key(pid)
                },
                None => !after.contains_key(pid),
            }
        }),
    decreases defs.len(),
{
    let n = (defs.len() - 1) as nat;
    if i < n {
        armed_at(reminders, defs.drop_last(), first, i);
        pids_are_distinct(first, i as nat, n);
    } else {
        let some = pids_from(first, n);
        assert forall|j: int| 0 <= j < some.len() implies some[j] != counted_on(first, n) by {
            pids_are_distinct(first, j as nat, n);
        }
        armed_elsewhere(reminders, defs.drop_last(), first, counted_on(first, n));
    }
}

/// After a dispatch a reminder is armed for each task that asks for one with a positive number of
/// seconds, at that interval and not yet fired. A task that asks for none has none, and every other
/// reminder is as it was.
pub proof fn dispatch_arms_the_reminders_asked_for(
    a: OrchestratorView,
    b: OrchestratorView,
    defs: Seq<TaskDefView>,
    pids: Seq<u64>,
    i: int,
    s: u64,
    pid: u64,
)
    requires
        dispatched(a, b, defs, pids),
        defs.len() < counter_range(),
        forall|p: u64| #[trigger] a.reminders.contains_key(p) ==> a.tasks.contains_key(p),
        forall|j: int| 0 <= j < pids.len() ==> !a.tasks.contains_key(#[trigger] pids[j]),
    ensures
        0 <= i < defs.len() && defs[i].remind_after == Some(s) && s > 0
            ==> b.reminders.contains_key(pids[i]) && b.reminders[pids[i]].interval == s
            && b.reminders[pids[i]].fired == 0,
        0 <= i < defs.len() && (defs[i].remind_after is None || defs[i].remind_after == Some(0u64))
            ==> !b.reminders.contains_key(pids[i]),
        !pids.contains(pid) ==> (b.reminders.contains_key(pid) <==> a.reminders.contains_key(pid)),
        !pids.contains(pid) && a.reminders.contains_key(pid) ==> b.reminders[pid]
            == a.reminders[pid],
{
    if 0 <= i < defs.len() {
        assert(pids[i] == counted_on(a.next_pid, i as nat));
        armed_at(a.reminders, defs, a.next_pid, i);
    }
    if !pids.contains(pid) {
        armed_elsewhere(a.reminders, defs, a.next_pid, pid);
    }
}

/// After a dispatch each task runs under a PID of its own, counted on from the next one, with its
/// definition, the session of the dispatch and a nonce of four characters, and has no output yet.
/// All other tasks are as they were.
pub proof fn dispatch_starts_each_task(
    a: OrchestratorView,
    b: OrchestratorView,
    defs: Seq<TaskDefView>,
    pids: Seq<u64>,
    i: int,
    j: int,
    pid: u64,
)
    requires
        dispatched(a, b, defs, pids),
        defs.len() < 0x1_0000_0000_0000_0000,
    ensures
        pids.len() == defs.len(),
        0 <= i < defs.len() ==> pids[i] == (a.next_pid + i) % 0x1_0000_0000_0000_0000,
        0 <= i < j < defs.len() ==> pids[i] != pids[j],
        b.next_pid == (a.next_pid + defs.len()) % 0x1_0000_0000_0000_0000,
        b.nonce_count == (a.nonce_count + defs.len()) % 0x1_0000_0000_0000_0000,
        0 <= i < defs.len() ==> {
            let task = b.tasks[pids[i]];
            &&& b.tasks.contains_key(pids[i])
            &&& task.pid == pids[i]
            &&& task.kind == TaskKindView::Mcp(defs[i])
            &&& task.state == TaskState::Running
            &&& task.session == b.session
            &&& task.output is None
            &&& task.nonce matches Some(n) && n.len() == 4 && exists|now: std::time::SystemTime|
                n == nonce_text(
                    pids[i],
                    nanos_below_second(#[trigger] passed_since_epoch(now)),
                    ((a.nonce_count + i) % 0x1_0000_0000_0000_0000) as u64,
                )
        },
        !pids.contains(pid) ==> (b.tasks.contains_key(pid) <==> a.tasks.contains_key(pid)),
        !pids.contains(pid) && a.tasks.contains_key(pid) ==> b.tasks[pid] == a.tasks[pid],
        b.capacity == a.capacity,
{
    if 0 <= i < j < defs.len() {
        pids_are_distinct(a.next_pid, i as nat, j as nat);
    }
    if 0 <= i < defs.len() {
        assert(pids[i] == counted_on(a.next_pid, i as nat));
        assert(pids.contains(pids[i]));
    }
    assert(b.tasks.contains_key(pid) <==> a.tasks.contains_key(pid) || pids.contains(pid));
}

/// A dispatch logs an INIT signal for each task, in their order, which names its server and its
/// tool and shows its parameters where there are any. It has no payload and no nonce. The entries
/// before stay as far as there is room.
pub proof fn dispatch_logs_each_task(
    a: OrchestratorView,
    b: OrchestratorView,
    defs: Seq<TaskDefView>,
    pids: Seq<u64>,
    i: int,
)
    requires
        dispatched(a, b, defs, pids),
        0 <= i < defs.len(),
        defs.len() - i <= b.entries.len(),
    ensures
        ({
            let signal = b.entries[b.entries.len() - defs.len() + i].signal;
            let call = defs[i].server + "/"@ + defs[i].tool;
            &&& signal.pid == pids[i]
            &&& signal.kind == SignalKind::Init
            &&& signal.payload is None
            &&& signal.nonce is None
            &&& defs[i].params is Null ==> signal.message == call
            &&& defs[i].params == JsonView::Object(Seq::empty()) ==> signal.message == call
            &&& !(defs[i].params is Null) && defs[i].params != JsonView::Object(Seq::empty())
                ==> signal.message == call + " "@ + json_text(defs[i].params)
        }),
        b.entries.len() == if a.entries.len() + defs.len() <= a.capacity {
            a.entries.len() + defs.len()
        } else {
            a.capacity
        },
        defs.len() <= b.entries.len() ==> b.entries.take(b.entries.len() - defs.len())
            == a.entries.skip(a.entries.len() - (b.entries.len() - defs.len())),
{
    let signals = init_signals(b.tasks, pids);
    latest_signals_stand_last(a.entries, b.entries, signals, a.capacity);
    assert(signals.len() == defs.len());
    assert(signals[i] == init_signal(b.tasks[pids[i]]));
    let k = b.entries.len() - defs.len() + i;
    assert(b.entries[k].signal == signals[i]);
}

/// A dispatch is in the session that it names, or in none, and sets the strategy that it gives;
/// where it gives none the earlier one stays.
pub proof fn dispatch_sets_session_and_strategy(
    a: OrchestratorView,
    b: OrchestratorView,
    strategy: Option<Seq<char>>,
    session: Option<Seq<char>>,
)
    requires
        headed(a, b, strategy, session),
    ensures
        b.session == session,
        strategy is Some ==> b.strategy == strategy,
        strategy is None ==> b.strategy == a.strategy,
{
}

/// Starting a timer gives it the next PID. It runs with its definition, in the current session and
/// without a nonce, and the one thing to do is to sleep for its whole duration. Nothing else
/// changes but the log.
pub proof fn timer_sleeps_as_long_as_asked(
    a: OrchestratorView,
    b: OrchestratorView,
    def: TimerDefView,
    pid: u64,
    other: u64,
)
    requires
        timer_dispatched(a, b, def, pid),
    ensures
        pid == a.next_pid,
        b.next_pid == (a.next_pid + 1) % 0x1_0000_0000_0000_0000,
        b.tasks.contains_key(pid),
        b.tasks[pid].pid == pid,
        b.tasks[pid].kind == TaskKindView::Timer(def),
        b.tasks[pid].state == TaskState::Running,
        b.tasks[pid].session == a.session,
        b.tasks[pid].nonce is None,
        b.tasks[pid].output is None,
        other != pid ==> (b.tasks.contains_key(other) <==> a.tasks.contains_key(other)),
        other != pid && a.tasks.contains_key(other) ==> b.tasks[other] == a.tasks[other],
        b.pending.len() == a.pending.len() + 1,
        b.pending.take(a.pending.len() as int) == a.pending,
        b.pending.last() == (ActionView::Sleep {
            pid,
            label: def.label,
            duration: def.duration,
            metadata: def.metadata,
        }),
        b.reminders == a.reminders,
        b.strategy == a.strategy,
        b.session == a.session,
        b.nonce_count == a.nonce_count,
        b.capacity == a.capacity,
{
    assert(b.pending.take(a.pending.len() as int) =~= a.pending);
}

/// What the payload of a timer's signal gives for a key.
proof fn payload_of(pid: u64, kind: Seq<char>, label: Seq<char>, rest: Seq<(Seq<char>, JsonView)>)
    requires
        rest.len() <= 2,
        forall|i: int|
            0 <= i < rest.len() ==> (#[trigger] rest[i]).0 != "pid"@ && rest[i].0 != "type"@
                && rest[i].0 != "label"@,
        rest.len() == 2 ==> rest[0].0 != rest[1].0,
    ensures
        ({
            let head: Seq<(Seq<char>, JsonView)> = Seq::empty().push(
                ("pid"@, JsonView::Number(NumberView::PosInt(pid))),
            ).push(("type"@, JsonView::Str(kind))).push(("label"@, JsonView::Str(label)));
            let fields = head + rest;
            &&& lookup(fields, "pid"@) == Some(JsonView::Number(NumberView::PosInt(pid)))
            &&& lookup(fields, "type"@) == Some(JsonView::Str(kind))
            &&& lookup(fields, "label"@) == Some(JsonView::Str(label))
            &&& forall|i: int|
                0 <= i < rest.len() ==> lookup(fields, (#[trigger] rest[i]).0) == Some(rest[i].1)
        }),
{
    reveal_strlit("pid");
    reveal_strlit("type");
    reveal_strlit("label");
    assert("pid"@.len() == 3 && "type"@.len() == 4 && "label"@.len() == 5);
    let f0: Seq<(Seq<char>, JsonView)> = Seq::empty();
    let f1 = f0.push(("pid"@, JsonView::Number(NumberView::PosInt(pid))));
    let f2 = f1.push(("type"@, JsonView::Str(kind)));
    let head = f2.push(("label"@, JsonView::Str(label)));
    let fields = head + rest;
    added_entry_counts(f0, "pid"@, f1.last().1, "pid"@);
    added_entry_counts(f1, "type"@, f2.last().1, "pid"@);
    added_entry_counts(f2, "label"@, head.last().1, "pid"@);
    added_entry_counts(f2, "label"@, head.last().1, "type"@);
    if rest.len() == 0 {
        assert(fields =~= head);
    } else {
        let g = head.push(rest[0]);
        added_entry_counts(head, rest[0].0, rest[0].1, "pid"@);
        added_entry_counts(head, rest[0].0, rest[0].1, "type"@);
        added_entry_counts(head, rest[0].0, rest[0].1, "label"@);
        if rest.len() == 1 {
            assert(fields =~= g);
        } else {
            assert(fields =~= g.push(rest[1]));
            added_entry_counts(g, rest[1].0, rest[1].1, "pid"@);
            added_entry_counts(g, rest[1].0, rest[1].1, "type"@);
            added_entry_counts(g, rest[1].0, rest[1].1, "label"@);
            added_entry_counts(g, rest[1].0, rest[1].1, rest[0].0);
        }
    }
}

/// The log tells of a new timer: its label and its seconds in the message, and its PID, its label,
/// its metadata and its duration in the payload. The entries before stay as far as there is room.
pub proof fn timer_start_is_logged(
    a: OrchestratorView,
    b: OrchestratorView,
    def: TimerDefView,
    pid: u64,
)
    requires
        timer_dispatched(a, b, def, pid),
        a.capacity > 0,
    ensures
        b.entries.len() == if a.entries.len() < a.capacity {
            a.entries.len() + 1
        } else {
            a.capacity
        },
        b.entries.drop_last() == a.entries.skip(a.entries.len() - (b.entries.len() - 1)),
        ({
            let signal = b.entries.last().signal;
            &&& signal.pid == pid
            &&& signal.kind == SignalKind::Init
            &&& signal.nonce is None
            &&& signal.message == "timer \""@ + def.label + "\" ("@ + decimal(def.duration as nat)
                + "s)"@
            &&& signal.payload matches Some(payload) && {
                &&& payload.u64_field("pid"@) == Some(pid)
                &&& payload.str_field("type"@) == Some("INIT"@)
                &&& payload.str_field("label"@) == Some(def.label)
                &&& payload.u64_field("duration"@) == Some(def.duration)
                &&& payload.field("metadata"@) == Some(
                    match def.metadata {
                        Some(m) => m,
                        None => JsonView::Null,
                    },
                )
            }
        }),
{
    latest_signals_stand_last(a.entries, b.entries, seq![init_signal(b.tasks[pid])], a.capacity);
    assert(b.entries[b.entries.len() - 1].signal == init_signal(b.tasks[pid]));
    assert(b.entries.drop_last() =~= b.entries.take(b.entries.len() - 1));
    reveal_strlit("pid");
    reveal_strlit("type");
    reveal_strlit("label");
    reveal_strlit("metadata");
    reveal_strlit("duration");
    assert("pid"@.len() == 3 && "type"@.len() == 4 && "label"@.len() == 5);
    assert("metadata"@.len() == 8 && "duration"@.len() == 8);
    assert("metadata"@[0] != "duration"@[0]);
    let rest = seq![
        ("metadata"@, metadata_json(def.metadata)),
        ("duration"@, JsonView::Number(NumberView::PosInt(def.duration))),
    ];
    payload_of(pid, "INIT"@, def.label, rest);
    let head: Seq<(Seq<char>, JsonView)> = Seq::empty().push(
        ("pid"@, JsonView::Number(NumberView::PosInt(pid))),
    ).push(("type"@, JsonView::Str("INIT"@))).push(("label"@, JsonView::Str(def.label)));
    assert(timer_init_payload(pid, def)->Object_0 =~= head + rest);
    assert(lookup(head + rest, rest[0].0) == Some(rest[0].1));
    assert(lookup(head + rest, rest[1].0) == Some(rest[1].1));
}

// --- Killing and waiting ---

/// To kill tasks succeeds where every PID belongs to a task, and otherwise names the first one
/// that does not. Where it fails, the tasks named before that PID are killed, as they would be if
/// only they had been named.
pub proof fn kill_fails_at_the_first_unknown_pid(
    a: OrchestratorView,
    b: OrchestratorView,
    pids: Seq<u64>,
    outcome: Result<Seq<u64>, DispatchErrorView>,
)
    requires
        kill_done(a, b, pids, outcome),
    ensures
        outcome is Ok <==> forall|i: int|
            0 <= i < pids.len() ==> a.tasks.contains_key(#[trigger] pids[i]),
        outcome matches Err(e) ==> exists|k: int|
            {
                &&& 0 <= k < pids.len()
                &&& !a.tasks.contains_key(#[trigger] pids[k])
                &&& forall|i: int| 0 <= i < k ==> a.tasks.contains_key(#[trigger] pids[i])
                &&& e == DispatchErrorView::TaskNotFound(pids[k])
                &&& kill_done(a, b, pids.take(k), Ok(killed_of(a.tasks, pids.take(k))))
            },
{
    if outcome is Err {
        let k = choose|k: int| #[trigger]
            first_unknown(a.tasks, pids, k) && outcome->Err_0 == DispatchErrorView::TaskNotFound(
                pids[k],
            ) && tasks_killed(a, b, killed_of(a.tasks, pids.take(k)));
        assert(!a.tasks.contains_key(pids[k]));
        assert forall|i: int| 0 <= i < k implies a.tasks.contains_key(#[trigger] pids[i]) by {
            assert(pids.take(k)[i] == pids[i]);
        }
    }
}

/// The PIDs that are killed stand in the order in which they are first named.
proof fn killed_in_order(tasks: Map<u64, TaskView>, pids: Seq<u64>, i: int, j: int) -> (p: int)
    requires
        0 <= i < j < killed_of(tasks, pids).len(),
    ensures
        0 <= p < pids.len(),
        pids[p] == killed_of(tasks, pids)[i],
        !pids.take(p + 1).contains(killed_of(tasks, pids)[j]),
    decreases pids.len(),
{
    let some = pids.drop_last();
    let before = killed_of(tasks, some);
    let killed = killed_of(tasks, pids);
    if j < before.len() {
        let p = killed_in_order(tasks, some, i, j);
        assert(pids.take(p + 1) =~= some.take(p + 1));
        p
    } else {
        killed_are_the_running_ones_named(tasks, some);
        assert(before.contains(before[i]));
        let p = choose|p: int| 0 <= p < some.len() && some[p] == before[i];
        assert(pids[p] == killed[i]);
        if pids.take(p + 1).contains(killed[j]) {
            let q = pids.take(p + 1).index_of(killed[j]);
            assert(some[q] == killed[j]);
            assert(some.contains(killed[j]));
            assert(before.contains(killed[j]));
        }
        p
    }
}

/// What is killed are the running tasks among those named, each once and in the order in which
/// they are first named. Each is killed and keeps everything else of its record; its reminder is
/// disarmed; it is aborted and its reminder cancelled. All other tasks and reminders, and the rest
/// of the state, are as they were.
pub proof fn kill_ends_the_running_tasks_named(
    a: OrchestratorView,
    b: OrchestratorView,
    pids: Seq<u64>,
    killed: Seq<u64>,
    pid: u64,
    i: int,
    j: int,
)
    requires
        kill_done(a, b, pids, Ok(killed)),
    ensures
        killed.contains(pid) <==> pids.contains(pid) && a.tasks.contains_key(pid)
            && a.tasks[pid].state == TaskState::Running,
        0 <= i < j < killed.len() ==> killed[i] != killed[j],
        0 <= i < j < killed.len() ==> exists|p: int|
            0 <= p < pids.len() && #[trigger] pids[p] == killed[i] && !pids.take(p + 1).contains(
                killed[j],
            ),
        b.tasks.contains_key(pid) <==> a.tasks.contains_key(pid),
        killed.contains(pid) ==> b.tasks[pid] == (TaskView {
            state: TaskState::Killed,
            ..a.tasks[pid]
        }),
        a.tasks.contains_key(pid) && !killed.contains(pid) ==> b.tasks[pid] == a.tasks[pid],
        killed.contains(pid) ==> !b.reminders.contains_key(pid),
        !killed.contains(pid) ==> (b.reminders.contains_key(pid)
            <==> a.reminders.contains_key(pid)),
        b.reminders.contains_key(pid) ==> b.reminders[pid] == a.reminders[pid],
        b.pending.take(a.pending.len() as int) == a.pending,
        newly_queued(a, b).len() == 2 * killed.len(),
        0 <= i < killed.len() ==> newly_queued(a, b)[2 * i] == (ActionView::Abort {
            pid: killed[i],
        }),
        0 <= i < killed.len() ==> newly_queued(a, b)[2 * i + 1] == (ActionView::CancelReminder {
            pid: killed[i],
        }),
        b.next_pid == a.next_pid,
        b.nonce_count == a.nonce_count,
        b.strategy == a.strategy,
        b.session == a.session,
        b.capacity == a.capacity,
{
    killed_are_the_running_ones_named(a.tasks, pids);
    if 0 <= i < j < killed.len() {
        let p = killed_in_order(a.tasks, pids, i, j);
        assert(pids[p] == killed[i]);
    }
    kill_actions_in_pairs(killed, i);
    assert(newly_queued(a, b) =~= kill_actions(killed));
    assert(b.pending.take(a.pending.len() as int) =~= a.pending);
    assert(killed.to_set().contains(pid) <==> killed.contains(pid));
}

/// The actions of a kill come in pairs.
proof fn kill_actions_in_pairs(killed: Seq<u64>, i: int)
    ensures
        kill_actions(killed).len() == 2 * killed.len(),
        0 <= i < killed.len() ==> kill_actions(killed)[2 * i] == (ActionView::Abort {
            pid: killed[i],
        }),
        0 <= i < killed.len() ==> kill_actions(killed)[2 * i + 1] == (ActionView::CancelReminder {
            pid: killed[i],
        }),
    decreases killed.len(),
{
    if killed.len() > 0 {
        kill_actions_in_pairs(killed.drop_last(), i);
    }
}

/// A kill logs a KILL signal for each task that it ends: for a timer with its PID and its label in
/// the payload, for an MCP task without one.
pub proof fn kill_is_logged(
    a: OrchestratorView,
    b: OrchestratorView,
    pids: Seq<u64>,
    killed: Seq<u64>,
    i: int,
)
    requires
        a.wf(),
        kill_done(a, b, pids, Ok(killed)),
        0 <= i < killed.len(),
        killed.len() - i <= b.entries.len(),
    ensures
        b.entries.len() == if a.entries.len() + killed.len() <= a.capacity {
            a.entries.len() + killed.len()
        } else {
            a.capacity
        },
        killed.len() <= b.entries.len() ==> b.entries.take(b.entries.len() - killed.len())
            == a.entries.skip(a.entries.len() - (b.entries.len() - killed.len())),
        ({
            let signal = b.entries[b.entries.len() - killed.len() + i].signal;
            &&& signal.pid == killed[i]
            &&& signal.kind == SignalKind::Kill
            &&& signal.nonce is None
            &&& match a.tasks[killed[i]].kind {
                TaskKindView::Mcp(_) => signal.message == "Terminated by LLM"@
                    && signal.payload is None,
                TaskKindView::Timer(def) => signal.message == "timer cancelled"@ && (
                signal.payload matches Some(payload) && {
                    &&& payload.u64_field("pid"@) == Some(killed[i])
                    &&& payload.str_field("type"@) == Some("KILL"@)
                    &&& payload.str_field("label"@) == Some(def.label)
                }),
            }
        }),
{
    killed_are_the_running_ones_named(a.tasks, pids);
    assert(killed.contains(killed[i]));
    let task = a.tasks[killed[i]];
    assert(a.tasks.contains_key(killed[i]));
    let signals = kill_signals(a.tasks, killed);
    latest_signals_stand_last(a.entries, b.entries, signals, a.capacity);
    let k = b.entries.len() - killed.len() + i;
    assert(b.entries[k].signal == signals[i]);
    assert(signals[i] == kill_signal(task));
    if let TaskKindView::Timer(def) = task.kind {
        payload_of(killed[i], "KILL"@, def.label, Seq::empty());
        let head: Seq<(Seq<char>, JsonView)> = Seq::empty().push(
            ("pid"@, JsonView::Number(NumberView::PosInt(killed[i]))),
        ).push(("type"@, JsonView::Str("KILL"@))).push(("label"@, JsonView::Str(def.label)));
        assert(head + Seq::empty() =~= head);
    }
}

/// To wait on tasks succeeds where every PID belongs to a task, and otherwise names the first one
/// that does not. It changes nothing but the log, which gets a WAIT signal for every running task
/// that was named, as often as it was named and in that order.
pub proof fn waiting_only_logs(
    a: OrchestratorView,
    b: OrchestratorView,
    pids: Seq<u64>,
    outcome: Result<Seq<u64>, DispatchErrorView>,
    i: int,
)
    requires
        wait_done(a, b, pids, outcome),
    ensures
        outcome is Ok <==> forall|k: int|
            0 <= k < pids.len() ==> a.tasks.contains_key(#[trigger] pids[k]),
        outcome matches Err(e) ==> exists|k: int|
            {
                &&& 0 <= k < pids.len()
                &&& !a.tasks.contains_key(#[trigger] pids[k])
                &&& forall|l: int| 0 <= l < k ==> a.tasks.contains_key(#[trigger] pids[l])
                &&& e == DispatchErrorView::TaskNotFound(pids[k])
                &&& wait_done(a, b, pids.take(k), Ok(waited_of(a.tasks, pids.take(k))))
            },
        b == (OrchestratorView { entries: b.entries, ..a }),
        outcome matches Ok(waited) ==> waited == pids.filter(
            |pid: u64| a.tasks.contains_key(pid) && a.tasks[pid].state == TaskState::Running,
        ),
        outcome matches Ok(waited) ==> 0 <= i < waited.len() && waited.len() - i <= b.entries.len()
            ==> b.entries[b.entries.len() - waited.len() + i].signal == (SignalView {
            pid: waited[i],
            kind: SignalKind::Wait,
            message: "LLM decided to continue waiting"@,
            payload: None,
            nonce: None,
        }),
        outcome matches Ok(waited) ==> waited.len() <= b.entries.len() ==> b.entries.take(
            b.entries.len() - waited.len(),
        ) == a.entries.skip(a.entries.len() - (b.entries.len() - waited.len())),
{
    match outcome {
        Ok(waited) => {
            waited_are_filtered(a.tasks, pids);
            let signals = waited.map_values(|pid: u64| wait_signal(pid));
            latest_signals_stand_last(a.entries, b.entries, signals, a.capacity);
            assert(signals.len() == waited.len());
            if 0 <= i < waited.len() && waited.len() - i <= b.entries.len() {
                let k = b.entries.len() - waited.len() + i;
                assert(b.entries[k].signal == signals[i]);
            }
        },
        Err(e) => {
            let k = choose|k: int| #[trigger]
                first_unknown(a.tasks, pids, k) && e == DispatchErrorView::TaskNotFound(pids[k])
                    && tasks_waited(a, b, waited_of(a.tasks, pids.take(k)));
            assert(!a.tasks.contains_key(pids[k]));
            assert forall|l: int| 0 <= l < k implies a.tasks.contains_key(#[trigger] pids[l]) by {
                assert(pids.take(k)[l] == pids[l]);
            }
        },
    }
}

/// The PIDs that are waited on.
proof fn waited_are_filtered(tasks: Map<u64, TaskView>, pids: Seq<u64>)
    ensures
        waited_of(tasks, pids) == pids.filter(
            |pid: u64| tasks.contains_key(pid) && tasks[pid].state == TaskState::Running,
        ),
    decreases pids.len(),
{
    reveal(Seq::filter);
    if pids.len() > 0 {
        waited_are_filtered(tasks, pids.drop_last());
    }
}

// --- Ends of tasks and wake-ups ---

/// What a woken client reads: the strategy with a blank line after it, where one is set, and then
/// the last entries of the log. Where there is a current session, these are the last entries on
/// its tasks; otherwise the last of all. Each is shown with its time, its PID, its kind and its
/// whole message.
pub proof fn woken_client_reads_strategy_and_log(state: OrchestratorView)
    ensures
        ({
            let chosen = match state.session {
                Some(session) => state.entries.filter(
                    |e: EntryView|
                        state.tasks.contains_key(e.signal.pid)
                            && state.tasks[e.signal.pid].session == Some(session),
                ),
                None => state.entries,
            };
            let shown = if chosen.len() > 20 {
                chosen.skip(chosen.len() - 20)
            } else {
                chosen
            };
            let log = if shown.len() == 0 {
                "Signal window: (empty)"@
            } else {
                "Signal window (last "@ + decimal(shown.len()) + "):\n"@ + shown.map_values(
                    |e: EntryView| spelled(e),
                ).flatten()
            };
            &&& state.strategy is None ==> state.wake_text() == log
            &&& state.strategy matches Some(s) ==> state.wake_text() == s + "\n\n"@ + log
        }),
{
    match state.session {
        Some(session) => {
            let pids = session_pids(state.tasks, session);
            window_text_shows_every_entry(state.entries, 20, pids);
            let by_set = |e: EntryView| pids.contains(e.signal.pid);
            let by_task = |e: EntryView|
                state.tasks.contains_key(e.signal.pid) && state.tasks[e.signal.pid].session
                    == Some(session);
            assert(by_set =~= by_task);
        },
        None => {
            window_text_shows_every_entry(state.entries, 20, Set::empty());
        },
    }
}

/// The end of a running MCP task that asks for it wakes the client, whatever else its definition
/// says and whatever else is running. The end of any other task wakes it where nothing runs any
/// more, and otherwise leaves it asleep. A client that wakes reads the text of the new state.
pub proof fn end_of_a_task_wakes_as_asked(
    a: OrchestratorView,
    b: OrchestratorView,
    result: TaskResult,
    res: Result<Option<String>, DispatchError>,
    def: TaskDefView,
    other: u64,
)
    requires
        event_handled(a, b, WaitEvent::TaskDone(result), res),
    ensures
        a.tasks.contains_key(result.pid) && a.tasks[result.pid].state == TaskState::Running
            && a.tasks[result.pid].kind == TaskKindView::Mcp(def) && def.fire_wake ==> res is Ok
            && res->Ok_0 is Some,
        b.tasks.contains_key(other) && b.tasks[other].state == TaskState::Running && (
        !a.tasks.contains_key(result.pid) || a.tasks[result.pid].state != TaskState::Running
            || a.tasks[result.pid].kind is Timer || (a.tasks[result.pid].kind == TaskKindView::Mcp(
            def,
        ) && !def.fire_wake)) ==> res is Ok && res->Ok_0 is None,
        (forall|pid: u64| #[trigger]
            b.tasks.contains_key(pid) ==> b.tasks[pid].state != TaskState::Running) ==> res is Ok
            && res->Ok_0 is Some,
        res is Ok,
        res->Ok_0 matches Some(text) ==> text@ == b.wake_text(),
        result_handled(a, b, result@),
{
    assert(is_running(b.tasks, other) ==> any_running(b.tasks));
}

/// Where a client begins to wait it wakes at once if nothing runs, and the state stays.
pub proof fn waiting_begins_asleep_where_something_runs(
    a: OrchestratorView,
    b: OrchestratorView,
    res: Result<Option<String>, DispatchError>,
    pid: u64,
)
    requires
        event_handled(a, b, WaitEvent::Start, res),
    ensures
        b == a,
        a.tasks.contains_key(pid) && a.tasks[pid].state == TaskState::Running ==> res is Ok
            && res->Ok_0 is None,
        (forall|p: u64| #[trigger]
            a.tasks.contains_key(p) ==> a.tasks[p].state != TaskState::Running) ==> res is Ok
            && res->Ok_0 is Some,
        res is Ok,
        res->Ok_0 matches Some(text) ==> text@ == b.wake_text(),
{
    assert(is_running(a.tasks, pid) ==> any_running(a.tasks));
}

/// A reminder of a running task wakes the client and is logged with the seconds that have passed;
/// one of any other task changes nothing and leaves the client asleep.
pub proof fn reminder_wakes_for_a_running_task(
    a: OrchestratorView,
    b: OrchestratorView,
    pid: u64,
    elapsed_secs: u64,
    res: Result<Option<String>, DispatchError>,
)
    requires
        event_handled(a, b, WaitEvent::Reminder(ReminderEvent { pid, elapsed_secs }), res),
        a.capacity > 0,
    ensures
        ({
            let running = a.tasks.contains_key(pid) && a.tasks[pid].state == TaskState::Running;
            &&& !running ==> b == a && res is Ok && res->Ok_0 is None
            &&& running ==> {
                &&& b == OrchestratorView { entries: b.entries, ..a }
                &&& res is Ok && res->Ok_0 is Some
                &&& (res->Ok_0)->0@ == b.wake_text()
                &&& b.entries.len() == if a.entries.len() < a.capacity {
                    a.entries.len() + 1
                } else {
                    a.capacity
                }
                &&& b.entries.drop_last() == a.entries.skip(
                    a.entries.len() - (b.entries.len() - 1),
                )
                &&& b.entries.last().signal == SignalView {
                    pid,
                    kind: SignalKind::Remind,
                    message: "Running for "@ + decimal(elapsed_secs as nat) + "s"@,
                    payload: None,
                    nonce: None,
                }
            }
        }),
{
    if is_running(a.tasks, pid) {
        let signals = seq![remind_signal(pid, elapsed_secs)];
        latest_signals_stand_last(a.entries, b.entries, signals, a.capacity);
        assert(b.entries[b.entries.len() - 1].signal == signals[0]);
        assert(b.entries.drop_last() =~= b.entries.take(b.entries.len() - 1));
    }
}

/// Where no event can come any more, the client stays asleep and the one thing that happens is
/// that a new channel of events is asked for.
pub proof fn closed_channel_is_opened_anew(
    a: OrchestratorView,
    b: OrchestratorView,
    res: Result<Option<String>, DispatchError>,
)
    requires
        event_handled(a, b, WaitEvent::Closed, res),
    ensures
        res is Ok && res->Ok_0 is None,
        b == (OrchestratorView { pending: b.pending, ..a }),
        b.pending.len() == a.pending.len() + 1,
        b.pending.take(a.pending.len() as int) == a.pending,
        b.pending.last() is RestartChannel,
{
    assert(b.pending.take(a.pending.len() as int) =~= a.pending);
}

/// The end of a running task is kept in its record, with what its call printed where it succeeded,
/// and everything else of the record stays. No other task changes. The reminder of the task is
/// disarmed and cancelled, and no other. The end of a task that is known and not running is not
/// logged.
pub proof fn end_of_a_task_is_kept(
    a: OrchestratorView,
    b: OrchestratorView,
    result: TaskResultView,
    pid: u64,
)
    requires
        result_handled(a, b, result),
    ensures
        b.tasks.contains_key(pid) <==> a.tasks.contains_key(pid),
        a.tasks.contains_key(pid) && (pid != result.pid || a.tasks[pid].state
            != TaskState::Running) ==> b.tasks[pid] == a.tasks[pid],
        a.tasks.contains_key(result.pid) && a.tasks[result.pid].state == TaskState::Running ==> {
            &&& b.tasks[result.pid].state == TaskState::Exited
            &&& b.tasks[result.pid].output == match result.kind {
                TaskResultKindView::McpComplete(Ok(printed)) => Some(printed),
                _ => a.tasks[result.pid].output,
            }
            &&& b.tasks[result.pid].pid == a.tasks[result.pid].pid
            &&& b.tasks[result.pid].kind == a.tasks[result.pid].kind
            &&& b.tasks[result.pid].session == a.tasks[result.pid].session
            &&& b.tasks[result.pid].nonce == a.tasks[result.pid].nonce
        },
        !b.reminders.contains_key(result.pid),
        pid != result.pid ==> (b.reminders.contains_key(pid) <==> a.reminders.contains_key(pid)),
        b.reminders.contains_key(pid) ==> b.reminders[pid] == a.reminders[pid],
        b.pending.len() == a.pending.len() + 1,
        b.pending.take(a.pending.len() as int) == a.pending,
        b.pending.last() == (ActionView::CancelReminder { pid: result.pid }),
        a.tasks.contains_key(result.pid) && a.tasks[result.pid].state != TaskState::Running
            ==> b.entries == a.entries,
        b.next_pid == a.next_pid,
        b.nonce_count == a.nonce_count,
        b.strategy == a.strategy,
        b.session == a.session,
        b.capacity == a.capacity,
{
    assert(b.pending.take(a.pending.len() as int) =~= a.pending);
}

/// The end of a call is logged as an EXIT signal with the nonce of the task. Its message shows
/// what the call printed, or the text of its error, between marks made of the nonce; that of a
/// success says so before it, and leaves the output out where the task defers it.
pub proof fn end_of_a_call_is_logged(
    a: OrchestratorView,
    b: OrchestratorView,
    pid: u64,
    output: Result<Seq<char>, Seq<char>>,
    def: TaskDefView,
    h: Seq<char>,
)
    requires
        result_handled(
            a,
            b,
            TaskResultView { pid, kind: TaskResultKindView::McpComplete(output) },
        ),
        a.tasks.contains_key(pid) ==> a.tasks[pid].state == TaskState::Running,
        a.capacity > 0,
    ensures
        ({
            let signal = b.entries.last().signal;
            let shown = match output {
                Ok(out) => if out == ""@ {
                    "(no output)"@
                } else {
                    out
                },
                Err(e) => e,
            };
            let open = "<"@ + h + ">"@;
            let close = "</"@ + h + ">"@;
            &&& signal.pid == pid
            &&& signal.kind == SignalKind::Exit
            &&& signal.payload is None
            &&& !a.tasks.contains_key(pid) ==> signal.nonce is None && signal.message == shown
            &&& a.tasks.contains_key(pid) ==> signal.nonce == a.tasks[pid].nonce
            &&& a.tasks.contains_key(pid) && a.tasks[pid].nonce is None ==> signal.message == shown
            &&& a.tasks.contains_key(pid) && a.tasks[pid].nonce == Some(h) ==> {
                &&& output is Err ==> signal.message == open + shown + close
                &&& output is Ok && a.tasks[pid].kind == TaskKindView::Mcp(def) && def.defer_output
                    ==> signal.message == "[hash="@ + h + "] 200 (deferred)"@
                &&& output is Ok && a.tasks[pid].kind == TaskKindView::Mcp(def)
                    && !def.defer_output ==> signal.message == "[hash="@ + h + "] 200 "@ + (open
                    + shown + close)
                &&& output is Ok && a.tasks[pid].kind is Timer ==> signal.message == "[hash="@ + h
                    + "] 200 "@ + (open + shown + close)
            }
        }),
        b.entries.len() == if a.entries.len() < a.capacity {
            a.entries.len() + 1
        } else {
            a.capacity
        },
        b.entries.drop_last() == a.entries.skip(a.entries.len() - (b.entries.len() - 1)),
{
    let result = TaskResultView { pid, kind: TaskResultKindView::McpComplete(output) };
    let task = task_at(a.tasks, pid);
    let signals = result_signals(task, result);
    latest_signals_stand_last(a.entries, b.entries, signals, a.capacity);
    assert(b.entries[b.entries.len() - 1].signal == signals[0]);
    assert(b.entries.drop_last() =~= b.entries.take(b.entries.len() - 1));
    reveal_strlit("");
    let raw = raw_output(output);
    if let Ok(out) = output {
        if out.len() == 0 {
            assert(out =~= ""@);
        }
    }
    assert(delimited(h, raw) =~= "<"@ + h + ">"@ + raw + ("</"@ + h + ">"@));
}

/// The end of a timer is logged twice: as a REMIND signal that names the label and the seconds
/// that have passed, with the metadata in its payload, and then as an EXIT signal.
pub proof fn end_of_a_timer_is_logged(
    a: OrchestratorView,
    b: OrchestratorView,
    pid: u64,
    label: Seq<char>,
    metadata: Option<JsonView>,
    elapsed: u64,
)
    requires
        result_handled(
            a,
            b,
            TaskResultView {
                pid,
                kind: TaskResultKindView::TimerExpired { label, metadata, elapsed },
            },
        ),
        a.tasks.contains_key(pid) ==> a.tasks[pid].state == TaskState::Running,
        a.capacity >= 2,
    ensures
        b.entries.len() == if a.entries.len() + 2 <= a.capacity {
            a.entries.len() + 2
        } else {
            a.capacity
        },
        b.entries.take(b.entries.len() - 2) == a.entries.skip(
            a.entries.len() - (b.entries.len() - 2),
        ),
        ({
            let remind = b.entries[b.entries.len() - 2].signal;
            &&& remind.pid == pid
            &&& remind.kind == SignalKind::Remind
            &&& remind.nonce is None
            &&& remind.message == "timer \""@ + label + "\" \u{2014} "@ + decimal(elapsed as nat)
                + "s elapsed"@
            &&& remind.payload matches Some(payload) && {
                &&& payload.u64_field("pid"@) == Some(pid)
                &&& payload.str_field("type"@) == Some("REMIND"@)
                &&& payload.str_field("label"@) == Some(label)
                &&& payload.u64_field("elapsed"@) == Some(elapsed)
                &&& payload.field("metadata"@) == Some(
                    match metadata {
                        Some(m) => m,
                        None => JsonView::Null,
                    },
                )
            }
        }),
        ({
            let exit = b.entries.last().signal;
            &&& exit.pid == pid
            &&& exit.kind == SignalKind::Exit
            &&& exit.nonce is None
            &&& exit.message == "timer completed"@
            &&& exit.payload matches Some(payload) && {
                &&& payload.u64_field("pid"@) == Some(pid)
                &&& payload.str_field("type"@) == Some("EXIT"@)
                &&& payload.str_field("label"@) == Some(label)
                &&& payload.str_field("output"@) == Some("timer completed"@)
            }
        }),
{
    let result = TaskResultView {
        pid,
        kind: TaskResultKindView::TimerExpired { label, metadata, elapsed },
    };
    let signals = result_signals(task_at(a.tasks, pid), result);
    latest_signals_stand_last(a.entries, b.entries, signals, a.capacity);
    assert(signals.len() == 2);
    assert(b.entries[b.entries.len() - 2].signal == signals[0]);
    assert(b.entries[b.entries.len() - 1].signal == signals[1]);
    reveal_strlit("pid");
    reveal_strlit("type");
    reveal_strlit("label");
    reveal_strlit("metadata");
    reveal_strlit("elapsed");
    reveal_strlit("output");
    assert("pid"@.len() == 3 && "type"@.len() == 4 && "label"@.len() == 5);
    assert("metadata"@.len() == 8 && "elapsed"@.len() == 7 && "output"@.len() == 6);
    let start: Seq<(Seq<char>, JsonView)> = Seq::empty().push(
        ("pid"@, JsonView::Number(NumberView::PosInt(pid))),
    );
    let rest = seq![
        ("metadata"@, metadata_json(metadata)),
        ("elapsed"@, JsonView::Number(NumberView::PosInt(elapsed))),
    ];
    payload_of(pid, "REMIND"@, label, rest);
    let head = start.push(("type"@, JsonView::Str("REMIND"@))).push(
        ("label"@, JsonView::Str(label)),
    );
    assert(timer_remind_payload(pid, label, metadata, elapsed)->Object_0 =~= head + rest);
    assert(lookup(head + rest, rest[0].0) == Some(rest[0].1));
    assert(lookup(head + rest, rest[1].0) == Some(rest[1].1));
    let rest = seq![("output"@, JsonView::Str("timer completed"@))];
    payload_of(pid, "EXIT"@, label, rest);
    let head = start.push(("type"@, JsonView::Str("EXIT"@))).push(("label"@, JsonView::Str(label)));
    assert(timer_exit_payload(pid, label)->Object_0 =~= head + rest);
    assert(lookup(head + rest, rest[0].0) == Some(rest[0].1));
}

/// Reports that have piled up are taken in one by one, in their order and each once, from the
/// state before to the state after.
pub proof fn piled_up_reports_are_all_taken_in(
    a: OrchestratorView,
    b: OrchestratorView,
    results: Seq<TaskResultView>,
    i: int,
) -> (states: Seq<OrchestratorView>)
    requires
        results_handled(a, b, results),
    ensures
        states.len() == results.len() + 1,
        states[0] == a,
        states[results.len() as int] == b,
        0 <= i < results.len() ==> result_handled(states[i], states[i + 1], results[i]),
{
    choose|states: Seq<OrchestratorView>| #[trigger]
        results_trace(states, results) && states.first() == a && states.last() == b
}

/// When the interval of an armed reminder has passed once more, it tells of as many seconds as all
/// its intervals so far have together, and stays armed. No other reminder changes. One that is not
/// armed tells nothing.
pub proof fn reminder_tells_the_seconds_since_the_start(
    a: OrchestratorView,
    b: OrchestratorView,
    pid: u64,
    event: Option<ReminderEvent>,
    other: u64,
)
    requires
        reminder_ticked(a, b, pid, event),
    ensures
        b == (OrchestratorView { reminders: b.reminders, ..a }),
        b.reminders.dom() == a.reminders.dom(),
        other != pid && a.reminders.contains_key(other) ==> b.reminders[other]
            == a.reminders[other],
        event is Some <==> a.reminders.contains_key(pid),
        event matches Some(e) ==> {
            let r = a.reminders[pid];
            &&& e.pid == pid
            &&& b.reminders[pid].interval == r.interval
            &&& r.fired < u64::MAX ==> b.reminders[pid].fired == r.fired + 1
            &&& r.fired == u64::MAX ==> b.reminders[pid].fired == u64::MAX
            &&& r.interval * b.reminders[pid].fired <= u64::MAX ==> e.elapsed_secs == r.interval
                * b.reminders[pid].fired
            &&& r.interval * b.reminders[pid].fired > u64::MAX ==> e.elapsed_secs == u64::MAX
        },
{
    assert(b.reminders.dom() =~= a.reminders.dom());
}

/// A shutdown kills every running task, which keeps everything else of its record, aborts each of
/// them once, and disarms and cancels every reminder. It logs nothing, and the other tasks and the
/// rest of the state stay.
pub proof fn shutdown_ends_every_running_task(
    a: OrchestratorView,
    b: OrchestratorView,
    pid: u64,
    i: int,
    j: int,
)
    requires
        shut_down(a, b),
    ensures
        b.tasks.contains_key(pid) <==> a.tasks.contains_key(pid),
        a.tasks.contains_key(pid) && a.tasks[pid].state == TaskState::Running ==> b.tasks[pid] == (
        TaskView { state: TaskState::Killed, ..a.tasks[pid] }),
        a.tasks.contains_key(pid) && a.tasks[pid].state != TaskState::Running ==> b.tasks[pid]
            == a.tasks[pid],
        b.reminders == Map::<u64, Reminder>::empty(),
        b.pending.take(a.pending.len() as int) == a.pending,
        newly_queued(a, b).len() > 0,
        newly_queued(a, b).last() is CancelAllReminders,
        newly_queued(a, b).drop_last().contains(ActionView::Abort { pid })
            <==> a.tasks.contains_key(pid) && a.tasks[pid].state == TaskState::Running,
        0 <= i < newly_queued(a, b).len() - 1 ==> newly_queued(a, b)[i] is Abort,
        0 <= i < j < newly_queued(a, b).len() - 1 ==> newly_queued(a, b)[i]
            != newly_queued(a, b)[j],
        b == (OrchestratorView {
            tasks: b.tasks,
            reminders: b.reminders,
            pending: b.pending,
            ..a
        }),
{
    let order = choose|order: Seq<u64>| #[trigger] shut_down_in(a, b, order);
    let aborts = order.map_values(|pid: u64| ActionView::Abort { pid });
    assert(b.pending.take(a.pending.len() as int) =~= a.pending);
    assert(newly_queued(a, b) =~= aborts.push(ActionView::CancelAllReminders));
    assert(newly_queued(a, b).drop_last() =~= aborts);
    assert(order.contains(pid) <==> is_running(a.tasks, pid));
    if order.contains(pid) {
        let k = order.index_of(pid);
        assert(aborts[k] == (ActionView::Abort { pid }));
    }
    if aborts.contains(ActionView::Abort { pid }) {
        let k = aborts.index_of(ActionView::Abort { pid });
        assert(order[k] == pid);
    }
}

// --- Looking at the state ---

/// Every task has one status, which tells of its record as it is: the server and the tool of a
/// call, the label of a timer and the seconds that are left of its duration, and the state.
pub proof fn every_task_has_its_status(
    tasks: Map<u64, TaskView>,
    statuses: Seq<TaskStatus>,
    pid: u64,
    i: int,
    j: int,
)
    requires
        lists_statuses(tasks, statuses),
        forall|p: u64| #[trigger] tasks.contains_key(p) ==> tasks[p].pid == p,
    ensures
        tasks.contains_key(pid) <==> exists|k: int|
            0 <= k < statuses.len() && (#[trigger] statuses[k]).pid == pid,
        0 <= i < j < statuses.len() ==> statuses[i].pid != statuses[j].pid,
        0 <= i < statuses.len() ==> {
            let status = statuses[i]@;
            let task = tasks[statuses[i].pid];
            &&& status.pid == statuses[i].pid
            &&& status.state == task.state
            &&& match (task.kind, status.kind) {
                (TaskKindView::Mcp(def), TaskStatusKindView::Mcp { server, tool }) => server
                    == def.server && tool == def.tool,
                (TaskKindView::Timer(def), TaskStatusKindView::Timer { label, fires_in }) => {
                    &&& label == def.label
                    &&& exists|now: tokio::time::Instant|
                        {
                            let elapsed = #[trigger] secs_between(task.started_at, now);
                            &&& elapsed <= def.duration ==> fires_in + elapsed == def.duration
                            &&& elapsed >= def.duration ==> fires_in == 0
                        }
                },
                _ => false,
            }
        },
{
    let pids = status_pids(statuses);
    assert(pids.to_set().contains(pid) <==> pids.contains(pid));
    if tasks.contains_key(pid) {
        let k = pids.index_of(pid);
        assert(statuses[k].pid == pid);
    }
    if exists|k: int| 0 <= k < statuses.len() && (#[trigger] statuses[k]).pid == pid {
        let k = choose|k: int| 0 <= k < statuses.len() && (#[trigger] statuses[k]).pid == pid;
        assert(pids[k] == pid);
    }
    if 0 <= i < j < statuses.len() {
        assert(pids[i] != pids[j]);
    }
    if 0 <= i < statuses.len() {
        assert(is_status_of(statuses[i]@, tasks[statuses[i].pid]));
    }
}

/// Handing the queued actions out gives each of them once, in the order in which they were queued,
/// and leaves the rest of the state.
pub proof fn actions_are_handed_out_once(
    a: OrchestratorView,
    b: OrchestratorView,
    actions: Seq<ActionView>,
    i: int,
)
    requires
        actions_taken(a, b, actions),
    ensures
        actions.len() == a.pending.len(),
        0 <= i < actions.len() ==> actions[i] == a.pending[i],
        b.pending.len() == 0,
        b == (OrchestratorView { pending: b.pending, ..a }),
{
}

} // verus!
