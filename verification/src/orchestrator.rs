//! The orchestrator: it starts tasks, keeps their state, logs signals, and decides when a
//! waiting client is woken. What has to be done outside is queued as actions.

use std::collections::{HashMap, HashSet};

use vstd::prelude::*;
use vstd::string::*;

use crate::error::{DispatchError, DispatchErrorView};
use crate::event::{
    action_views, Action, ActionView, TaskResult, TaskResultKind, TaskResultKindView,
    TaskResultView, WaitEvent,
};
use crate::json::{copy_json, copy_text, opt_text, Fields, Json, JsonView, NumberView};
use crate::nonce::{is_four_hex, is_nonce_for, NonceCounter};
use crate::pid::{counted_on, next_pid, PidCounter};
use crate::reminder::{capped_product, Reminder, ReminderEvent, ReminderManager};
use crate::signal::{
    logged, plain_signal, window_json, window_text, window_text_for, EntryView, SignalEntry,
    SignalKind, SignalView, SignalWindow,
};
use crate::task::{
    is_status_of, Task, TaskDef, TaskDefView, TaskKind, TaskKindView, TaskState, TaskStatus,
    TaskView, TimerDef, TimerDefView,
};
use crate::text::{decimal, push_decimal};

verus! {

broadcast use vstd::std_specs::hash::group_hash_axioms;

/// How many entries the signal window keeps.
pub const DEFAULT_WINDOW_SIZE: usize = 20;

/// The orchestrator manages tasks, signals, and reminders.
pub struct Orchestrator {
    tasks: HashMap<u64, Task>,
    signal_window: SignalWindow,
    reminder_mgr: ReminderManager,
    pids: PidCounter,
    nonces: NonceCounter,
    strategy: Option<String>,
    session: Option<String>,
    pending: Vec<Action>,
}

/// The state of an orchestrator.
pub struct OrchestratorView {
    /// The tasks, by PID.
    pub tasks: Map<u64, TaskView>,
    /// The signal window, the oldest entry first.
    pub entries: Seq<EntryView>,
    /// How many entries the signal window keeps.
    pub capacity: nat,
    /// The reminders that are armed, by PID.
    pub reminders: Map<u64, Reminder>,
    /// The PID that the next task gets.
    pub next_pid: u64,
    /// How many nonces were made.
    pub nonce_count: u64,
    /// The text that is put before what a woken client reads.
    pub strategy: Option<Seq<char>>,
    /// The session that new tasks belong to.
    pub session: Option<Seq<char>>,
    /// The actions that were not handed out yet.
    pub pending: Seq<ActionView>,
}

/// The views of the tasks of a map.
pub open spec fn task_views(tasks: Map<u64, Task>) -> Map<u64, TaskView> {
    tasks.map_values(|t: Task| t@)
}

impl View for Orchestrator {
    type V = OrchestratorView;

    closed spec fn view(&self) -> OrchestratorView {
        OrchestratorView {
            tasks: task_views(self.tasks@),
            entries: self.signal_window.entries(),
            capacity: self.signal_window.capacity(),
            reminders: self.reminder_mgr@,
            next_pid: self.pids@,
            nonce_count: self.nonces@,
            strategy: opt_text(self.strategy),
            session: opt_text(self.session),
            pending: action_views(self.pending@),
        }
    }
}

/// Whether a PID belongs to a running task.
pub open spec fn is_running(tasks: Map<u64, TaskView>, pid: u64) -> bool {
    tasks.contains_key(pid) && tasks[pid].state == TaskState::Running
}

/// Whether any task is running.
pub open spec fn any_running(tasks: Map<u64, TaskView>) -> bool {
    exists|pid: u64| is_running(tasks, pid)
}

impl OrchestratorView {
    /// The invariant: the window has its size and is never over it, a task is kept under its own
    /// PID, and a reminder is armed only for a running task.
    pub open spec fn wf(self) -> bool {
        &&& self.capacity == DEFAULT_WINDOW_SIZE
        &&& self.entries.len() <= self.capacity
        &&& forall|pid: u64| #[trigger]
            self.tasks.contains_key(pid) ==> self.tasks[pid].pid == pid
        &&& forall|pid: u64| #[trigger]
            self.reminders.contains_key(pid) ==> is_running(self.tasks, pid)
    }
}

/// What a list holds after one more PID was added.
proof fn contains_after_push(pids: Seq<u64>, pid: u64)
    ensures
        forall|p: u64| #[trigger] pids.push(pid).contains(p) <==> pids.contains(p) || p == pid,
{
    let all = pids.push(pid);
    assert(all[pids.len() as int] == pid);
    assert forall|p: u64| pids.contains(p) implies all.contains(p) by {
        let i = choose|i: int| 0 <= i < pids.len() && pids[i] == p;
        assert(all[i] == p);
    }
}

// --- Starting tasks ---

/// The PIDs that the next `n` tasks get.
pub open spec fn pids_from(first: u64, n: nat) -> Seq<u64> {
    Seq::new(n, |i: int| counted_on(first, i as nat))
}

/// Whether this is the record of a task of that kind that was just started in the session.
pub open spec fn is_started(
    task: TaskView,
    pid: u64,
    kind: TaskKindView,
    session: Option<Seq<char>>,
) -> bool {
    &&& task.pid == pid
    &&& task.kind == kind
    &&& task.state == TaskState::Running
    &&& task.session == session
    &&& task.output is None
}

/// Whether the nonce of a task is one that its PID and the nonce counter can give.
pub open spec fn has_nonce(task: TaskView, count: u64) -> bool {
    task.nonce matches Some(n) && is_nonce_for(task.pid, count, n) && is_four_hex(n)
}

/// The payload of the INIT signal of a timer.
pub open spec fn timer_init_payload(pid: u64, def: TimerDefView) -> JsonView {
    JsonView::Object(
        Seq::empty().push(("pid"@, JsonView::Number(NumberView::PosInt(pid)))).push(
            ("type"@, JsonView::Str("INIT"@)),
        ).push(("label"@, JsonView::Str(def.label))).push(
            ("metadata"@, metadata_json(def.metadata)),
        ).push(("duration"@, JsonView::Number(NumberView::PosInt(def.duration)))),
    )
}

/// Metadata as they stand in a payload: `null` where there are none.
pub open spec fn metadata_json(metadata: Option<JsonView>) -> JsonView {
    match metadata {
        Some(m) => m,
        None => JsonView::Null,
    }
}

/// The INIT signal of a task.
pub open spec fn init_signal(task: TaskView) -> SignalView {
    SignalView {
        pid: task.pid,
        kind: SignalKind::Init,
        message: task.kind.description(),
        payload: match task.kind {
            TaskKindView::Mcp(_) => None,
            TaskKindView::Timer(def) => Some(timer_init_payload(task.pid, def)),
        },
        nonce: None,
    }
}

/// The INIT signals of the tasks with these PIDs.
pub open spec fn init_signals(tasks: Map<u64, TaskView>, pids: Seq<u64>) -> Seq<SignalView> {
    pids.map_values(|pid: u64| init_signal(tasks[pid]))
}

/// The interval at which a task asks to be reminded of, if it does.
pub open spec fn reminder_interval(def: TaskDefView) -> Option<u64> {
    match def.remind_after {
        Some(secs) => if secs > 0 {
            Some(secs)
        } else {
            None
        },
        None => None,
    }
}

/// The armed reminders after the tasks were started.
pub open spec fn armed_for(
    reminders: Map<u64, Reminder>,
    defs: Seq<TaskDefView>,
    first: u64,
) -> Map<u64, Reminder>
    decreases defs.len(),
{
    if defs.len() == 0 {
        reminders
    } else {
        let before = armed_for(reminders, defs.drop_last(), first);
        match reminder_interval(defs.last()) {
            Some(secs) => before.insert(
                counted_on(first, (defs.len() - 1) as nat),
                Reminder { interval: secs, fired: 0 },
            ),
            None => before,
        }
    }
}

/// The actions that start a task.
pub open spec fn start_actions(def: TaskDefView, pid: u64) -> Seq<ActionView> {
    let call = ActionView::Call {
        pid,
        server: def.server,
        tool: def.tool,
        params: def.params,
    };
    match reminder_interval(def) {
        Some(secs) => Seq::empty().push(ActionView::StartReminder { pid, secs }).push(call),
        None => Seq::empty().push(call),
    }
}

/// The actions that start the tasks, in their order.
pub open spec fn dispatch_actions(defs: Seq<TaskDefView>, first: u64) -> Seq<ActionView>
    decreases defs.len(),
{
    if defs.len() == 0 {
        Seq::empty()
    } else {
        dispatch_actions(defs.drop_last(), first) + start_actions(
            defs.last(),
            counted_on(first, (defs.len() - 1) as nat),
        )
    }
}

/// Whether an orchestrator went from `a` to `b` by starting MCP tasks under these PIDs.
pub open spec fn dispatched(
    a: OrchestratorView,
    b: OrchestratorView,
    defs: Seq<TaskDefView>,
    pids: Seq<u64>,
) -> bool {
    &&& pids == pids_from(a.next_pid, defs.len())
    &&& forall|pid: u64| #[trigger]
        b.tasks.contains_key(pid) <==> a.tasks.contains_key(pid) || pids.contains(pid)
    &&& forall|pid: u64|
        a.tasks.contains_key(pid) && !pids.contains(pid) ==> #[trigger] b.tasks[pid]
            == a.tasks[pid]
    &&& forall|i: int|
        0 <= i < defs.len() ==> {
            let task = b.tasks[#[trigger] pids[i]];
            &&& is_started(task, pids[i], TaskKindView::Mcp(defs[i]), b.session)
            &&& has_nonce(task, counted_on(a.nonce_count, i as nat))
        }
    &&& logged(a.entries, b.entries, init_signals(b.tasks, pids), a.capacity)
    &&& b.reminders == armed_for(a.reminders, defs, a.next_pid)
    &&& b.pending == a.pending + dispatch_actions(defs, a.next_pid)
    &&& b.next_pid == counted_on(a.next_pid, defs.len())
    &&& b.nonce_count == counted_on(a.nonce_count, defs.len())
    &&& b.capacity == a.capacity
}

/// Whether a dispatch that gives this strategy and names this session set them. Where it gives no
/// strategy the earlier one stays, also where it names another session.
pub open spec fn headed(
    a: OrchestratorView,
    b: OrchestratorView,
    strategy: Option<Seq<char>>,
    session: Option<Seq<char>>,
) -> bool {
    &&& b.session == session
    &&& b.strategy == match strategy {
        Some(s) => Some(s),
        None => a.strategy,
    }
}

/// Whether an orchestrator went from `a` to `b` by starting a timer under this PID.
pub open spec fn timer_dispatched(
    a: OrchestratorView,
    b: OrchestratorView,
    def: TimerDefView,
    pid: u64,
) -> bool {
    let task = b.tasks[pid];
    &&& pid == a.next_pid
    &&& is_started(task, pid, TaskKindView::Timer(def), a.session)
    &&& task.nonce is None
    &&& logged(a.entries, b.entries, seq![init_signal(task)], a.capacity)
    &&& b == OrchestratorView {
        tasks: a.tasks.insert(pid, task),
        entries: b.entries,
        next_pid: counted_on(a.next_pid, 1),
        pending: a.pending.push(
            ActionView::Sleep {
                pid,
                label: def.label,
                duration: def.duration,
                metadata: def.metadata,
            },
        ),
        ..a
    }
}

/// The views of a sequence of task definitions.
pub open spec fn def_views(defs: Seq<TaskDef>) -> Seq<TaskDefView> {
    defs.map_values(|d: TaskDef| d@)
}

impl Orchestrator {
    /// An orchestrator without tasks.
    pub fn new() -> (res: Orchestrator)
        ensures
            res@ == (OrchestratorView {
                tasks: Map::empty(),
                entries: Seq::empty(),
                capacity: DEFAULT_WINDOW_SIZE as nat,
                reminders: Map::empty(),
                next_pid: 1,
                nonce_count: 0,
                strategy: None,
                session: None,
                pending: Seq::empty(),
            }),
            res@.wf(),
    {
        let res = Orchestrator {
            tasks: HashMap::new(),
            signal_window: SignalWindow::new(DEFAULT_WINDOW_SIZE),
            reminder_mgr: ReminderManager::new(),
            pids: PidCounter::new(),
            nonces: NonceCounter::new(),
            strategy: None,
            session: None,
            pending: Vec::new(),
        };
        assert(res@.tasks =~= Map::empty());
        assert(res@.pending =~= Seq::empty());
        res
    }

    /// Queues an action.
    fn queue(&mut self, action: Action)
        ensures
            final(self)@ == (OrchestratorView { pending: old(self)@.pending.push(action@), ..old(
                self,
            )@ }),
    {
        self.pending.push(action);
        assert(self@.pending =~= old(self)@.pending.push(action@));
    }

    /// Logs an entry.
    fn log(&mut self, entry: SignalEntry)
        requires
            entry@.is_dated(),
        ensures
            final(self)@ == (OrchestratorView { entries: final(self)@.entries, ..old(self)@ }),
            logged(
                old(self)@.entries,
                final(self)@.entries,
                seq![entry@.signal],
                old(self)@.capacity,
            ),
            final(self)@.entries.len() <= old(self)@.capacity,
    {
        self.signal_window.push(entry);
    }

    /// Keeps the record of a task under its PID.
    fn keep(&mut self, task: Task)
        ensures
            final(self)@ == (OrchestratorView {
                tasks: old(self)@.tasks.insert(task@.pid, task@),
                ..old(self)@
            }),
    {
        let pid = task.pid;
        let _ = self.tasks.insert(pid, task);
        assert(self@.tasks =~= old(self)@.tasks.insert(task@.pid, task@));
    }

    /// Starts one MCP task.
    fn dispatch_one(&mut self, def: TaskDef) -> (pid: u64)
        requires
            old(self)@.wf(),
        ensures
            final(self)@.wf(),
            pid == old(self)@.next_pid,
            ({
                let a = old(self)@;
                let b = final(self)@;
                let task = b.tasks[pid];
                &&& is_started(task, pid, TaskKindView::Mcp(def@), a.session)
                &&& has_nonce(task, a.nonce_count)
                &&& logged(a.entries, b.entries, seq![init_signal(task)], a.capacity)
                &&& b == OrchestratorView {
                    tasks: a.tasks.insert(pid, task),
                    entries: b.entries,
                    reminders: match reminder_interval(def@) {
                        Some(secs) => a.reminders.insert(
                            pid,
                            Reminder { interval: secs, fired: 0 },
                        ),
                        None => a.reminders,
                    },
                    next_pid: counted_on(a.next_pid, 1),
                    nonce_count: counted_on(a.nonce_count, 1),
                    pending: a.pending + start_actions(def@, pid),
                    ..a
                }
            }),
    {
        let ghost def_view = def@;
        let pid = next_pid(&mut self.pids);
        let remind_after = def.remind_after;
        let server = def.server.clone();
        let tool = def.tool.clone();
        let params = def.params.clone();
        let mut task = Task::new_mcp(pid, def, &mut self.nonces);
        task.session = copy_text(&self.session);

        let description = task.description();
        self.log(SignalEntry::new(pid, SignalKind::Init, description.as_str()));

        if let Some(secs) = remind_after {
            if secs > 0 {
                self.reminder_mgr.start(pid, secs);
                self.queue(Action::StartReminder { pid, secs });
            }
        }
        self.queue(Action::Call { pid, server, tool, params });
        self.keep(task);
        assert(self@.pending =~= old(self)@.pending + start_actions(def_view, pid));
        pid
    }

    /// Dispatches a list of MCP tasks. Returns the assigned PIDs. The tasks belong to the session
    /// that is named, and a strategy that is given replaces the one that was set, for this and
    /// every later session until another is given.
    pub fn dispatch(
        &mut self,
        task_defs: Vec<TaskDef>,
        strategy: Option<String>,
        session_id: Option<String>,
    ) -> (pids: Vec<u64>)
        requires
            old(self)@.wf(),
        ensures
            final(self)@.wf(),
            dispatched(old(self)@, final(self)@, def_views(task_defs@), pids@),
            headed(old(self)@, final(self)@, opt_text(strategy), opt_text(session_id)),
    {
        let ghost defs = def_views(task_defs@);
        let ghost a = self@;
        assert(defs.len() == task_defs.len());
        self.session = session_id;
        if strategy.is_some() {
            self.strategy = strategy;
        }
        let ghost base = self@;
        let mut pids: Vec<u64> = Vec::new();
        proof {
            crate::signal::nothing_logged(a.entries, a.capacity);
            assert(init_signals(self@.tasks, pids@) =~= Seq::empty());
            assert(pids@ =~= pids_from(a.next_pid, 0));
            assert(dispatched(a, self@, defs.take(0), pids@));
        }
        for def in it: task_defs
            invariant
                self@.wf(),
                defs.len() == it.seq().len() <= usize::MAX,
                forall|i: int| 0 <= i < defs.len() ==> defs[i] == (#[trigger] it.seq()[i])@,
                dispatched(a, self@, defs.take(it.index()), pids@),
                self@.session == base.session,
                self@.strategy == base.strategy,
        {
            let ghost before = self@;
            let ghost some = defs.take(it.index());
            let ghost more = defs.take(it.index() + 1);
            let ghost old_pids = pids@;
            let pid = self.dispatch_one(def);
            pids.push(pid);
            proof {
                assert(more.drop_last() =~= some);
                dispatched_one_more(a, before, self@, more, old_pids);
            }
        }
        assert(defs.take(defs.len() as int) =~= defs);
        pids
    }
}

/// Where some of the tasks were started and then one more, all of them were started.
proof fn dispatched_one_more(
    a: OrchestratorView,
    b: OrchestratorView,
    c: OrchestratorView,
    defs: Seq<TaskDefView>,
    pids: Seq<u64>,
)
    requires
        0 < defs.len() < crate::pid::counter_range(),
        dispatched(a, b, defs.drop_last(), pids),
        ({
            let pid = b.next_pid;
            let task = c.tasks[pid];
            let def = defs.last();
            &&& is_started(task, pid, TaskKindView::Mcp(def), b.session)
            &&& has_nonce(task, b.nonce_count)
            &&& logged(b.entries, c.entries, seq![init_signal(task)], b.capacity)
            &&& c == OrchestratorView {
                tasks: b.tasks.insert(pid, task),
                entries: c.entries,
                reminders: match reminder_interval(def) {
                    Some(secs) => b.reminders.insert(pid, Reminder { interval: secs, fired: 0 }),
                    None => b.reminders,
                },
                next_pid: counted_on(b.next_pid, 1),
                nonce_count: counted_on(b.nonce_count, 1),
                pending: b.pending + start_actions(def, pid),
                ..b
            }
        }),
    ensures
        dispatched(a, c, defs, pids.push(b.next_pid)),
{
    let n = (defs.len() - 1) as nat;
    let pid = b.next_pid;
    let all = pids.push(pid);
    crate::pid::counting_on_adds_up(a.next_pid, n, 1);
    crate::pid::counting_on_adds_up(a.nonce_count, n, 1);
    assert(all =~= pids_from(a.next_pid, defs.len()));
    assert forall|i: int| 0 <= i < n implies pids[i] != pid by {
        crate::pid::pids_are_distinct(a.next_pid, i as nat, n);
    }
    contains_after_push(pids, pid);
    assert forall|i: int| 0 <= i < defs.len() implies ({
        let task = c.tasks[#[trigger] all[i]];
        &&& is_started(task, all[i], TaskKindView::Mcp(defs[i]), c.session)
        &&& has_nonce(task, counted_on(a.nonce_count, i as nat))
    }) by {}
    crate::signal::logging_adds_up(
        a.entries,
        b.entries,
        c.entries,
        init_signals(b.tasks, pids),
        seq![init_signal(c.tasks[pid])],
        a.capacity,
    );
    assert(init_signals(b.tasks, pids) + seq![init_signal(c.tasks[pid])] =~= init_signals(
        c.tasks,
        all,
    ));
    assert(c.pending =~= a.pending + dispatch_actions(defs, a.next_pid));
}

// --- Killing tasks and waiting on them ---

/// Whether `k` is the first place in `pids` with a PID that no task has.
pub open spec fn first_unknown(tasks: Map<u64, TaskView>, pids: Seq<u64>, k: int) -> bool {
    &&& 0 <= k < pids.len()
    &&& !tasks.contains_key(pids[k])
    &&& all_known(tasks, pids.take(k))
}

/// Whether every PID belongs to a task.
pub open spec fn all_known(tasks: Map<u64, TaskView>, pids: Seq<u64>) -> bool {
    forall|i: int| 0 <= i < pids.len() ==> tasks.contains_key(#[trigger] pids[i])
}

/// The running tasks among `pids`, each once, in the order in which they are first named.
pub open spec fn killed_of(tasks: Map<u64, TaskView>, pids: Seq<u64>) -> Seq<u64>
    decreases pids.len(),
{
    if pids.len() == 0 {
        Seq::empty()
    } else {
        let before = killed_of(tasks, pids.drop_last());
        if is_running(tasks, pids.last()) && !before.contains(pids.last()) {
            before.push(pids.last())
        } else {
            before
        }
    }
}

/// The running tasks among `pids`, as often as they are named.
pub open spec fn waited_of(tasks: Map<u64, TaskView>, pids: Seq<u64>) -> Seq<u64>
    decreases pids.len(),
{
    if pids.len() == 0 {
        Seq::empty()
    } else {
        let before = waited_of(tasks, pids.drop_last());
        if is_running(tasks, pids.last()) {
            before.push(pids.last())
        } else {
            before
        }
    }
}

/// The tasks after those with the PIDs in `killed` were killed.
pub open spec fn with_killed(tasks: Map<u64, TaskView>, killed: Seq<u64>) -> Map<u64, TaskView> {
    Map::new(
        |pid: u64| tasks.contains_key(pid),
        |pid: u64|
            if killed.contains(pid) {
                TaskView { state: TaskState::Killed, ..tasks[pid] }
            } else {
                tasks[pid]
            },
    )
}

/// The message with which the kill of a task is logged.
pub open spec fn kill_message(kind: TaskKindView) -> Seq<char> {
    match kind {
        TaskKindView::Mcp(_) => "Terminated by LLM"@,
        TaskKindView::Timer(_) => "timer cancelled"@,
    }
}

/// The KILL signal of a task. That of a timer has a payload.
pub open spec fn kill_signal(task: TaskView) -> SignalView {
    SignalView {
        pid: task.pid,
        kind: SignalKind::Kill,
        message: kill_message(task.kind),
        payload: match task.kind {
            TaskKindView::Mcp(_) => None,
            TaskKindView::Timer(def) => Some(
                JsonView::Object(
                    Seq::empty().push(
                        ("pid"@, JsonView::Number(NumberView::PosInt(task.pid))),
                    ).push(("type"@, JsonView::Str("KILL"@))).push(
                        ("label"@, JsonView::Str(def.label)),
                    ),
                ),
            ),
        },
        nonce: None,
    }
}

/// The KILL signals of the tasks with these PIDs.
pub open spec fn kill_signals(tasks: Map<u64, TaskView>, killed: Seq<u64>) -> Seq<SignalView> {
    killed.map_values(|pid: u64| kill_signal(tasks[pid]))
}

/// The actions that kill the tasks with these PIDs, in their order.
pub open spec fn kill_actions(killed: Seq<u64>) -> Seq<ActionView>
    decreases killed.len(),
{
    if killed.len() == 0 {
        Seq::empty()
    } else {
        let pid = killed.last();
        kill_actions(killed.drop_last()).push(ActionView::Abort { pid }).push(
            ActionView::CancelReminder { pid },
        )
    }
}

/// Whether an orchestrator went from `a` to `b` by killing the tasks with the PIDs in `killed`.
pub open spec fn tasks_killed(
    a: OrchestratorView,
    b: OrchestratorView,
    killed: Seq<u64>,
) -> bool {
    &&& logged(a.entries, b.entries, kill_signals(a.tasks, killed), a.capacity)
    &&& b == OrchestratorView {
        tasks: with_killed(a.tasks, killed),
        entries: b.entries,
        reminders: a.reminders.remove_keys(killed.to_set()),
        pending: a.pending + kill_actions(killed),
        ..a
    }
}

/// The WAIT signal of a task.
pub open spec fn wait_signal(pid: u64) -> SignalView {
    plain_signal(pid, SignalKind::Wait, "LLM decided to continue waiting"@)
}

/// Whether an orchestrator went from `a` to `b` by logging that the tasks with the PIDs in
/// `waited` go on.
pub open spec fn tasks_waited(
    a: OrchestratorView,
    b: OrchestratorView,
    waited: Seq<u64>,
) -> bool {
    &&& logged(
        a.entries,
        b.entries,
        waited.map_values(|pid: u64| wait_signal(pid)),
        a.capacity,
    )
    &&& b == OrchestratorView { entries: b.entries, ..a }
}

/// The view of a list of PIDs, or of an error.
pub open spec fn list_outcome(res: Result<Vec<u64>, DispatchError>) -> Result<
    Seq<u64>,
    DispatchErrorView,
> {
    match res {
        Ok(list) => Ok(list@),
        Err(e) => Err(e@),
    }
}

/// Whether a request to kill these PIDs took an orchestrator from `a` to `b` with this outcome.
pub open spec fn kill_done(
    a: OrchestratorView,
    b: OrchestratorView,
    pids: Seq<u64>,
    outcome: Result<Seq<u64>, DispatchErrorView>,
) -> bool {
    match outcome {
        Ok(killed) => {
            &&& all_known(a.tasks, pids)
            &&& killed == killed_of(a.tasks, pids)
            &&& tasks_killed(a, b, killed)
        },
        Err(e) => exists|k: int| #[trigger]
            first_unknown(a.tasks, pids, k) && e == DispatchErrorView::TaskNotFound(pids[k])
                && tasks_killed(a, b, killed_of(a.tasks, pids.take(k))),
    }
}

/// Whether a request to wait on these PIDs took an orchestrator from `a` to `b` with this outcome.
pub open spec fn wait_done(
    a: OrchestratorView,
    b: OrchestratorView,
    pids: Seq<u64>,
    outcome: Result<Seq<u64>, DispatchErrorView>,
) -> bool {
    match outcome {
        Ok(waited) => {
            &&& all_known(a.tasks, pids)
            &&& waited == waited_of(a.tasks, pids)
            &&& tasks_waited(a, b, waited)
        },
        Err(e) => exists|k: int| #[trigger]
            first_unknown(a.tasks, pids, k) && e == DispatchErrorView::TaskNotFound(pids[k])
                && tasks_waited(a, b, waited_of(a.tasks, pids.take(k))),
    }
}

/// Killing one more running task.
proof fn killed_one_more(
    a: OrchestratorView,
    b: OrchestratorView,
    c: OrchestratorView,
    killed: Seq<u64>,
    pid: u64,
)
    requires
        tasks_killed(a, b, killed),
        a.tasks.contains_key(pid),
        !killed.contains(pid),
        logged(b.entries, c.entries, seq![kill_signal(a.tasks[pid])], b.capacity),
        c == (OrchestratorView {
            tasks: b.tasks.insert(pid, TaskView { state: TaskState::Killed, ..a.tasks[pid] }),
            entries: c.entries,
            reminders: b.reminders.remove(pid),
            pending: b.pending.push(ActionView::Abort { pid }).push(
                ActionView::CancelReminder { pid },
            ),
            ..b
        }),
    ensures
        tasks_killed(a, c, killed.push(pid)),
{
    let all = killed.push(pid);
    assert(all.drop_last() =~= killed);
    contains_after_push(killed, pid);
    assert(c.tasks =~= with_killed(a.tasks, all));
    assert(c.reminders =~= a.reminders.remove_keys(all.to_set()));
    crate::signal::logging_adds_up(
        a.entries,
        b.entries,
        c.entries,
        kill_signals(a.tasks, killed),
        seq![kill_signal(a.tasks[pid])],
        a.capacity,
    );
    assert(kill_signals(a.tasks, killed) + seq![kill_signal(a.tasks[pid])] =~= kill_signals(
        a.tasks,
        all,
    ));
}

impl Orchestrator {
    /// Dispatches a timer. Returns the assigned PID.
    pub fn dispatch_timer(&mut self, def: TimerDef) -> (pid: u64)
        requires
            old(self)@.wf(),
        ensures
            final(self)@.wf(),
            timer_dispatched(old(self)@, final(self)@, def@, pid),
    {
        let pid = next_pid(&mut self.pids);
        let label = def.label.clone();
        let metadata = copy_json(&def.metadata);
        let duration = def.duration;
        let mut task = Task::new_timer(pid, def);
        task.session = copy_text(&self.session);

        let metadata_field = match &metadata {
            Some(m) => m.clone(),
            None => Json::Null,
        };
        let payload = Fields::new().with("pid", Json::number(pid)).with(
            "type",
            Json::text("INIT"),
        ).with("label", Json::text(label.as_str())).with("metadata", metadata_field).with(
            "duration",
            Json::number(duration),
        ).object();
        let description = task.description();
        self.log(
            SignalEntry::with_payload(pid, SignalKind::Init, description.as_str(), payload),
        );
        self.queue(Action::Sleep { pid, label, duration, metadata });
        self.keep(task);
        assert forall|p: u64| #[trigger] self@.reminders.contains_key(p) implies is_running(
            self@.tasks,
            p,
        ) by {
            assert(old(self)@.reminders.contains_key(p));
        }
        pid
    }

    /// Kills one running task.
    fn kill_one(&mut self, pid: u64)
        requires
            old(self)@.wf(),
            is_running(old(self)@.tasks, pid),
        ensures
            final(self)@.wf(),
            logged(
                old(self)@.entries,
                final(self)@.entries,
                seq![kill_signal(old(self)@.tasks[pid])],
                old(self)@.capacity,
            ),
            final(self)@ == (OrchestratorView {
                tasks: old(self)@.tasks.insert(
                    pid,
                    TaskView { state: TaskState::Killed, ..old(self)@.tasks[pid] },
                ),
                entries: final(self)@.entries,
                reminders: old(self)@.reminders.remove(pid),
                pending: old(self)@.pending.push(ActionView::Abort { pid }).push(
                    ActionView::CancelReminder { pid },
                ),
                ..old(self)@
            }),
    {
        if let Some(mut task) = self.tasks.remove(&pid) {
            self.queue(Action::Abort { pid });
            let entry = match &task.kind {
                TaskKind::Mcp(_) => SignalEntry::new(pid, SignalKind::Kill, "Terminated by LLM"),
                TaskKind::Timer(def) => {
                    let payload = Fields::new().with("pid", Json::number(pid)).with(
                        "type",
                        Json::text("KILL"),
                    ).with("label", Json::text(def.label.as_str())).object();
                    SignalEntry::with_payload(pid, SignalKind::Kill, "timer cancelled", payload)
                },
            };
            task.mark_killed();
            self.reminder_mgr.cancel(pid);
            self.queue(Action::CancelReminder { pid });
            self.log(entry);
            self.keep(task);
            assert(self@.tasks =~= old(self)@.tasks.insert(
                pid,
                TaskView { state: TaskState::Killed, ..old(self)@.tasks[pid] },
            ));
        }
    }

    /// Whether a PID belongs to a task, and whether that task is running.
    fn look_up(&self, pid: u64) -> (res: Option<bool>)
        ensures
            res == if self@.tasks.contains_key(pid) {
                Some(is_running(self@.tasks, pid))
            } else {
                None
            },
    {
        match self.tasks.get(&pid) {
            Some(task) => Some(task.is_running()),
            None => None,
        }
    }

    /// Kills tasks by PID. Returns which PIDs were actually killed. At a PID that no task has,
    /// it stops with an error; the tasks named before that PID are killed all the same.
    pub fn kill(&mut self, pids: &[u64]) -> (res: Result<Vec<u64>, DispatchError>)
        requires
            old(self)@.wf(),
        ensures
            final(self)@.wf(),
            kill_done(old(self)@, final(self)@, pids@, list_outcome(res)),
    {
        let ghost a = self@;
        let mut killed: Vec<u64> = Vec::new();
        let mut i: usize = 0;
        proof {
            crate::signal::nothing_logged(a.entries, a.capacity);
            assert(kill_signals(a.tasks, killed@) =~= Seq::empty());
            assert(with_killed(a.tasks, killed@) =~= a.tasks);
            assert(a.reminders.remove_keys(killed@.to_set()) =~= a.reminders);
        }
        while i < pids.len()
            invariant
                i <= pids@.len(),
                a == old(self)@,
                self@.wf(),
                a.wf(),
                all_known(a.tasks, pids@.take(i as int)),
                killed@ == killed_of(a.tasks, pids@.take(i as int)),
                tasks_killed(a, self@, killed@),
            decreases pids@.len() - i,
        {
            let pid = pids[i];
            let ghost before = self@;
            let ghost done = killed@;
            proof {
                assert(pids@.take(i + 1).drop_last() =~= pids@.take(i as int));
            }
            match self.look_up(pid) {
                None => {
                    assert(first_unknown(a.tasks, pids@, i as int));
                    return Err(DispatchError::TaskNotFound(pid));
                },
                Some(running) => {
                    if running {
                        self.kill_one(pid);
                        killed.push(pid);
                        proof {
                            killed_one_more(a, before, self@, done, pid);
                        }
                    }
                },
            }
            i = i + 1;
        }
        assert(pids@.take(i as int) =~= pids@);
        Ok(killed)
    }

    /// Acknowledges reminders for tasks, letting them continue. Returns the PIDs of those that
    /// are running. At a PID that no task has, it stops with an error.
    pub fn wait(&mut self, pids: &[u64]) -> (res: Result<Vec<u64>, DispatchError>)
        requires
            old(self)@.wf(),
        ensures
            final(self)@.wf(),
            wait_done(old(self)@, final(self)@, pids@, list_outcome(res)),
    {
        let ghost a = self@;
        let mut waited: Vec<u64> = Vec::new();
        let mut i: usize = 0;
        proof {
            crate::signal::nothing_logged(a.entries, a.capacity);
            assert(waited@.map_values(|pid: u64| wait_signal(pid)) =~= Seq::empty());
        }
        while i < pids.len()
            invariant
                i <= pids@.len(),
                a == old(self)@,
                self@.wf(),
                all_known(a.tasks, pids@.take(i as int)),
                waited@ == waited_of(a.tasks, pids@.take(i as int)),
                tasks_waited(a, self@, waited@),
            decreases pids@.len() - i,
        {
            let pid = pids[i];
            let ghost before = self@;
            let ghost done = waited@;
            proof {
                assert(pids@.take(i + 1).drop_last() =~= pids@.take(i as int));
            }
            match self.look_up(pid) {
                None => {
                    assert(first_unknown(a.tasks, pids@, i as int));
                    return Err(DispatchError::TaskNotFound(pid));
                },
                Some(running) => {
                    if running {
                        self.log(
                            SignalEntry::new(
                                pid,
                                SignalKind::Wait,
                                "LLM decided to continue waiting",
                            ),
                        );
                        waited.push(pid);
                        proof {
                            crate::signal::logging_adds_up(
                                a.entries,
                                before.entries,
                                self@.entries,
                                done.map_values(|pid: u64| wait_signal(pid)),
                                seq![wait_signal(pid)],
                                a.capacity,
                            );
                            assert(done.map_values(|pid: u64| wait_signal(pid)) + seq![
                                wait_signal(pid),
                            ] =~= waited@.map_values(|pid: u64| wait_signal(pid)));
                        }
                    }
                },
            }
            i = i + 1;
        }
        assert(pids@.take(i as int) =~= pids@);
        Ok(waited)
    }
}

// --- Ends of tasks and wake-ups ---

/// The task with a PID, if there is one.
pub open spec fn task_at(tasks: Map<u64, TaskView>, pid: u64) -> Option<TaskView> {
    if tasks.contains_key(pid) {
        Some(tasks[pid])
    } else {
        None
    }
}

/// The nonce of a task, if there is one.
pub open spec fn nonce_of(task: Option<TaskView>) -> Option<Seq<char>> {
    match task {
        Some(t) => t.nonce,
        None => None,
    }
}

/// Whether the output of a task is kept out of its EXIT signal.
pub open spec fn defers_output(task: Option<TaskView>) -> bool {
    task matches Some(t) && t.kind matches TaskKindView::Mcp(def) && def.defer_output
}

/// Whether the end of a task wakes the client although other tasks are still running.
pub open spec fn fires_wake(task: Option<TaskView>) -> bool {
    &&& task matches Some(t)
    &&& t.state == TaskState::Running
    &&& t.kind matches TaskKindView::Mcp(def)
    &&& def.fire_wake
}

/// What a tool call printed, or the text of its error; a mark where it printed nothing.
pub open spec fn raw_output(output: Result<Seq<char>, Seq<char>>) -> Seq<char> {
    match output {
        Ok(out) => if out.len() == 0 {
            "(no output)"@
        } else {
            out
        },
        Err(e) => e,
    }
}

/// Text between delimiters made of a nonce, which mark it as data of a task.
pub open spec fn delimited(nonce: Seq<char>, raw: Seq<char>) -> Seq<char> {
    "<"@ + nonce + ">"@ + raw + "</"@ + nonce + ">"@
}

/// The message of the EXIT signal after a tool call. A success names the nonce and the code 200
/// before the delimited output, or in place of it where the output is deferred; the text of an
/// error is delimited alone.
pub open spec fn exit_message(
    task: Option<TaskView>,
    output: Result<Seq<char>, Seq<char>>,
) -> Seq<char> {
    match nonce_of(task) {
        Some(h) => if output is Err {
            delimited(h, raw_output(output))
        } else if defers_output(task) {
            "[hash="@ + h + "] 200 (deferred)"@
        } else {
            "[hash="@ + h + "] 200 "@ + delimited(h, raw_output(output))
        },
        None => raw_output(output),
    }
}

/// The payload of the REMIND signal of a timer.
pub open spec fn timer_remind_payload(
    pid: u64,
    label: Seq<char>,
    metadata: Option<JsonView>,
    elapsed: u64,
) -> JsonView {
    JsonView::Object(
        Seq::empty().push(("pid"@, JsonView::Number(NumberView::PosInt(pid)))).push(
            ("type"@, JsonView::Str("REMIND"@)),
        ).push(("label"@, JsonView::Str(label))).push(("metadata"@, metadata_json(metadata))).push(
            ("elapsed"@, JsonView::Number(NumberView::PosInt(elapsed))),
        ),
    )
}

/// The payload of the EXIT signal of a timer.
pub open spec fn timer_exit_payload(pid: u64, label: Seq<char>) -> JsonView {
    JsonView::Object(
        Seq::empty().push(("pid"@, JsonView::Number(NumberView::PosInt(pid)))).push(
            ("type"@, JsonView::Str("EXIT"@)),
        ).push(("label"@, JsonView::Str(label))).push(
            ("output"@, JsonView::Str("timer completed"@)),
        ),
    )
}

/// The REMIND signal of a timer that has expired.
pub open spec fn timer_remind_signal(
    pid: u64,
    label: Seq<char>,
    metadata: Option<JsonView>,
    elapsed: u64,
) -> SignalView {
    SignalView {
        payload: Some(timer_remind_payload(pid, label, metadata, elapsed)),
        ..plain_signal(
            pid,
            SignalKind::Remind,
            "timer \""@ + label + "\" \u{2014} "@ + decimal(elapsed as nat) + "s elapsed"@,
        )
    }
}

/// The EXIT signal of a timer that has expired.
pub open spec fn timer_exit_signal(pid: u64, label: Seq<char>) -> SignalView {
    SignalView {
        payload: Some(timer_exit_payload(pid, label)),
        ..plain_signal(pid, SignalKind::Exit, "timer completed"@)
    }
}

/// The signals that are logged for the end of a task.
pub open spec fn result_signals(task: Option<TaskView>, result: TaskResultView) -> Seq<SignalView> {
    match result.kind {
        TaskResultKindView::McpComplete(output) => seq![
            SignalView {
                nonce: nonce_of(task),
                ..plain_signal(result.pid, SignalKind::Exit, exit_message(task, output))
            },
        ],
        TaskResultKindView::TimerExpired { label, metadata, elapsed } => seq![
            timer_remind_signal(result.pid, label, metadata, elapsed),
        ] + seq![timer_exit_signal(result.pid, label)],
    }
}

/// The record of a task after its end.
pub open spec fn finished(task: TaskView, result: TaskResultView) -> TaskView {
    TaskView {
        state: TaskState::Exited,
        output: match result.kind {
            TaskResultKindView::McpComplete(Ok(out)) => Some(out),
            _ => task.output,
        },
        ..task
    }
}

/// Whether an orchestrator went from `a` to `b` by taking in the report on the end of a task.
/// A task that is not running any more stays as it is, and nothing is logged for it.
pub open spec fn result_handled(
    a: OrchestratorView,
    b: OrchestratorView,
    result: TaskResultView,
) -> bool {
    let pid = result.pid;
    let task = task_at(a.tasks, pid);
    let late = task is Some && !is_running(a.tasks, pid);
    &&& b == OrchestratorView {
        tasks: if is_running(a.tasks, pid) {
            a.tasks.insert(pid, finished(a.tasks[pid], result))
        } else {
            a.tasks
        },
        entries: b.entries,
        reminders: a.reminders.remove(pid),
        pending: a.pending.push(ActionView::CancelReminder { pid }),
        ..a
    }
    &&& if late {
        b.entries == a.entries
    } else {
        logged(a.entries, b.entries, result_signals(task, result), a.capacity)
    }
}

/// Whether an orchestrator went through these states by taking in the reports one after the
/// other.
pub open spec fn results_trace(
    states: Seq<OrchestratorView>,
    results: Seq<TaskResultView>,
) -> bool {
    &&& states.len() == results.len() + 1
    &&& forall|i: int|
        0 <= i < results.len() ==> result_handled(states[i], states[i + 1], #[trigger] results[i])
}

/// Whether an orchestrator went from `a` to `b` by taking in the reports one after the other.
pub open spec fn results_handled(
    a: OrchestratorView,
    b: OrchestratorView,
    results: Seq<TaskResultView>,
) -> bool {
    exists|states: Seq<OrchestratorView>| #[trigger]
        results_trace(states, results) && states.first() == a && states.last() == b
}

/// The PIDs of the tasks of a session.
pub open spec fn session_pids(tasks: Map<u64, TaskView>, session: Seq<char>) -> Set<u64> {
    Set::new(|pid: u64| tasks.contains_key(pid) && tasks[pid].session == Some(session))
}

impl OrchestratorView {
    /// What a woken client reads: the signal window, only of the current session where there is
    /// one, with the strategy before it where one is set.
    pub open spec fn wake_text(self) -> Seq<char> {
        let window = match self.session {
            Some(session) => window_text_for(
                self.entries,
                DEFAULT_WINDOW_SIZE as nat,
                session_pids(self.tasks, session),
            ),
            None => window_text(self.entries, DEFAULT_WINDOW_SIZE as nat),
        };
        match self.strategy {
            Some(strategy) => strategy + "\n\n"@ + window,
            None => window,
        }
    }
}

/// The REMIND signal for a task that runs long.
pub open spec fn remind_signal(pid: u64, elapsed: u64) -> SignalView {
    plain_signal(pid, SignalKind::Remind, "Running for "@ + decimal(elapsed as nat) + "s"@)
}

/// Whether an orchestrator went from `a` to `b` by logging a reminder that has fired. A task
/// that is not running is not reminded of.
pub open spec fn reminded(a: OrchestratorView, b: OrchestratorView, event: ReminderEvent) -> bool {
    if is_running(a.tasks, event.pid) {
        &&& b == OrchestratorView { entries: b.entries, ..a }
        &&& logged(
            a.entries,
            b.entries,
            seq![remind_signal(event.pid, event.elapsed_secs)],
            a.capacity,
        )
    } else {
        a == b
    }
}

impl Orchestrator {
    /// Whether there are any running tasks.
    pub fn has_running_tasks(&self) -> (res: bool)
        ensures
            res == any_running(self@.tasks),
    {
        for pid in it: self.tasks.keys()
            invariant
                forall|i: int| 0 <= i < it.index() ==> !is_running(self@.tasks, *it.seq()[i]),
                it.seq().unref().to_set() == self.tasks@.dom(),
        {
            if let Some(task) = self.tasks.get(pid) {
                if task.is_running() {
                    assert(is_running(self@.tasks, *pid));
                    return true;
                }
            }
        }
        false
    }

    /// The PIDs of the tasks of a session.
    fn pids_of_session(&self, session: &String) -> (res: HashSet<u64>)
        ensures
            res@ == session_pids(self@.tasks, session@),
    {
        let mut pids: HashSet<u64> = HashSet::new();
        for pid in it: self.tasks.keys()
            invariant
                it.seq().unref().to_set() == self.tasks@.dom(),
                forall|p: u64| #[trigger]
                    pids@.contains(p) ==> session_pids(self@.tasks, session@).contains(p),
                forall|i: int|
                    0 <= i < it.index() && session_pids(self@.tasks, session@).contains(
                        *it.seq()[i],
                    ) ==> pids@.contains(*#[trigger] it.seq()[i]),
        {
            if let Some(task) = self.tasks.get(pid) {
                let belongs = match &task.session {
                    Some(s) => *s == *session,
                    None => false,
                };
                if belongs {
                    let _ = pids.insert(*pid);
                }
            }
        }
        pids
    }

    /// What a woken client reads.
    pub fn wake_text(&self) -> (res: String)
        ensures
            res@ == self@.wake_text(),
    {
        let window = match &self.session {
            Some(session) => {
                let pids = self.pids_of_session(session);
                self.signal_window.format_window_for_pids(DEFAULT_WINDOW_SIZE, &pids)
            },
            None => self.signal_window.format_window(DEFAULT_WINDOW_SIZE),
        };
        match &self.strategy {
            Some(strategy) => {
                let mut out = strategy.clone();
                out.append("\n\n");
                out.append(window.as_str());
                out
            },
            None => window,
        }
    }

    /// Takes in the report on the end of a task: its reminder is disarmed, its end is logged, and
    /// it is marked as exited.
    pub fn handle_task_result(&mut self, result: TaskResult)
        requires
            old(self)@.wf(),
        ensures
            final(self)@.wf(),
            result_handled(old(self)@, final(self)@, result@),
    {
        let ghost a = self@;
        let ghost view = result@;
        let pid = result.pid;
        self.reminder_mgr.cancel(pid);
        self.queue(Action::CancelReminder { pid });

        let task = self.tasks.remove(&pid);
        let late = match &task {
            Some(t) => !t.is_running(),
            None => false,
        };
        if late {
            if let Some(t) = task {
                self.keep(t);
                assert(self@.tasks =~= a.tasks);
            }
            return;
        }
        let nonce = match &task {
            Some(t) => copy_text(&t.nonce),
            None => None,
        };
        let mut stored: Option<String> = None;
        match result.kind {
            TaskResultKind::McpComplete(output) => {
                let succeeded = output.is_ok();
                let deferred = match &task {
                    Some(t) => match &t.kind {
                        TaskKind::Mcp(def) => def.defer_output,
                        TaskKind::Timer(_) => false,
                    },
                    None => false,
                };
                let raw = match output {
                    Ok(out) => {
                        stored = Some(out.clone());
                        if out.as_str().is_empty() {
                            "(no output)".to_owned()
                        } else {
                            out
                        }
                    },
                    Err(e) => e,
                };
                let message = match &nonce {
                    Some(h) => {
                        let mut marked = "<".to_owned();
                        marked.append(h.as_str());
                        marked.append(">");
                        marked.append(raw.as_str());
                        marked.append("</");
                        marked.append(h.as_str());
                        marked.append(">");
                        if succeeded {
                            let mut m = "[hash=".to_owned();
                            m.append(h.as_str());
                            if deferred {
                                m.append("] 200 (deferred)");
                            } else {
                                m.append("] 200 ");
                                m.append(marked.as_str());
                            }
                            m
                        } else {
                            marked
                        }
                    },
                    None => raw,
                };
                let entry = SignalEntry::new(pid, SignalKind::Exit, message.as_str());
                let entry = match &nonce {
                    Some(h) => entry.with_nonce(h.as_str()),
                    None => entry,
                };
                self.log(entry);
            },
            TaskResultKind::TimerExpired { label, metadata, elapsed } => {
                let mut message = "timer \"".to_owned();
                message.append(label.as_str());
                message.append("\" \u{2014} ");
                push_decimal(&mut message, elapsed);
                message.append("s elapsed");
                let metadata_field = match metadata {
                    Some(m) => m,
                    None => Json::Null,
                };
                let remind_payload = Fields::new().with("pid", Json::number(pid)).with(
                    "type",
                    Json::text("REMIND"),
                ).with("label", Json::text(label.as_str())).with(
                    "metadata",
                    metadata_field,
                ).with("elapsed", Json::number(elapsed)).object();
                self.log(
                    SignalEntry::with_payload(
                        pid,
                        SignalKind::Remind,
                        message.as_str(),
                        remind_payload,
                    ),
                );
                let ghost between = self@.entries;
                let exit_payload = Fields::new().with("pid", Json::number(pid)).with(
                    "type",
                    Json::text("EXIT"),
                ).with("label", Json::text(label.as_str())).with(
                    "output",
                    Json::text("timer completed"),
                ).object();
                self.log(
                    SignalEntry::with_payload(
                        pid,
                        SignalKind::Exit,
                        "timer completed",
                        exit_payload,
                    ),
                );
                proof {
                    let l = view.kind->TimerExpired_label;
                    crate::signal::logging_adds_up(
                        a.entries,
                        between,
                        self@.entries,
                        seq![
                            timer_remind_signal(
                                pid,
                                l,
                                view.kind->TimerExpired_metadata,
                                view.kind->TimerExpired_elapsed,
                            ),
                        ],
                        seq![timer_exit_signal(pid, l)],
                        a.capacity,
                    );
                }
            },
        }
        if let Some(mut t) = task {
            t.mark_exited();
            if stored.is_some() {
                t.output = stored;
            }
            self.keep(t);
            assert(self@.tasks =~= a.tasks.insert(pid, finished(a.tasks[pid], view)));
        } else {
            assert(self@.tasks =~= a.tasks);
        }
        assert forall|p: u64| #[trigger] self@.reminders.contains_key(p) implies is_running(
            self@.tasks,
            p,
        ) by {
            assert(a.reminders.contains_key(p));
        }
    }

    /// One step of waiting for the next event (a task that ends, or a reminder). While the result
    /// is `Ok(None)` the client stays asleep; `Ok(Some(..))` is what it reads when it wakes.
    ///
    /// It wakes at once where no task is running, when the last running task has ended, when a
    /// task ends that asks for it, and when a running task is reminded of. So tasks that do not
    /// ask for it wake the client together with whatever else is running: the last of them stays
    /// silent while a timer, or a task that does ask, goes on. Where no event can come any more,
    /// the channel of events is restarted and the client stays asleep.
    pub fn wait_for_event(&mut self, event: WaitEvent) -> (res: Result<
        Option<String>,
        DispatchError,
    >)
        requires
            old(self)@.wf(),
        ensures
            final(self)@.wf(),
            event_handled(old(self)@, final(self)@, event, res),
    {
        match event {
            WaitEvent::Start => {
                if self.has_running_tasks() {
                    Ok(None)
                } else {
                    Ok(Some(self.wake_text()))
                }
            },
            WaitEvent::TaskDone(result) => {
                let wakes = match self.tasks.get(&result.pid) {
                    Some(task) => match &task.kind {
                        TaskKind::Mcp(def) => def.fire_wake && task.is_running(),
                        TaskKind::Timer(_) => false,
                    },
                    None => false,
                };
                self.handle_task_result(result);
                if wakes || !self.has_running_tasks() {
                    Ok(Some(self.wake_text()))
                } else {
                    Ok(None)
                }
            },
            WaitEvent::Reminder(e) => {
                match self.look_up(e.pid) {
                    Some(true) => {
                        let mut message = "Running for ".to_owned();
                        push_decimal(&mut message, e.elapsed_secs);
                        message.append("s");
                        self.log(SignalEntry::new(e.pid, SignalKind::Remind, message.as_str()));
                        Ok(Some(self.wake_text()))
                    },
                    _ => Ok(None),
                }
            },
            WaitEvent::Closed => {
                self.queue(Action::RestartChannel);
                Ok(None)
            },
        }
    }
}

/// Whether an event took an orchestrator from `a` to `b`, and the client woke or stayed asleep as
/// the result says.
pub open spec fn event_handled(
    a: OrchestratorView,
    b: OrchestratorView,
    event: WaitEvent,
    res: Result<Option<String>, DispatchError>,
) -> bool {
    match event {
        WaitEvent::Start => {
            &&& b == a
            &&& woken(res, !any_running(a.tasks), b)
        },
        WaitEvent::TaskDone(result) => {
            &&& result_handled(a, b, result@)
            &&& woken(
                res,
                !any_running(b.tasks) || fires_wake(task_at(a.tasks, result@.pid)),
                b,
            )
        },
        WaitEvent::Reminder(e) => {
            &&& reminded(a, b, e)
            &&& woken(res, is_running(a.tasks, e.pid), b)
        },
        WaitEvent::Closed => {
            &&& channel_restarted(a, b)
            &&& woken(res, false, b)
        },
    }
}

/// Whether an orchestrator went from `a` to `b` by asking for a new channel of events.
pub open spec fn channel_restarted(a: OrchestratorView, b: OrchestratorView) -> bool {
    b == OrchestratorView { pending: a.pending.push(ActionView::RestartChannel), ..a }
}

/// Whether the result of a step of waiting is that the client wakes and reads the text of the
/// state, or, where it does not wake, that it stays asleep.
pub open spec fn woken(
    res: Result<Option<String>, DispatchError>,
    wakes: bool,
    state: OrchestratorView,
) -> bool {
    if wakes {
        res matches Ok(Some(text)) && text@ == state.wake_text()
    } else {
        res matches Ok(None)
    }
}

// --- Looking at the state, and closing down ---

/// The PIDs of a list of statuses.
pub open spec fn status_pids(statuses: Seq<TaskStatus>) -> Seq<u64> {
    statuses.map_values(|s: TaskStatus| s.pid)
}

/// Whether these are the statuses of all tasks, each once and at some reading of the clock.
pub open spec fn lists_statuses(tasks: Map<u64, TaskView>, statuses: Seq<TaskStatus>) -> bool {
    &&& status_pids(statuses).no_duplicates()
    &&& status_pids(statuses).to_set() == tasks.dom()
    &&& forall|i: int|
        0 <= i < statuses.len() ==> is_status_of(
            (#[trigger] statuses[i])@,
            tasks[statuses[i].pid],
        )
}

/// Whether an orchestrator went from `a` to `b` by handing out the actions that were queued.
pub open spec fn actions_taken(
    a: OrchestratorView,
    b: OrchestratorView,
    actions: Seq<ActionView>,
) -> bool {
    &&& actions == a.pending
    &&& b == OrchestratorView { pending: Seq::empty(), ..a }
}

/// The views of a sequence of reports.
pub open spec fn result_views(results: Seq<TaskResult>) -> Seq<TaskResultView> {
    results.map_values(|r: TaskResult| r@)
}

/// Whether `order` lists the running tasks, each once.
pub open spec fn lists_running(tasks: Map<u64, TaskView>, order: Seq<u64>) -> bool {
    &&& order.no_duplicates()
    &&& forall|pid: u64| #[trigger] order.contains(pid) <==> is_running(tasks, pid)
}

/// Whether an orchestrator went from `a` to `b` by being shut down, with its running tasks
/// killed in this order.
pub open spec fn shut_down_in(a: OrchestratorView, b: OrchestratorView, order: Seq<u64>) -> bool {
    &&& lists_running(a.tasks, order)
    &&& b == OrchestratorView {
        tasks: with_killed(a.tasks, order),
        reminders: Map::empty(),
        pending: (a.pending + order.map_values(|pid: u64| ActionView::Abort { pid })).push(
            ActionView::CancelAllReminders,
        ),
        ..a
    }
}

/// Whether an orchestrator went from `a` to `b` by being shut down: every running task is killed,
/// in some order and without a signal, and every reminder is disarmed.
pub open spec fn shut_down(a: OrchestratorView, b: OrchestratorView) -> bool {
    exists|order: Seq<u64>| #[trigger] shut_down_in(a, b, order)
}

/// Whether an orchestrator went from `a` to `b` because the interval of a reminder has passed
/// once more. Where the reminder is armed it fires and stays armed for the same interval.
pub open spec fn reminder_ticked(
    a: OrchestratorView,
    b: OrchestratorView,
    pid: u64,
    event: Option<ReminderEvent>,
) -> bool {
    if a.reminders.contains_key(pid) {
        let r = a.reminders[pid];
        let fired = r.next_fired();
        &&& b == OrchestratorView {
            reminders: a.reminders.insert(pid, Reminder { interval: r.interval, fired }),
            ..a
        }
        &&& event == Some(
            ReminderEvent { pid, elapsed_secs: capped_product(r.interval, fired) },
        )
    } else {
        b == a && event is None
    }
}

impl Orchestrator {
    /// Takes in the reports that have piled up, without waiting for more.
    pub fn drain_results(&mut self, results: Vec<TaskResult>)
        requires
            old(self)@.wf(),
        ensures
            final(self)@.wf(),
            results_handled(old(self)@, final(self)@, result_views(results@)),
    {
        let ghost a = self@;
        let ghost all = result_views(results@);
        let ghost mut states: Seq<OrchestratorView> = seq![self@];
        for result in it: results
            invariant
                self@.wf(),
                all.len() == it.seq().len(),
                forall|i: int| 0 <= i < all.len() ==> all[i] == (#[trigger] it.seq()[i])@,
                results_trace(states, all.take(it.index())),
                states.first() == a,
                states.last() == self@,
        {
            self.handle_task_result(result);
            proof {
                states = states.push(self@);
            }
        }
        assert(all.take(all.len() as int) =~= all);
    }

    /// The reminder of a PID is due: its interval has passed once more.
    pub fn reminder_due(&mut self, pid: u64) -> (res: Option<ReminderEvent>)
        requires
            old(self)@.wf(),
        ensures
            final(self)@.wf(),
            reminder_ticked(old(self)@, final(self)@, pid, res),
    {
        self.reminder_mgr.tick(pid)
    }

    /// The PIDs of all tasks, in no particular order.
    fn known_pids(&self) -> (res: Vec<u64>)
        ensures
            res@.no_duplicates(),
            res@.to_set() == self@.tasks.dom(),
    {
        let mut out: Vec<u64> = Vec::new();
        for pid in it: self.tasks.keys()
            invariant
                it.seq().unref().to_set() == self.tasks@.dom(),
                it.seq().no_duplicates(),
                out@ =~= it.seq().unref().take(it.index()),
                it.index() == it.seq().len() ==> out@ =~= it.seq().unref(),
        {
            out.push(*pid);
        }
        out
    }

    /// The status of all tasks, in no particular order.
    pub fn status(&self) -> (res: Vec<TaskStatus>)
        requires
            self@.wf(),
        ensures
            lists_statuses(self@.tasks, res@),
    {
        let pids = self.known_pids();
        let mut out: Vec<TaskStatus> = Vec::new();
        let mut i: usize = 0;
        while i < pids.len()
            invariant
                i <= pids@.len(),
                self@.wf(),
                pids@.to_set() == self@.tasks.dom(),
                status_pids(out@) =~= pids@.take(i as int),
                forall|k: int|
                    0 <= k < out@.len() ==> is_status_of(
                        (#[trigger] out@[k])@,
                        self@.tasks[out@[k].pid],
                    ),
            decreases pids@.len() - i,
        {
            assert(pids@.to_set().contains(pids@[i as int]));
            let ghost before = out@;
            if let Some(task) = self.tasks.get(&pids[i]) {
                let status = TaskStatus::from(task);
                out.push(status);
                assert(status_pids(out@) =~= status_pids(before).push(status.pid));
            }
            i = i + 1;
        }
        assert(status_pids(out@) =~= pids@);
        out
    }

    /// The signal window.
    pub fn signal_window(&self) -> (res: &SignalWindow)
        ensures
            res.entries() == self@.entries,
            res.capacity() == self@.capacity,
    {
        &self.signal_window
    }

    /// The signal window formatted as text.
    pub fn log_text(&self, count: usize) -> (res: String)
        ensures
            res@ == window_text(self@.entries, count as nat),
    {
        self.signal_window.format_window(count)
    }

    /// The signal window as JSON.
    pub fn log_json(&self, count: usize) -> (res: Json)
        ensures
            res@ == window_json(self@.entries, count as nat),
    {
        self.signal_window.to_json(count)
    }

    /// The stored output of an MCP task that has succeeded.
    pub fn get_output(&self, pid: u64) -> (res: Option<String>)
        ensures
            opt_text(res) == match task_at(self@.tasks, pid) {
                Some(task) => task.output,
                None => None,
            },
    {
        match self.tasks.get(&pid) {
            Some(task) => copy_text(&task.output),
            None => None,
        }
    }

    /// The nonce of a task.
    pub fn get_nonce(&self, pid: u64) -> (res: Option<String>)
        ensures
            opt_text(res) == nonce_of(task_at(self@.tasks, pid)),
    {
        match self.tasks.get(&pid) {
            Some(task) => copy_text(&task.nonce),
            None => None,
        }
    }

    /// Hands out the actions that were queued.
    pub fn take_actions(&mut self) -> (res: Vec<Action>)
        ensures
            actions_taken(old(self)@, final(self)@, action_views(res@)),
    {
        let mut out: Vec<Action> = Vec::new();
        std::mem::swap(&mut out, &mut self.pending);
        assert(self@.pending =~= Seq::empty());
        out
    }

    /// The PIDs of the running tasks, in no particular order.
    fn running_pids(&self) -> (res: Vec<u64>)
        ensures
            lists_running(self@.tasks, res@),
    {
        let pids = self.known_pids();
        let mut out: Vec<u64> = Vec::new();
        let mut i: usize = 0;
        while i < pids.len()
            invariant
                i <= pids@.len(),
                pids@.no_duplicates(),
                pids@.to_set() == self@.tasks.dom(),
                out@.no_duplicates(),
                forall|p: u64| #[trigger]
                    out@.contains(p) <==> is_running(self@.tasks, p) && pids@.take(
                        i as int,
                    ).contains(p),
            decreases pids@.len() - i,
        {
            let pid = pids[i];
            let ghost done = pids@.take(i as int);
            let ghost more = pids@.take(i + 1);
            let ghost before = out@;
            proof {
                assert(more =~= done.push(pid));
                contains_after_push(done, pid);
                contains_after_push(before, pid);
                assert forall|j: int| 0 <= j < before.len() implies before[j] != pid by {
                    assert(before.contains(before[j]));
                }
            }
            if let Some(true) = self.look_up(pid) {
                out.push(pid);
            }
            i = i + 1;
        }
        assert(pids@.take(i as int) =~= pids@);
        out
    }

    /// Cleans up: kills all running tasks.
    pub fn shutdown(&mut self)
        requires
            old(self)@.wf(),
        ensures
            final(self)@.wf(),
            shut_down(old(self)@, final(self)@),
    {
        let ghost a = self@;
        let running = self.running_pids();
        let mut i: usize = 0;
        proof {
            assert(with_killed(a.tasks, running@.take(0)) =~= a.tasks);
            assert(a.pending + running@.take(0).map_values(|pid: u64| ActionView::Abort { pid })
                =~= a.pending);
        }
        while i < running.len()
            invariant
                i <= running@.len(),
                lists_running(a.tasks, running@),
                a.wf(),
                self@ == (OrchestratorView {
                    tasks: with_killed(a.tasks, running@.take(i as int)),
                    pending: a.pending + running@.take(i as int).map_values(
                        |pid: u64| ActionView::Abort { pid },
                    ),
                    ..a
                }),
            decreases running@.len() - i,
        {
            let pid = running[i];
            let ghost done = running@.take(i as int);
            let ghost more = running@.take(i + 1);
            proof {
                assert(running@.contains(pid));
                assert(more =~= done.push(pid));
                contains_after_push(done, pid);
                assert(!done.contains(pid));
            }
            assert(self@.tasks.contains_key(pid));
            assert(self@.tasks[pid] == a.tasks[pid]);
            let ghost before = self@.tasks;
            if let Some(mut task) = self.tasks.remove(&pid) {
                task.mark_killed();
                self.keep(task);
                self.queue(Action::Abort { pid });
                assert(self@.tasks =~= before.insert(
                    pid,
                    TaskView { state: TaskState::Killed, ..a.tasks[pid] },
                ));
                assert(self@.tasks =~= with_killed(a.tasks, more));
                assert(self@.pending =~= a.pending + more.map_values(
                    |pid: u64| ActionView::Abort { pid },
                ));
            }
            i = i + 1;
        }
        assert(running@.take(i as int) =~= running@);
        self.reminder_mgr.cancel_all();
        self.queue(Action::CancelAllReminders);
        assert(shut_down_in(a, self@, running@));
    }
}

} // verus!
