//! Signals and the rolling window that keeps the latest of them.

use std::collections::{HashSet, VecDeque};

use chrono::NaiveDateTime;
use vstd::prelude::*;
use vstd::string::*;

use crate::json::{
    added_entry_counts, lookup, opt_json_view, opt_text, Fields, Json, JsonView, NumberView,
};
use crate::text::{decimal, push_decimal};

verus! {

/// The type of signal emitted by the system.
#[derive(Debug, Clone, Copy, PartialEq, Eq, Structural)]
pub enum SignalKind {
    Init,
    Exit,
    Remind,
    Wait,
    Kill,
}

impl SignalKind {
    /// The name under which a signal of this kind is shown and serialized.
    pub open spec fn label(self) -> Seq<char> {
        match self {
            SignalKind::Init => "INIT"@,
            SignalKind::Exit => "EXIT"@,
            SignalKind::Remind => "REMIND"@,
            SignalKind::Wait => "WAIT"@,
            SignalKind::Kill => "KILL"@,
        }
    }

    /// The name under which a signal of this kind is shown and serialized.
    pub fn name(&self) -> (res: &'static str)
        ensures
            res@ == self.label(),
    {
        match self {
            SignalKind::Init => "INIT",
            SignalKind::Exit => "EXIT",
            SignalKind::Remind => "REMIND",
            SignalKind::Wait => "WAIT",
            SignalKind::Kill => "KILL",
        }
    }
}

/// A moment of local time, in the two notations in which it is shown.
#[derive(Debug, PartialEq)]
pub struct Timestamp {
    /// Hours, minutes and seconds, as `14:02:01`.
    pub clock: String,
    /// The whole moment in the notation of RFC 3339.
    pub rfc3339: String,
}

/// The number that two digits of `s` stand for, from the place `i` on.
pub open spec fn two_digits(s: Seq<char>, i: int) -> int {
    (s[i] as int - '0' as int) * 10 + (s[i + 1] as int - '0' as int)
}

/// Whether `s` is a time of day that reads like `14:02:01`. A leap second is the second 60.
pub open spec fn is_clock(s: Seq<char>) -> bool {
    &&& s.len() == 8
    &&& forall|i: int|
        0 <= i < 8 ==> if i == 2 || i == 5 {
            #[trigger] s[i] == ':'
        } else {
            '0' <= s[i] <= '9'
        }
    &&& two_digits(s, 0) < 24
    &&& two_digits(s, 3) < 60
    &&& two_digits(s, 6) <= 60
}

/// Whether `s` has a `T` at the place `k`, with the end of a date before it and the clock text
/// right after it.
pub open spec fn clock_stands_at(s: Seq<char>, k: int, clock: Seq<char>) -> bool {
    &&& 10 <= k
    &&& k + 9 <= s.len()
    &&& s[k - 6] == '-'
    &&& s[k - 3] == '-'
    &&& s[k] == 'T'
    &&& s.subrange(k + 1, k + 9) == clock
}

/// `chrono::NaiveDateTime`, as an opaque type.
#[verifier::external_type_specification]
#[verifier::external_body]
pub struct ExNaiveDateTime(NaiveDateTime);

/// The time of day of a reading of the clock, as `chrono` writes it for `%H:%M:%S`.
pub uninterp spec fn clock_text(now: NaiveDateTime) -> Seq<char>;

/// Calls `chrono::NaiveDateTime::format` for hours, minutes and seconds, of two digits each. The
/// text depends on the reading alone.
#[verifier::external_body]
fn write_clock(now: &NaiveDateTime) -> (res: String)
    ensures
        res@ == clock_text(*now),
        is_clock(res@),
{
    now.format("%H:%M:%S").to_string()
}

/// Takes the present moment through chrono's conversion from `SystemTime` to `DateTime<Local>`, as
/// `Local::now` does for a clock after the Unix epoch. Hands it out as local time, and as written
/// by `chrono::DateTime::to_rfc3339_opts`, which puts the same time of day after the date. Which
/// moment it is, and so which digits, is left open.
#[verifier::external_body]
fn local_now() -> (res: (NaiveDateTime, String))
    ensures
        exists|k: int| clock_stands_at(res.1@, k, clock_text(res.0)),
{
    let now = chrono::DateTime::<chrono::Local>::from(std::time::SystemTime::now());
    (now.naive_local(), now.to_rfc3339_opts(chrono::SecondsFormat::AutoSi, true))
}

/// Whether the two texts show one reading of the clock: its time of day, and a date with that time
/// of day.
pub open spec fn is_moment(clock: Seq<char>, rfc3339: Seq<char>) -> bool {
    &&& exists|now: NaiveDateTime| clock == #[trigger] clock_text(now)
    &&& is_clock(clock)
    &&& exists|k: int| clock_stands_at(rfc3339, k, clock)
}

/// The present moment.
fn moment_now() -> (res: Timestamp)
    ensures
        is_moment(res.clock@, res.rfc3339@),
{
    let (now, rfc3339) = local_now();
    Timestamp { clock: write_clock(&now), rfc3339 }
}

/// A single signal entry in the log.
#[derive(Debug, PartialEq)]
pub struct SignalEntry {
    pub timestamp: Timestamp,
    pub pid: u64,
    pub kind: SignalKind,
    pub message: String,
    pub payload: Option<Json>,
    /// The nonce that marks the output of an MCP task (EXIT signals of MCP tasks only).
    pub nonce: Option<String>,
}

/// What a signal says, apart from when it was logged.
pub struct SignalView {
    pub pid: u64,
    pub kind: SignalKind,
    pub message: Seq<char>,
    pub payload: Option<JsonView>,
    pub nonce: Option<Seq<char>>,
}

/// A logged signal.
pub struct EntryView {
    pub clock: Seq<char>,
    pub rfc3339: Seq<char>,
    pub signal: SignalView,
}

impl View for SignalEntry {
    type V = EntryView;

    open spec fn view(&self) -> EntryView {
        EntryView {
            clock: self.timestamp.clock@,
            rfc3339: self.timestamp.rfc3339@,
            signal: SignalView {
                pid: self.pid,
                kind: self.kind,
                message: self.message@,
                payload: opt_json_view(self.payload),
                nonce: opt_text(self.nonce),
            },
        }
    }
}

/// A signal that is only a message.
pub open spec fn plain_signal(pid: u64, kind: SignalKind, message: Seq<char>) -> SignalView {
    SignalView { pid, kind, message, payload: None, nonce: None }
}

impl EntryView {
    /// Whether the entry has the texts of a moment.
    pub open spec fn is_dated(self) -> bool {
        is_moment(self.clock, self.rfc3339)
    }

    /// The line in which the log shows this entry.
    pub open spec fn line(self) -> Seq<char> {
        "["@ + self.clock + "] PID "@ + decimal(self.signal.pid as nat) + " "@
            + self.signal.kind.label() + " "@ + self.signal.message
    }

    /// The entry as a JSON object; a missing payload or nonce is left out.
    pub open spec fn json(self) -> JsonView {
        let head = seq![
            ("timestamp"@, JsonView::Str(self.rfc3339)),
            ("pid"@, JsonView::Number(NumberView::PosInt(self.signal.pid))),
            ("kind"@, JsonView::Str(self.signal.kind.label())),
            ("message"@, JsonView::Str(self.signal.message)),
        ];
        let with_payload = match self.signal.payload {
            Some(p) => head.push(("payload"@, p)),
            None => head,
        };
        JsonView::Object(
            match self.signal.nonce {
                Some(n) => with_payload.push(("nonce"@, JsonView::Str(n))),
                None => with_payload,
            },
        )
    }
}

impl SignalEntry {
    /// An entry with a message alone, logged at the moment `now`.
    pub fn at(now: Timestamp, pid: u64, kind: SignalKind, message: &str) -> (res: SignalEntry)
        ensures
            res@ == (EntryView {
                clock: now.clock@,
                rfc3339: now.rfc3339@,
                signal: plain_signal(pid, kind, message@),
            }),
    {
        SignalEntry {
            timestamp: now,
            pid,
            kind,
            message: message.to_owned(),
            payload: None,
            nonce: None,
        }
    }

    /// An entry with a message alone, logged now.
    pub fn new(pid: u64, kind: SignalKind, message: &str) -> (res: SignalEntry)
        ensures
            res@.signal == plain_signal(pid, kind, message@),
            res@.is_dated(),
    {
        SignalEntry::at(moment_now(), pid, kind, message)
    }

    /// An entry with a message and a payload, logged now.
    pub fn with_payload(pid: u64, kind: SignalKind, message: &str, payload: Json) -> (res:
        SignalEntry)
        ensures
            res@.signal == (SignalView {
                payload: Some(payload@),
                ..plain_signal(pid, kind, message@)
            }),
            res@.is_dated(),
    {
        let mut res = SignalEntry::at(moment_now(), pid, kind, message);
        res.payload = Some(payload);
        res
    }

    /// This entry with a nonce attached.
    pub fn with_nonce(self, nonce: &str) -> (res: SignalEntry)
        ensures
            res@ == (EntryView {
                signal: SignalView { nonce: Some(nonce@), ..self@.signal },
                ..self@
            }),
    {
        let mut res = self;
        res.nonce = Some(nonce.to_owned());
        res
    }

    /// The line in which the log shows this entry.
    pub fn line(&self) -> (res: String)
        ensures
            res@ == self@.line(),
    {
        let mut out = "[".to_owned();
        out.append(self.timestamp.clock.as_str());
        out.append("] PID ");
        push_decimal(&mut out, self.pid);
        out.append(" ");
        out.append(self.kind.name());
        out.append(" ");
        out.append(self.message.as_str());
        out
    }

    /// The entry as a JSON object; a missing payload or nonce is left out.
    pub fn json(&self) -> (res: Json)
        ensures
            res@ == self@.json(),
    {
        let mut fields = Fields::new().with(
            "timestamp",
            Json::text(self.timestamp.rfc3339.as_str()),
        ).with("pid", Json::number(self.pid)).with("kind", Json::text(self.kind.name())).with(
            "message",
            Json::text(self.message.as_str()),
        );
        assert(fields@ =~= seq![
            ("timestamp"@, JsonView::Str(self@.rfc3339)),
            ("pid"@, JsonView::Number(NumberView::PosInt(self.pid))),
            ("kind"@, JsonView::Str(self.kind.label())),
            ("message"@, JsonView::Str(self.message@)),
        ]);
        if let Some(p) = &self.payload {
            fields = fields.with("payload", p.clone());
        }
        if let Some(n) = &self.nonce {
            fields = fields.with("nonce", Json::text(n.as_str()));
        }
        fields.object()
    }
}

/// The last `n` members of `s`, or all of them where there are fewer.
pub open spec fn last_n<T>(s: Seq<T>, n: nat) -> Seq<T> {
    if s.len() <= n {
        s
    } else {
        s.skip(s.len() - n)
    }
}

/// The entries that concern the PIDs of a set.
pub open spec fn entries_for(entries: Seq<EntryView>, pids: Set<u64>) -> Seq<EntryView>
    decreases entries.len(),
{
    if entries.len() == 0 {
        Seq::empty()
    } else {
        let earlier = entries_for(entries.drop_last(), pids);
        if pids.contains(entries.last().signal.pid) {
            earlier.push(entries.last())
        } else {
            earlier
        }
    }
}

/// The lines of the entries, each closed by a line break.
pub open spec fn lines(entries: Seq<EntryView>) -> Seq<char>
    decreases entries.len(),
{
    if entries.len() == 0 {
        Seq::empty()
    } else {
        lines(entries.drop_last()) + entries.last().line() + "\n"@
    }
}

/// The text for a window without entries.
pub open spec fn empty_text() -> Seq<char> {
    "Signal window: (empty)"@
}

/// A heading that counts the entries, and their lines.
pub open spec fn listing(entries: Seq<EntryView>) -> Seq<char> {
    "Signal window (last "@ + decimal(entries.len()) + "):\n"@ + lines(entries)
}

/// The last `count` of the entries as text.
pub open spec fn window_text(entries: Seq<EntryView>, count: nat) -> Seq<char> {
    if last_n(entries, count).len() == 0 {
        empty_text()
    } else {
        listing(last_n(entries, count))
    }
}

/// The last `count` of the entries that concern the PIDs of a set, as text.
pub open spec fn window_text_for(entries: Seq<EntryView>, count: nat, pids: Set<u64>) -> Seq<
    char,
> {
    if entries_for(entries, pids).len() == 0 {
        empty_text()
    } else {
        listing(last_n(entries_for(entries, pids), count))
    }
}

/// The last `count` of the entries as a JSON array.
pub open spec fn window_json(entries: Seq<EntryView>, count: nat) -> JsonView {
    JsonView::Array(last_n(entries, count).map_values(|e: EntryView| e.json()))
}

/// The views of a sequence of references to entries.
pub open spec fn entry_views(s: Seq<&SignalEntry>) -> Seq<EntryView> {
    s.map_values(|e: &SignalEntry| e@)
}

/// The text of a listing.
fn listing_text(entries: &Vec<&SignalEntry>) -> (res: String)
    ensures
        res@ == listing(entry_views(entries@)),
{
    let ghost all = entry_views(entries@);
    let mut out = "Signal window (last ".to_owned();
    push_decimal(&mut out, entries.len() as u64);
    out.append("):\n");
    let ghost head = out@;
    let mut i: usize = 0;
    while i < entries.len()
        invariant
            i <= entries.len() == all.len(),
            all == entry_views(entries@),
            out@ == head + lines(all.take(i as int)),
        decreases entries.len() - i,
    {
        out.append(entries[i].line().as_str());
        out.append("\n");
        assert(all.take(i + 1).drop_last() =~= all.take(i as int));
        i = i + 1;
    }
    assert(all.take(i as int) =~= all);
    out
}

/// Whether `entries` are log entries for the signals, each with the moment of its logging.
pub open spec fn stamped(entries: Seq<EntryView>, signals: Seq<SignalView>) -> bool {
    &&& entries.len() == signals.len()
    &&& forall|i: int|
        0 <= i < entries.len() ==> (#[trigger] entries[i]).signal == signals[i]
            && entries[i].is_dated()
}

/// Whether a window of `capacity` entries went from `before` to `after` by logging the signals,
/// in their order.
pub open spec fn logged(
    before: Seq<EntryView>,
    after: Seq<EntryView>,
    signals: Seq<SignalView>,
    capacity: nat,
) -> bool {
    exists|entries: Seq<EntryView>| #[trigger]
        stamped(entries, signals) && after == last_n(before + entries, capacity)
}

/// Keeping the last `n` twice is keeping them once.
pub proof fn last_n_absorbs<T>(s: Seq<T>, t: Seq<T>, n: nat)
    ensures
        last_n(last_n(s, n) + t, n) == last_n(s + t, n),
{
}

/// A window that fits its capacity is left as it is where nothing is logged.
pub proof fn nothing_logged(entries: Seq<EntryView>, capacity: nat)
    requires
        entries.len() <= capacity,
    ensures
        logged(entries, entries, Seq::empty(), capacity),
{
    let none = Seq::<EntryView>::empty();
    assert(stamped(none, Seq::empty()));
}

/// Logging some signals and then others is logging them all.
pub proof fn logging_adds_up(
    before: Seq<EntryView>,
    between: Seq<EntryView>,
    after: Seq<EntryView>,
    first: Seq<SignalView>,
    second: Seq<SignalView>,
    capacity: nat,
)
    requires
        logged(before, between, first, capacity),
        logged(between, after, second, capacity),
    ensures
        logged(before, after, first + second, capacity),
{
    let e1 = choose|entries: Seq<EntryView>| #[trigger]
        stamped(entries, first) && between == last_n(before + entries, capacity);
    let e2 = choose|entries: Seq<EntryView>| #[trigger]
        stamped(entries, second) && after == last_n(between + entries, capacity);
    last_n_absorbs(before + e1, e2, capacity);
    assert(before + e1 + e2 =~= before + (e1 + e2));
    assert(stamped(e1 + e2, first + second));
}

/// A window never holds more than its capacity. What was logged last stands at its end: the
/// signals themselves where they fit, and otherwise as many of the last as do. Before them stand
/// the last of the entries that were there, all of them where they fit.
pub proof fn latest_signals_stand_last(
    before: Seq<EntryView>,
    after: Seq<EntryView>,
    signals: Seq<SignalView>,
    capacity: nat,
)
    requires
        logged(before, after, signals, capacity),
    ensures
        after.len() == if before.len() + signals.len() <= capacity {
            before.len() + signals.len()
        } else {
            capacity
        },
        forall|k: int|
            0 <= k < after.len() && after.len() - signals.len() <= k
                ==> (#[trigger] after[k]).signal == signals[k - (after.len() - signals.len())],
        signals.len() <= after.len() ==> after.take(after.len() - signals.len()) == before.skip(
            before.len() - (after.len() - signals.len()),
        ),
        before.len() + signals.len() <= capacity ==> after.take(before.len() as int) == before,
{
    let entries = choose|entries: Seq<EntryView>| #[trigger]
        stamped(entries, signals) && after == last_n(before + entries, capacity);
    assert(after == last_n(before + entries, capacity));
    if signals.len() <= after.len() {
        let kept = (after.len() - signals.len()) as nat;
        assert(after.take(kept as int) =~= before.skip(before.len() - kept));
    }
}

/// What a window shows where all of it is asked for.
pub open spec fn all_shown(entries: Seq<EntryView>) -> Seq<EntryView> {
    last_n(entries, entries.len())
}

/// Where all of a window is asked for, every entry is shown, in its place.
pub proof fn the_whole_window_is_shown(entries: Seq<EntryView>, i: int)
    ensures
        all_shown(entries).len() == entries.len(),
        0 <= i < entries.len() ==> all_shown(entries)[i] == entries[i],
{
}

/// What is kept of a sequence are its last members, as many as there is room for.
pub proof fn the_last_are_kept<T>(s: Seq<T>, n: nat)
    ensures
        s.len() <= n ==> last_n(s, n) == s,
        s.len() > n ==> last_n(s, n) == s.subrange(s.len() - n, s.len() as int),
{
    if s.len() > n {
        assert(last_n(s, n) =~= s.subrange(s.len() - n, s.len() as int));
    }
}

/// The entries that concern the PIDs of a set are those whose PID is in it, in their order.
pub proof fn entries_are_chosen_by_pid(entries: Seq<EntryView>, pids: Set<u64>)
    ensures
        entries_for(entries, pids) == entries.filter(|e: EntryView| pids.contains(e.signal.pid)),
    decreases entries.len(),
{
    reveal(Seq::filter);
    if entries.len() > 0 {
        entries_are_chosen_by_pid(entries.drop_last(), pids);
    }
}

/// The text of an entry's line, spelled out.
pub open spec fn spelled(e: EntryView) -> Seq<char> {
    let kind = match e.signal.kind {
        SignalKind::Init => "INIT"@,
        SignalKind::Exit => "EXIT"@,
        SignalKind::Remind => "REMIND"@,
        SignalKind::Wait => "WAIT"@,
        SignalKind::Kill => "KILL"@,
    };
    "["@ + e.clock + "] PID "@ + decimal(e.signal.pid as nat) + " "@ + kind + " "@
        + e.signal.message + "\n"@
}

/// The lines of entries are those of each of them, one after the other.
proof fn lines_are_spelled_out(entries: Seq<EntryView>)
    ensures
        lines(entries) == entries.map_values(|e: EntryView| spelled(e)).flatten(),
    decreases entries.len(),
{
    let texts = entries.map_values(|e: EntryView| spelled(e));
    texts.lemma_flatten_and_flatten_alt_are_equivalent();
    if entries.len() > 0 {
        let some = entries.drop_last();
        let some_texts = some.map_values(|e: EntryView| spelled(e));
        lines_are_spelled_out(some);
        some_texts.lemma_flatten_and_flatten_alt_are_equivalent();
        assert(texts.drop_last() =~= some_texts);
        assert(texts.last() == spelled(entries.last()));
        assert(entries.last().line() + "\n"@ =~= spelled(entries.last()));
        assert(lines(entries) =~= lines(some) + spelled(entries.last()));
    }
}

/// The text of a window: a heading with the number of entries that are shown, and for each of them
/// its time, its PID, its kind and its whole message, the oldest first; a note where there is none.
pub proof fn window_text_shows_every_entry(entries: Seq<EntryView>, count: nat, pids: Set<u64>)
    ensures
        ({
            let shown = if entries.len() > count {
                entries.skip(entries.len() - count)
            } else {
                entries
            };
            window_text(entries, count) == if shown.len() == 0 {
                "Signal window: (empty)"@
            } else {
                "Signal window (last "@ + decimal(shown.len()) + "):\n"@ + shown.map_values(
                    |e: EntryView| spelled(e),
                ).flatten()
            }
        }),
        ({
            let chosen = entries.filter(|e: EntryView| pids.contains(e.signal.pid));
            let shown = if chosen.len() > count {
                chosen.skip(chosen.len() - count)
            } else {
                chosen
            };
            window_text_for(entries, count, pids) == if chosen.len() == 0 {
                "Signal window: (empty)"@
            } else {
                "Signal window (last "@ + decimal(shown.len()) + "):\n"@ + shown.map_values(
                    |e: EntryView| spelled(e),
                ).flatten()
            }
        }),
{
    lines_are_spelled_out(last_n(entries, count));
    entries_are_chosen_by_pid(entries, pids);
    lines_are_spelled_out(last_n(entries_for(entries, pids), count));
}

/// An entry as JSON says all that the entry holds, and a window as JSON is the array of the last
/// entries.
pub proof fn entries_are_told_in_full(entry: EntryView, entries: Seq<EntryView>, count: nat, i: int)
    ensures
        entry.json().field("timestamp"@) == Some(JsonView::Str(entry.rfc3339)),
        entry.json().u64_field("pid"@) == Some(entry.signal.pid),
        entry.json().str_field("kind"@) == Some(
            match entry.signal.kind {
                SignalKind::Init => "INIT"@,
                SignalKind::Exit => "EXIT"@,
                SignalKind::Remind => "REMIND"@,
                SignalKind::Wait => "WAIT"@,
                SignalKind::Kill => "KILL"@,
            },
        ),
        entry.json().str_field("message"@) == Some(entry.signal.message),
        entry.json().field("payload"@) == entry.signal.payload,
        entry.json().str_field("nonce"@) == entry.signal.nonce,
        window_json(entries, count) is Array,
        window_json(entries, count)->Array_0.len() == if entries.len() > count {
            count
        } else {
            entries.len()
        },
        0 <= i < window_json(entries, count)->Array_0.len() ==> window_json(
            entries,
            count,
        )->Array_0[i] == entries[entries.len() - window_json(
            entries,
            count,
        )->Array_0.len() + i].json(),
{
    reveal_strlit("timestamp");
    reveal_strlit("pid");
    reveal_strlit("kind");
    reveal_strlit("message");
    reveal_strlit("payload");
    reveal_strlit("nonce");
    assert("timestamp"@.len() == 9 && "pid"@.len() == 3 && "kind"@.len() == 4);
    assert("message"@.len() == 7 && "payload"@.len() == 7 && "nonce"@.len() == 5);
    assert("message"@[0] != "payload"@[0]);
    let f1: Seq<(Seq<char>, JsonView)> = Seq::empty().push(
        ("timestamp"@, JsonView::Str(entry.rfc3339)),
    );
    let f2 = f1.push(("pid"@, JsonView::Number(NumberView::PosInt(entry.signal.pid))));
    let f3 = f2.push(("kind"@, JsonView::Str(entry.signal.kind.label())));
    let f4 = f3.push(("message"@, JsonView::Str(entry.signal.message)));
    let f5 = match entry.signal.payload {
        Some(p) => f4.push(("payload"@, p)),
        None => f4,
    };
    let f6 = match entry.signal.nonce {
        Some(n) => f5.push(("nonce"@, JsonView::Str(n))),
        None => f5,
    };
    assert(entry.json()->Object_0 =~= f6);
    assert forall|key: Seq<char>| #[trigger] lookup(f6, key) == (if key == "nonce"@
        && entry.signal.nonce is Some {
        Some(JsonView::Str(entry.signal.nonce->0))
    } else if key == "payload"@ && entry.signal.payload is Some {
        entry.signal.payload
    } else if key == "message"@ {
        Some(JsonView::Str(entry.signal.message))
    } else if key == "kind"@ {
        Some(JsonView::Str(entry.signal.kind.label()))
    } else if key == "pid"@ {
        Some(JsonView::Number(NumberView::PosInt(entry.signal.pid)))
    } else if key == "timestamp"@ {
        Some(JsonView::Str(entry.rfc3339))
    } else {
        None
    }) by {
        let e: Seq<(Seq<char>, JsonView)> = Seq::empty();
        added_entry_counts(e, "timestamp"@, f1.last().1, key);
        added_entry_counts(f1, "pid"@, f2.last().1, key);
        added_entry_counts(f2, "kind"@, f3.last().1, key);
        added_entry_counts(f3, "message"@, f4.last().1, key);
        added_entry_counts(f4, "payload"@, f5.last().1, key);
        added_entry_counts(f5, "nonce"@, f6.last().1, key);
    }
}

/// A view that is kept to the PIDs of a set shows entries of these PIDs alone, and all of them.
pub proof fn only_chosen_pids_are_shown(entries: Seq<EntryView>, pids: Set<u64>)
    ensures
        forall|i: int|
            0 <= i < entries_for(entries, pids).len() ==> pids.contains(
                (#[trigger] entries_for(entries, pids)[i]).signal.pid,
            ) && entries.contains(entries_for(entries, pids)[i]),
        forall|i: int|
            0 <= i < entries.len() && pids.contains((#[trigger] entries[i]).signal.pid)
                ==> entries_for(entries, pids).contains(entries[i]),
    decreases entries.len(),
{
    if entries.len() > 0 {
        let some = entries.drop_last();
        let last = entries.last();
        let earlier = entries_for(some, pids);
        let kept = entries_for(entries, pids);
        only_chosen_pids_are_shown(some, pids);
        assert forall|i: int| 0 <= i < kept.len() implies pids.contains(
            (#[trigger] kept[i]).signal.pid,
        ) && entries.contains(kept[i]) by {
            if i < earlier.len() {
                assert(kept[i] == earlier[i]);
                assert(some.contains(earlier[i]));
            }
        }
        assert forall|i: int|
            0 <= i < entries.len() && pids.contains((#[trigger] entries[i]).signal.pid)
            implies kept.contains(entries[i]) by {
            if i < some.len() {
                let k = choose|k: int| 0 <= k < earlier.len() && earlier[k] == some[i];
                assert(kept[k] == entries[i]);
            } else {
                assert(kept[kept.len() - 1] == last);
            }
        }
    }
}

/// A line does not show the nonce and the payload of its entry.
pub proof fn line_shows_the_message_alone(
    entry: EntryView,
    payload: Option<JsonView>,
    nonce: Option<Seq<char>>,
)
    ensures
        (EntryView { signal: SignalView { payload, nonce, ..entry.signal }, ..entry }).line()
            == entry.line(),
{
}

/// Rolling signal window that keeps the last N entries.
pub struct SignalWindow {
    entries: VecDeque<SignalEntry>,
    capacity: usize,
}

impl SignalWindow {
    /// The entries in the window, the oldest first.
    pub closed spec fn entries(&self) -> Seq<EntryView> {
        self.entries@.map_values(|e: SignalEntry| e@)
    }

    /// How many entries the window keeps.
    pub closed spec fn capacity(&self) -> nat {
        self.capacity as nat
    }

    /// An empty window that keeps `capacity` entries.
    pub fn new(capacity: usize) -> (res: SignalWindow)
        ensures
            res.entries() == Seq::<EntryView>::empty(),
            res.capacity() == capacity,
    {
        let res = SignalWindow { entries: VecDeque::new(), capacity };
        res
    }

    /// Adds an entry; of the entries before it, those that no longer fit leave.
    pub fn push(&mut self, entry: SignalEntry)
        ensures
            final(self).entries() == last_n(old(self).entries().push(entry@), old(self).capacity()),
            final(self).capacity() == old(self).capacity(),
            entry@.is_dated() ==> logged(
                old(self).entries(),
                final(self).entries(),
                seq![entry@.signal],
                old(self).capacity(),
            ),
    {
        proof {
            assert(self.entries().push(entry@) =~= self.entries() + seq![entry@]);
            assert(entry@.is_dated() ==> stamped(seq![entry@], seq![entry@.signal]));
        }
        let ghost full = self.entries().push(entry@);
        self.entries.push_back(entry);
        assert(full.skip(0) =~= full);
        while self.entries.len() > self.capacity
            invariant
                self.capacity == old(self).capacity,
                self.entries().len() == self.entries@.len() <= full.len(),
                self.entries() == full.skip(full.len() - self.entries@.len()),
                self.entries@.len() == full.len() || self.entries@.len() >= self.capacity,
            decreases self.entries@.len(),
        {
            let ghost before = self.entries();
            let _ = self.entries.pop_front();
            assert(self.entries() =~= before.skip(1));
        }
    }

    /// The last `count` entries (or all of them where there are fewer).
    pub fn last(&self, count: usize) -> (res: Vec<&SignalEntry>)
        ensures
            entry_views(res@) == last_n(self.entries(), count as nat),
    {
        let n: usize = self.entries.len();
        let skip: usize = if n > count {
            n - count
        } else {
            0
        };
        let mut out: Vec<&SignalEntry> = Vec::new();
        let mut i: usize = skip;
        while i < n
            invariant
                skip <= i <= n == self.entries@.len(),
                out@.len() == i - skip,
                forall|k: int|
                    0 <= k < out@.len() ==> *(#[trigger] out@[k]) == self.entries@[skip + k],
            decreases n - i,
        {
            out.push(&self.entries[i]);
            i = i + 1;
        }
        out
    }

    /// All entries in the window.
    pub fn all(&self) -> (res: Vec<&SignalEntry>)
        ensures
            entry_views(res@) == all_shown(self.entries()),
    {
        self.last(self.entries.len())
    }

    /// The last `count` entries as a display string.
    pub fn format_window(&self, count: usize) -> (res: String)
        ensures
            res@ == window_text(self.entries(), count as nat),
    {
        let entries = self.last(count);
        if entries.len() == 0 {
            return "Signal window: (empty)".to_owned();
        }
        listing_text(&entries)
    }

    /// The last `count` of the entries whose PID is in the set, as a display string. So a window
    /// can be kept to one session, without the PIDs of earlier ones.
    pub fn format_window_for_pids(&self, count: usize, pids: &HashSet<u64>) -> (res: String)
        ensures
            res@ == window_text_for(self.entries(), count as nat, pids@),
    {
        broadcast use vstd::std_specs::hash::group_hash_axioms;

        let ghost all = self.entries();
        let mut kept: Vec<&SignalEntry> = Vec::new();
        let mut i: usize = 0;
        assert(all.take(0) =~= Seq::empty());
        while i < self.entries.len()
            invariant
                i <= self.entries@.len() == all.len(),
                all == self.entries(),
                entry_views(kept@) == entries_for(all.take(i as int), pids@),
            decreases self.entries@.len() - i,
        {
            assert(all.take(i + 1).drop_last() =~= all.take(i as int));
            let entry = &self.entries[i];
            if pids.contains(&entry.pid) {
                kept.push(entry);
            }
            i = i + 1;
        }
        assert(all.take(i as int) =~= all);
        let ghost filtered = entry_views(kept@);
        if kept.len() == 0 {
            return "Signal window: (empty)".to_owned();
        }
        let skip: usize = if kept.len() > count {
            kept.len() - count
        } else {
            0
        };
        let mut out: Vec<&SignalEntry> = Vec::new();
        let mut k: usize = skip;
        while k < kept.len()
            invariant
                skip <= k <= kept@.len(),
                out@ == kept@.subrange(skip as int, k as int),
            decreases kept@.len() - k,
        {
            out.push(kept[k]);
            assert(kept@.subrange(skip as int, k + 1) =~= kept@.subrange(
                skip as int,
                k as int,
            ).push(kept@[k as int]));
            k = k + 1;
        }
        assert(entry_views(out@) =~= last_n(filtered, count as nat));
        listing_text(&out)
    }

    /// The last `count` entries as a JSON array.
    pub fn to_json(&self, count: usize) -> (res: Json)
        ensures
            res@ == window_json(self.entries(), count as nat),
    {
        let entries = self.last(count);
        let mut items: Vec<Json> = Vec::new();
        let mut i: usize = 0;
        while i < entries.len()
            invariant
                i <= entries@.len(),
                items@.len() == i,
                forall|k: int| 0 <= k < i ==> (#[trigger] items@[k])@ == entries@[k]@.json(),
            decreases entries@.len() - i,
        {
            items.push(entries[i].json());
            i = i + 1;
        }
        let ghost shown = last_n(self.entries(), count as nat);
        let res = Json::Array(items);
        assert(res@->Array_0 =~= shown.map_values(|e: EntryView| e.json()));
        res
    }

    /// The number of entries.
    pub fn len(&self) -> (res: usize)
        ensures
            res == self.entries().len(),
    {
        self.entries.len()
    }

    /// Whether there are no entries.
    pub fn is_empty(&self) -> (res: bool)
        ensures
            res == (self.entries().len() == 0),
    {
        self.entries.len() == 0
    }
}

} // verus!
