//! Process identifiers. They are internal to a session and not those of the operating system.

use vstd::prelude::*;

verus! {

/// The number of different values of a counter.
pub open spec fn counter_range() -> int {
    0x1_0000_0000_0000_0000
}

/// Where a counter stands `k` steps after `first`; after the largest value comes zero.
pub open spec fn counted_on(first: u64, k: nat) -> u64 {
    ((first + k) % counter_range()) as u64
}

/// The PID counter of a session.
#[derive(Debug)]
pub struct PidCounter {
    next: u64,
}

impl View for PidCounter {
    type V = u64;

    closed spec fn view(&self) -> u64 {
        self.next
    }
}

impl PidCounter {
    /// A counter whose first PID is 1.
    pub fn new() -> (res: PidCounter)
        ensures
            res@ == 1,
    {
        PidCounter { next: 1 }
    }
}

/// Whether a counter went from `before` to `after` by handing out this PID.
pub open spec fn handed_out(before: u64, after: u64, pid: u64) -> bool {
    &&& pid == before
    &&& after == counted_on(before, 1)
}

/// Hands out the next PID.
pub fn next_pid(counter: &mut PidCounter) -> (pid: u64)
    ensures
        handed_out(old(counter)@, final(counter)@, pid),
{
    let pid = counter.next;
    counter.next = pid.wrapping_add(1);
    pid
}

/// Starts the counter again at 1.
pub fn reset(counter: &mut PidCounter)
    ensures
        final(counter)@ == 1,
{
    counter.next = 1;
}

/// Counting on by `a` and then by `b` steps is counting on by `a + b`.
pub proof fn counting_on_adds_up(first: u64, a: nat, b: nat)
    ensures
        counted_on(counted_on(first, a), b) == counted_on(first, a + b),
        counted_on(first, 0) == first,
{
}

/// Two PIDs of one counter are different unless the whole range of PIDs lies between them.
pub proof fn pids_are_distinct(first: u64, i: nat, j: nat)
    requires
        i < j < i + counter_range(),
    ensures
        counted_on(first, i) != counted_on(first, j),
{
}

/// The calls on a new counter, as many as there are PIDs, give exactly the numbers from 1 on,
/// each once and in rising order: `counts` are the values of the counter, and `pids` what the
/// calls between them hand out.
pub proof fn calls_count_from_one(counts: Seq<u64>, pids: Seq<u64>)
    requires
        counts.len() == pids.len() + 1,
        pids.len() < counter_range(),
        counts[0] == 1,
        forall|k: int|
            0 <= k < pids.len() ==> handed_out(counts[k], counts[k + 1], #[trigger] pids[k]),
    ensures
        forall|k: int| 0 <= k < pids.len() ==> #[trigger] pids[k] == k + 1,
        forall|pid: u64| #[trigger] pids.contains(pid) <==> 1 <= pid <= pids.len(),
        pids.no_duplicates(),
{
    assert forall|k: int| 0 <= k < pids.len() implies #[trigger] pids[k] == k + 1 by {
        count_after(counts, pids, k);
    }
    assert forall|pid: u64| 1 <= pid <= pids.len() implies #[trigger] pids.contains(pid) by {
        assert(pids[pid - 1] == pid);
    }
}

/// Where the counter stands after `k` calls.
proof fn count_after(counts: Seq<u64>, pids: Seq<u64>, k: int)
    requires
        counts.len() == pids.len() + 1,
        pids.len() < counter_range(),
        counts[0] == 1,
        forall|j: int|
            0 <= j < pids.len() ==> handed_out(counts[j], counts[j + 1], #[trigger] pids[j]),
        0 <= k < pids.len(),
    ensures
        counts[k] == k + 1,
        pids[k] == k + 1,
    decreases k,
{
    if k > 0 {
        count_after(counts, pids, k - 1);
        assert(handed_out(counts[k - 1], counts[k], pids[k - 1]));
    }
    assert(handed_out(counts[k], counts[k + 1], pids[k]));
}

} // verus!
