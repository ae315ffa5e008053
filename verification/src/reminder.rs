//! Reminders for tasks that run long.

use std::collections::HashMap;

use vstd::prelude::*;

verus! {

/// A reminder that has fired for a task.
#[derive(Debug, Clone, Copy, PartialEq, Eq)]
pub struct ReminderEvent {
    pub pid: u64,
    pub elapsed_secs: u64,
}

/// An armed reminder: it fires every `interval` seconds and has done so `fired` times.
#[derive(Debug, Clone, Copy, PartialEq, Eq)]
pub struct Reminder {
    pub interval: u64,
    pub fired: u64,
}

impl Reminder {
    /// How often the reminder has fired after it fires once more.
    pub open spec fn next_fired(self) -> u64 {
        if self.fired < u64::MAX {
            (self.fired + 1) as u64
        } else {
            u64::MAX
        }
    }
}

/// The product of two numbers, or the largest number where that is smaller.
pub open spec fn capped_product(a: u64, b: u64) -> u64 {
    if a * b > u64::MAX {
        u64::MAX
    } else {
        (a * b) as u64
    }
}

/// The reminders that are armed, by PID.
pub struct ReminderManager {
    armed: HashMap<u64, Reminder>,
}

impl View for ReminderManager {
    type V = Map<u64, Reminder>;

    closed spec fn view(&self) -> Map<u64, Reminder> {
        self.armed@
    }
}

impl ReminderManager {
    /// No reminder is armed.
    pub fn new() -> (res: ReminderManager)
        ensures
            res@ == Map::<u64, Reminder>::empty(),
    {
        ReminderManager { armed: HashMap::new() }
    }

    /// Arms a reminder that fires every `secs` seconds.
    pub fn start(&mut self, pid: u64, secs: u64)
        ensures
            final(self)@ == old(self)@.insert(pid, Reminder { interval: secs, fired: 0 }),
    {
        broadcast use vstd::std_specs::hash::group_hash_axioms;

        let _ = self.armed.insert(pid, Reminder { interval: secs, fired: 0 });
    }

    /// Disarms the reminder for a PID, if there is one.
    pub fn cancel(&mut self, pid: u64)
        ensures
            final(self)@ == old(self)@.remove(pid),
    {
        broadcast use vstd::std_specs::hash::group_hash_axioms;

        let _ = self.armed.remove(&pid);
    }

    /// Disarms all reminders.
    pub fn cancel_all(&mut self)
        ensures
            final(self)@ == Map::<u64, Reminder>::empty(),
    {
        self.armed.clear();
    }

    /// The interval of the reminder for a PID has passed once more. Where the reminder is armed
    /// it fires, and stays armed for the same interval.
    pub fn tick(&mut self, pid: u64) -> (res: Option<ReminderEvent>)
        ensures
            if old(self)@.contains_key(pid) {
                let r = old(self)@[pid];
                let fired = r.next_fired();
                &&& final(self)@ == old(self)@.insert(
                    pid,
                    Reminder { interval: r.interval, fired },
                )
                &&& res == Some(
                    ReminderEvent { pid, elapsed_secs: capped_product(r.interval, fired) },
                )
            } else {
                final(self)@ == old(self)@ && res is None
            },
    {
        broadcast use vstd::std_specs::hash::group_hash_axioms;

        let found: Option<Reminder> = match self.armed.get(&pid) {
            Some(r) => Some(*r),
            None => None,
        };
        match found {
            Some(r) => {
                let fired: u64 = r.fired.saturating_add(1);
                let _ = self.armed.insert(pid, Reminder { interval: r.interval, fired });
                let elapsed_secs: u64 = match r.interval.checked_mul(fired) {
                    Some(n) => n,
                    None => u64::MAX,
                };
                Some(ReminderEvent { pid, elapsed_secs })
            },
            None => None,
        }
    }
}

} // verus!
