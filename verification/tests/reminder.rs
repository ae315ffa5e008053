use dispatch::reminder::{ReminderEvent, ReminderManager};

fn event(pid: u64, elapsed_secs: u64) -> Option<ReminderEvent> {
    Some(ReminderEvent { pid, elapsed_secs })
}

#[test]
fn reminder_comes_again_at_its_interval() {
    let mut reminders = ReminderManager::new();
    assert_eq!(reminders.tick(1), None);
    reminders.start(1, 30);
    reminders.start(2, 7);
    assert_eq!(reminders.tick(1), event(1, 30));
    assert_eq!(reminders.tick(1), event(1, 60));
    assert_eq!(reminders.tick(2), event(2, 7));
    assert_eq!(reminders.tick(1), event(1, 90));
}

#[test]
fn disarmed_reminder_does_not_come() {
    let mut reminders = ReminderManager::new();
    reminders.start(1, 30);
    reminders.start(2, 30);
    reminders.cancel(1);
    assert_eq!(reminders.tick(1), None);
    assert_eq!(reminders.tick(2), event(2, 30));
    reminders.cancel_all();
    assert_eq!(reminders.tick(2), None);
}

#[test]
fn elapsed_time_does_not_overflow() {
    let mut reminders = ReminderManager::new();
    reminders.start(1, u64::MAX);
    assert_eq!(reminders.tick(1), event(1, u64::MAX));
    assert_eq!(reminders.tick(1), event(1, u64::MAX));
}
