use dispatch::pid::{next_pid, reset, PidCounter};

#[test]
fn pids_increment() {
    let mut counter = PidCounter::new();
    reset(&mut counter);
    assert_eq!(next_pid(&mut counter), 1);
    assert_eq!(next_pid(&mut counter), 2);
    assert_eq!(next_pid(&mut counter), 3);
}

#[test]
fn calls_give_the_numbers_from_one_on() {
    let mut counter = PidCounter::new();
    let pids: Vec<u64> = (0..1000).map(|_| next_pid(&mut counter)).collect();
    assert_eq!(pids, (1..=1000).collect::<Vec<u64>>());
    reset(&mut counter);
    assert_eq!(next_pid(&mut counter), 1);
}
