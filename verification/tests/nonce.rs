use dispatch::nonce::{generate, nanos_shown, nonce_for, NonceCounter};

#[test]
fn nonces_are_four_hex_chars() {
    let mut counter = NonceCounter::new();
    for pid in 1..=10 {
        let n = generate(pid, &mut counter);
        assert_eq!(n.len(), 4, "nonce should be 4 chars, got: {}", n);
        assert!(
            n.chars().all(|c| c.is_ascii_hexdigit()),
            "non-hex char in nonce: {}",
            n
        );
    }
}

#[test]
fn nonces_differ_between_calls() {
    let mut counter = NonceCounter::new();
    let nonces: Vec<String> = (1..=20).map(|pid| generate(pid, &mut counter)).collect();
    let unique: std::collections::HashSet<&String> = nonces.iter().collect();
    // Birthday bound: P(any collision in 20 draws from 65536) ≈ 0.3%
    assert!(
        unique.len() > 15,
        "too many collisions in nonces: {:?}",
        nonces
    );
}

fn mixed(pid: u64, nanos: u64, count: u64) -> u64 {
    let mut v = pid
        .wrapping_mul(0x9e3779b97f4a7c15)
        .wrapping_add(nanos)
        .wrapping_add(count.wrapping_mul(0x6c62272e07bb0142));
    v ^= v >> 30;
    v = v.wrapping_mul(0xbf58476d1ce4e5b9);
    v ^= v >> 27;
    v = v.wrapping_mul(0x94d049bb133111eb);
    v ^ (v >> 31)
}

#[test]
fn nonce_is_the_low_part_of_the_mixed_word() {
    assert_eq!(nonce_for(0, 0, 0), "0000");
    for pid in [1u64, 2, 77, u64::MAX] {
        for nanos in [0u32, 1, 999_999_999] {
            for count in [0u64, 1, 1 << 40, u64::MAX] {
                assert_eq!(
                    nonce_for(pid, nanos, count),
                    format!("{:04x}", mixed(pid, nanos as u64, count) & 0xffff)
                );
            }
        }
    }
}

#[test]
fn nonce_pads_with_zeros() {
    let short = (0..100_000u64).find(|pid| mixed(*pid, 0, 1) & 0xffff < 0x10).unwrap();
    let n = nonce_for(short, 0, 1);
    assert_eq!(n.len(), 4);
    assert!(n.starts_with("000"));
}

#[test]
fn counter_values_mix_apart_at_one_nanosecond() {
    let mut words: Vec<u64> = (0..5000).map(|count| mixed(9, 123, count)).collect();
    words.sort();
    words.dedup();
    assert_eq!(words.len(), 5000);
}

#[test]
fn nanoseconds_of_a_clock_reading() {
    assert_eq!(nanos_shown(None), 0);
    assert_eq!(nanos_shown(Some((1_700_000_000, 0))), 0);
    assert_eq!(nanos_shown(Some((0, 999_999_999))), 999_999_999);
    assert_eq!(nanos_shown(Some((5, 42))), 42);
}

#[test]
fn tasks_in_a_row_mix_apart() {
    let mut words: Vec<u64> = (0..5000).map(|k| mixed(1 + k, 123, k)).collect();
    words.sort();
    words.dedup();
    assert_eq!(words.len(), 5000);
}
