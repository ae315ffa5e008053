//! Nonces that mark the output of a task.

use std::time::SystemTime;

use vstd::prelude::*;

use crate::pid::{counted_on, counter_range};

verus! {

/// `std::time::SystemTime`, as an opaque type.
#[verifier::external_type_specification]
#[verifier::external_body]
pub struct ExSystemTime(SystemTime);

/// `SystemTime::now` reads the clock. Nothing is claimed of the reading.
pub assume_specification[ SystemTime::now ]() -> (t: SystemTime)
;

/// The time from the Unix epoch to a reading of the clock, in whole seconds and the nanoseconds
/// below them; nothing where the reading lies before the epoch.
pub uninterp spec fn passed_since_epoch(t: SystemTime) -> Option<(u64, u32)>;

/// Calls `SystemTime::duration_since` with the Unix epoch, and takes the duration apart with
/// `Duration::as_secs` and `Duration::subsec_nanos`. The result depends on the reading alone, and
/// the part below a whole second is less than one billion nanoseconds.
#[verifier::external_body]
fn since_epoch(now: SystemTime) -> (res: Option<(u64, u32)>)
    ensures
        res == passed_since_epoch(now),
        res matches Some((_, nanos)) ==> nanos < 1_000_000_000,
{
    now.duration_since(std::time::UNIX_EPOCH).ok().map(|d| (d.as_secs(), d.subsec_nanos()))
}

/// How many nonces a session has made.
#[derive(Debug)]
pub struct NonceCounter {
    count: u64,
}

impl View for NonceCounter {
    type V = u64;

    closed spec fn view(&self) -> u64 {
        self.count
    }
}

impl NonceCounter {
    /// A counter that has made none.
    pub fn new() -> (res: NonceCounter)
        ensures
            res@ == 0,
    {
        NonceCounter { count: 0 }
    }
}

/// The word that a nonce is mixed from.
pub open spec fn seed(pid: u64, nanos: u32, count: u64) -> u64 {
    pid.wrapping_mul(0x9e3779b97f4a7c15).wrapping_add(nanos as u64).wrapping_add(
        count.wrapping_mul(0x6c62272e07bb0142),
    )
}

/// The word `v` exclusive-or its own high bits, shifted down by `n`.
pub open spec fn fold(v: u64, n: u64) -> u64 {
    v ^ (v >> n)
}

/// The mixing of a word (the finalizer of splitmix64).
pub open spec fn mix(v: u64) -> u64 {
    let a = fold(v, 30).wrapping_mul(0xbf58476d1ce4e5b9);
    let b = fold(a, 27).wrapping_mul(0x94d049bb133111eb);
    fold(b, 31)
}

/// The lower-case hexadecimal digit for a number below sixteen.
pub open spec fn hex_char(d: int) -> char {
    if d < 10 {
        (48 + d) as char
    } else {
        (87 + d) as char
    }
}

/// The low sixteen bits of a word as four hexadecimal digits.
pub open spec fn low_hex(v: u64) -> Seq<char> {
    seq![
        hex_char((v / 4096) as int % 16),
        hex_char((v / 256) as int % 16),
        hex_char((v / 16) as int % 16),
        hex_char(v as int % 16),
    ]
}

/// The nonce for a PID, a clock reading and a counter value.
pub open spec fn nonce_text(pid: u64, nanos: u32, count: u64) -> Seq<char> {
    low_hex(mix(seed(pid, nanos, count)))
}

/// Whether `nonce` is the one that the PID and the counter value get at some reading of the clock.
pub open spec fn is_nonce_for(pid: u64, count: u64, nonce: Seq<char>) -> bool {
    exists|now: SystemTime|
        nonce == nonce_text(
            pid,
            nanos_below_second(#[trigger] passed_since_epoch(now)),
            count,
        )
}

/// Whether `s` is four lower-case hexadecimal digits.
pub open spec fn is_four_hex(s: Seq<char>) -> bool {
    &&& s.len() == 4
    &&& forall|i: int| 0 <= i < 4 ==> ('0' <= #[trigger] s[i] <= '9' || 'a' <= s[i] <= 'f')
}

/// The hexadecimal digit for `d`.
fn hex_digit(d: u64) -> (res: char)
    requires
        d < 16,
    ensures
        res == hex_char(d as int),
{
    let small: u8 = d as u8;
    if small < 10 {
        (48 + small) as char
    } else {
        (87 + small) as char
    }
}

/// The nonce for a PID, a clock reading and a counter value: splitmix64-style mixing of the
/// three, of which the low sixteen bits are kept.
pub fn nonce_for(pid: u64, nanos: u32, count: u64) -> (res: String)
    ensures
        res@ == nonce_text(pid, nanos, count),
{
    let mut v: u64 = pid.wrapping_mul(0x9e3779b97f4a7c15).wrapping_add(nanos as u64).wrapping_add(
        count.wrapping_mul(0x6c62272e07bb0142),
    );
    v = v ^ (v >> 30);
    v = v.wrapping_mul(0xbf58476d1ce4e5b9);
    v = v ^ (v >> 27);
    v = v.wrapping_mul(0x94d049bb133111eb);
    v = v ^ (v >> 31);
    let mut out = String::new();
    out.push(hex_digit(v / 4096 % 16));
    out.push(hex_digit(v / 256 % 16));
    out.push(hex_digit(v / 16 % 16));
    out.push(hex_digit(v % 16));
    out
}

/// The nanoseconds below the second, of a time that has passed since the epoch; zero before it.
pub open spec fn nanos_below_second(passed: Option<(u64, u32)>) -> u32 {
    match passed {
        Some((_, nanos)) => nanos,
        None => 0,
    }
}

/// The nanoseconds below the second, of a time that has passed since the epoch; zero before it.
pub fn nanos_shown(passed: Option<(u64, u32)>) -> (nanos: u32)
    ensures
        nanos == nanos_below_second(passed),
{
    match passed {
        Some((_, nanos)) => nanos,
        None => 0,
    }
}

/// The nanoseconds that the clock shows below the second; zero where it stands before the epoch.
/// Which reading of the clock they belong to rests on when the call is made.
fn clock_nanos() -> (nanos: u32)
    ensures
        nanos < 1_000_000_000,
        exists|now: SystemTime|
            nanos == nanos_below_second(#[trigger] passed_since_epoch(now)),
{
    nanos_shown(since_epoch(SystemTime::now()))
}

/// Whether a counter went from `before` to `after` by making this nonce for a PID.
pub open spec fn nonce_made(before: u64, after: u64, pid: u64, nonce: Seq<char>) -> bool {
    &&& is_nonce_for(pid, before, nonce)
    &&& is_four_hex(nonce)
    &&& after == counted_on(before, 1)
}

/// Generates a nonce of four hexadecimal digits for a PID. It mixes the PID, the nanoseconds of
/// the clock and the counter.
pub fn generate(pid: u64, counter: &mut NonceCounter) -> (res: String)
    ensures
        nonce_made(old(counter)@, final(counter)@, pid, res@),
{
    let count = counter.count;
    counter.count = count.wrapping_add(1);
    let nanos = clock_nanos();
    let res = nonce_for(pid, nanos, count);
    proof {
        nonce_is_four_hex(pid, nanos, count);
    }
    res
}

/// The value of a lower-case hexadecimal digit.
pub open spec fn hex_value(c: char) -> int {
    if '0' <= c <= '9' {
        c as int - '0' as int
    } else {
        c as int - 'a' as int + 10
    }
}

/// The digits of a nonce denote the low sixteen bits of the mixed word.
pub proof fn digits_denote_the_low_bits(pid: u64, nanos: u32, count: u64)
    ensures
        ({
            let n = nonce_text(pid, nanos, count);
            hex_value(n[0]) * 4096 + hex_value(n[1]) * 256 + hex_value(n[2]) * 16 + hex_value(n[3])
                == mix(seed(pid, nanos, count)) % 65536
        }),
        nanos_below_second(None) == 0,
        nanos_below_second(Some((count, nanos))) == nanos,
{
    low_hex_denotes_the_low_bits(mix(seed(pid, nanos, count)));
}

/// The value of the digit for a number is the number.
proof fn digit_has_its_value(d: int)
    requires
        0 <= d < 16,
    ensures
        hex_value(hex_char(d)) == d,
{
}

/// The four digits denote the low sixteen bits of a word.
proof fn low_hex_denotes_the_low_bits(v: u64)
    ensures
        ({
            let n = low_hex(v);
            hex_value(n[0]) * 4096 + hex_value(n[1]) * 256 + hex_value(n[2]) * 16 + hex_value(n[3])
                == v % 65536
        }),
{
    digit_has_its_value(v as int % 16);
    digit_has_its_value((v / 16) as int % 16);
    digit_has_its_value((v / 256) as int % 16);
    digit_has_its_value((v / 4096) as int % 16);
    let n = low_hex(v);
    assert(hex_value(n[0]) == v / 4096 % 16);
    assert(hex_value(n[1]) == v / 256 % 16);
    assert(hex_value(n[2]) == v / 16 % 16);
    assert(hex_value(n[3]) == v % 16);
    assert(v / 4096 % 16 * 4096 + v / 256 % 16 * 256 + v / 16 % 16 * 16 + v % 16 == v % 65536)
        by (bit_vector);
}

/// Every nonce is four lower-case hexadecimal digits.
pub proof fn nonce_is_four_hex(pid: u64, nanos: u32, count: u64)
    ensures
        is_four_hex(nonce_text(pid, nanos, count)),
{
}

/// A number of which an odd-like multiple is divisible by `m` is divisible by `m` itself: `c` has
/// the inverse `inv` modulo `m`.
proof fn divisible_through_unit(d: int, c: int, q: int, m: int, inv: int, k: int)
    requires
        m > 0,
        d * c == q * m,
        c * inv == 1 + k * m,
        -m < d < m,
    ensures
        d == 0,
{
    assert(d == m * (q * inv - k * d)) by (nonlinear_arith)
        requires
            d * c == q * m,
            c * inv == 1 + k * m,
    ;
    let t = q * inv - k * d;
    assert(t == 0) by (nonlinear_arith)
        requires
            d == m * t,
            -m < d < m,
            m > 0,
    ;
}

/// Multiplication by a number that has an inverse modulo 2^64 is one-to-one.
proof fn wrapping_mul_is_injective(a: u64, b: u64, c: u64, inv: int, k: int)
    requires
        a.wrapping_mul(c) == b.wrapping_mul(c),
        c * inv == 1 + k * 0x1_0000_0000_0000_0000,
    ensures
        a == b,
{
    let m: int = 0x1_0000_0000_0000_0000;
    let x: int = a * c;
    let y: int = b * c;
    let q: int = x / m - y / m;
    vstd::arithmetic::div_mod::lemma_fundamental_div_mod(x, m);
    vstd::arithmetic::div_mod::lemma_fundamental_div_mod(y, m);
    assert((a - b) * c == q * m) by (nonlinear_arith)
        requires
            x == a * c,
            y == b * c,
            x == m * (x / m) + x % m,
            y == m * (y / m) + y % m,
            x % m == y % m,
            q == x / m - y / m,
    ;
    divisible_through_unit(a - b, c as int, q, m, inv, k);
}

/// Mixing loses nothing: different words stay different.
pub proof fn mix_is_injective(x: u64, y: u64)
    requires
        mix(x) == mix(y),
    ensures
        x == y,
{
    let fx = fold(x, 30);
    let fy = fold(y, 30);
    let ax = fx.wrapping_mul(0xbf58476d1ce4e5b9);
    let ay = fy.wrapping_mul(0xbf58476d1ce4e5b9);
    let gx = fold(ax, 27);
    let gy = fold(ay, 27);
    let bx = gx.wrapping_mul(0x94d049bb133111eb);
    let by = gy.wrapping_mul(0x94d049bb133111eb);
    assert(bx ^ (bx >> 31u64) == by ^ (by >> 31u64) ==> bx == by) by (bit_vector);
    wrapping_mul_is_injective(
        gx,
        gy,
        0x94d049bb133111eb,
        0x319642b2d24d8ec3,
        0x1cd336eda85f1453,
    );
    assert(ax ^ (ax >> 27u64) == ay ^ (ay >> 27u64) ==> ax == ay) by (bit_vector);
    wrapping_mul_is_injective(
        fx,
        fy,
        0xbf58476d1ce4e5b9,
        0x96de1b173f119089,
        0x70c3bca78f27f46c,
    );
    assert(x ^ (x >> 30u64) == y ^ (y >> 30u64) ==> x == y) by (bit_vector);
}

/// Two counter values keep the mixed words apart, whatever the PID, even where the clock shows
/// the same nanosecond.
pub proof fn counts_mix_apart(pid: u64, nanos: u32, c1: u64, c2: u64)
    requires
        c1 != c2,
        c1 < 0x8000_0000_0000_0000,
        c2 < 0x8000_0000_0000_0000,
    ensures
        mix(seed(pid, nanos, c1)) != mix(seed(pid, nanos, c2)),
{
    if mix(seed(pid, nanos, c1)) == mix(seed(pid, nanos, c2)) {
        mix_is_injective(seed(pid, nanos, c1), seed(pid, nanos, c2));
        let step: u64 = 0x6c62272e07bb0142;
        let m: int = 0x1_0000_0000_0000_0000;
        let half: int = 0x8000_0000_0000_0000;
        let x: int = c1 * step;
        let y: int = c2 * step;
        let q: int = x / m - y / m;
        vstd::arithmetic::div_mod::lemma_fundamental_div_mod(x, m);
        vstd::arithmetic::div_mod::lemma_fundamental_div_mod(y, m);
        divisible_through_unit(
            c1 - c2,
            0x3631139703dd80a1,
            q,
            half,
            0x6bce78ed7bd46361,
            0x2da4708e51ee4f6d,
        );
    }
}

/// Whether the counter counts on by one from its value at `k`.
spec fn counts_on(counts: Seq<u64>, k: int) -> bool {
    counts[k + 1] == counted_on(counts[k], 1)
}

/// Where a counter that starts at 0 stands after `k` steps.
proof fn count_after(counts: Seq<u64>, k: int)
    requires
        0 <= k < counts.len() <= counter_range() + 1,
        k < counter_range(),
        counts[0] == 0,
        forall|j: int| 0 <= j < counts.len() - 1 ==> #[trigger] counts_on(counts, j),
    ensures
        counts[k] == k,
    decreases k,
{
    if k > 0 {
        count_after(counts, k - 1);
        assert(counts_on(counts, k - 1));
    }
}

/// The calls on a new counter, as many as there are counts, use the counts from 0 on, each once:
/// `counts` are the values of the counter, and `pids` and `nonces` those of the calls between
/// them.
pub proof fn calls_use_different_counts(
    counts: Seq<u64>,
    pids: Seq<u64>,
    nonces: Seq<Seq<char>>,
)
    requires
        counts.len() == nonces.len() + 1,
        pids.len() == nonces.len() <= counter_range(),
        counts[0] == 0,
        forall|k: int|
            0 <= k < nonces.len() ==> nonce_made(
                counts[k],
                counts[k + 1],
                pids[k],
                #[trigger] nonces[k],
            ),
    ensures
        forall|k: int| 0 <= k < nonces.len() ==> #[trigger] counts[k] == k,
        forall|k: int|
            0 <= k < nonces.len() ==> is_nonce_for(pids[k], k as u64, #[trigger] nonces[k]),
        counts.drop_last().no_duplicates(),
{
    assert forall|k: int| 0 <= k < counts.len() - 1 implies #[trigger] counts_on(counts, k) by {
        assert(nonce_made(counts[k], counts[k + 1], pids[k], nonces[k]));
    }
    assert forall|k: int| 0 <= k < nonces.len() implies #[trigger] counts[k] == k by {
        count_after(counts, k);
    }
    assert forall|k: int| 0 <= k < nonces.len() implies is_nonce_for(
        pids[k],
        k as u64,
        #[trigger] nonces[k],
    ) by {
        assert(nonce_made(counts[k], counts[k + 1], pids[k], nonces[k]));
        assert(counts[k] == k);
    }
}

/// The seed without wrapping: the sum of its parts, less a multiple of 2^64.
proof fn seed_quotient(pid: u64, nanos: u32, count: u64) -> (t: int)
    ensures
        seed(pid, nanos, count) == pid * 0x9e3779b97f4a7c15 + nanos + count * 0x6c62272e07bb0142 - t
            * 0x1_0000_0000_0000_0000,
{
    let m: int = 0x1_0000_0000_0000_0000;
    let x: int = pid * 0x9e3779b97f4a7c15;
    let y: int = count * 0x6c62272e07bb0142;
    let a: int = x % m + nanos;
    let b: int = a % m + y % m;
    x / m + a / m + y / m + b / m
}

/// Tasks that are started one after the other get PIDs and counts that rise together. Their mixed
/// words are different, even where the clock shows the same nanosecond for all of them.
pub proof fn tasks_in_a_row_mix_apart(pid: u64, count: u64, nanos: u32, i: nat, j: nat)
    requires
        i < j < i + counter_range(),
    ensures
        mix(seed(counted_on(pid, i), nanos, counted_on(count, i))) != mix(
            seed(counted_on(pid, j), nanos, counted_on(count, j)),
        ),
{
    let p1 = counted_on(pid, i);
    let p2 = counted_on(pid, j);
    let c1 = counted_on(count, i);
    let c2 = counted_on(count, j);
    if mix(seed(p1, nanos, c1)) == mix(seed(p2, nanos, c2)) {
        mix_is_injective(seed(p1, nanos, c1), seed(p2, nanos, c2));
        let t1 = seed_quotient(p1, nanos, c1);
        let t2 = seed_quotient(p2, nanos, c2);
        let m: int = 0x1_0000_0000_0000_0000;
        let d: int = j - i;
        let x: int = (pid + j) / m - (pid + i) / m;
        let y: int = (count + j) / m - (count + i) / m;
        assert(p2 - p1 == d - x * m);
        assert(c2 - c1 == d - y * m);
        let q: int = t2 - t1 + x * 0x9e3779b97f4a7c15 + y * 0x6c62272e07bb0142;
        assert(d * 0x10a99a0e787057d57 == q * m);
        divisible_through_unit(
            d,
            0x10a99a0e787057d57,
            q,
            m,
            0x199e9bfb55dcbe67,
            0x1aae2df8ad8cb51f,
        );
    }
}

} // verus!
