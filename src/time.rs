use vstd::prelude::*;

verus! {

/// Microseconds in one second.
pub const MICROS_PER_SECOND: u64 = 1000000;

/// A point or length in time, counted in microseconds.
#[derive(Debug, Clone, Copy, PartialEq, Eq, Structural)]
pub struct Time {
    pub microseconds: i64,
}

impl Time {
    /// No time at all.
    pub fn zero() -> (r: Time)
        ensures
            r.microseconds == 0,
    {
        Time { microseconds: 0 }
    }

    pub fn microseconds(microseconds: i64) -> (r: Time)
        ensures
            r.microseconds == microseconds,
    {
        Time { microseconds }
    }

    pub fn as_microseconds(&self) -> (r: i64)
        ensures
            r == self.microseconds,
    {
        self.microseconds
    }
}

/// A stretch of time: where it starts and how long it lasts.
#[derive(Debug, Clone, Copy, PartialEq, Eq, Structural)]
pub struct TimeSpan {
    pub offset: Time,
    pub length: Time,
}

/// The time at which frame `frames` starts, rounded up to a whole microsecond.
pub open spec fn frames_to_micros(frames: nat, rate: nat) -> int
    recommends
        rate > 0,
{
    (frames * MICROS_PER_SECOND + rate - 1) / (rate as int)
}

/// The frame that is playing `micros` microseconds in (rounded down).
pub open spec fn micros_to_frames(micros: int, rate: nat) -> int {
    micros * rate / (MICROS_PER_SECOND as int)
}

/// Converting a frame to time and back gives the same frame, for any rate up
/// to one frame per microsecond.
pub proof fn lemma_frame_round_trip(frames: nat, rate: nat)
    requires
        0 < rate <= MICROS_PER_SECOND,
    ensures
        micros_to_frames(frames_to_micros(frames, rate), rate) == frames,
        frames_to_micros(frames, rate) >= 0,
        frames > 0 ==> frames_to_micros(frames, rate) > 0,
{
    let m = MICROS_PER_SECOND as int;
    let r = rate as int;
    let n = frames * m + r - 1;
    let t = n / r;
    vstd::arithmetic::div_mod::lemma_fundamental_div_mod(n, r);
    let q = n % r;
    assert(0 <= q < r);
    assert(t * r == n - q) by (nonlinear_arith)
        requires
            n == r * t + q,
    ;
    assert(frames * m <= t * r < frames * m + m);
    vstd::arithmetic::div_mod::lemma_div_is_ordered_by_denominator(n, r, r);
    assert(t >= 0) by (nonlinear_arith)
        requires
            t * r >= 0,
            r > 0,
    ;
    assert((t * r) / m == frames) by {
        vstd::arithmetic::div_mod::lemma_fundamental_div_mod(t * r, m);
        let qq = (t * r) / m;
        let rr = (t * r) % m;
        assert(qq == frames) by (nonlinear_arith)
            requires
                t * r == m * qq + rr,
                0 <= rr < m,
                frames * m <= t * r < frames * m + m,
                m > 0,
        ;
    }
    assert(t * r == t * rate);
    if frames > 0 {
        assert(t > 0) by (nonlinear_arith)
            requires
                t * r >= frames * m,
                frames > 0,
                m > 0,
                t >= 0,
        ;
    }
}

/// Exec form of `frames_to_micros`.
pub fn frames_to_time(frames: u32, rate: u32) -> (r: Time)
    requires
        rate > 0,
    ensures
        r.microseconds == frames_to_micros(frames as nat, rate as nat),
{
    assert((frames as nat) * (MICROS_PER_SECOND as nat) <= 0x1_0000_0000 * 1000000) by (
    nonlinear_arith)
        requires
            frames < 0x1_0000_0000,
    ;
    let n: u128 = frames as u128 * MICROS_PER_SECOND as u128 + rate as u128 - 1;
    let t: u128 = n / rate as u128;
    assert(t <= n) by {
        vstd::arithmetic::div_mod::lemma_div_is_ordered_by_denominator(n as int, 1, rate as int);
    }
    Time { microseconds: t as i64 }
}

/// Frame start times grow with the frame, strictly for rates up to one frame
/// per microsecond.
pub proof fn lemma_frames_to_micros_grows(a: nat, b: nat, rate: nat)
    requires
        0 < rate,
        a <= b,
    ensures
        frames_to_micros(a, rate) <= frames_to_micros(b, rate),
        a < b && rate <= MICROS_PER_SECOND ==> frames_to_micros(a, rate) < frames_to_micros(
            b,
            rate,
        ),
{
    let m = MICROS_PER_SECOND as int;
    let r = rate as int;
    let x = a * m + r - 1;
    let y = b * m + r - 1;
    assert(a * m <= b * m) by (nonlinear_arith)
        requires
            a <= b,
            m > 0,
    ;
    if a < b {
        assert(b * m >= a * m + m) by (nonlinear_arith)
            requires
                a < b,
                m > 0,
        ;
    }
    vstd::arithmetic::div_mod::lemma_fundamental_div_mod(x, r);
    vstd::arithmetic::div_mod::lemma_fundamental_div_mod(y, r);
    let q1 = x / r;
    let q2 = y / r;
    let m1 = x % r;
    let m2 = y % r;
    assert(q1 <= q2) by (nonlinear_arith)
        requires
            x == r * q1 + m1,
            y == r * q2 + m2,
            0 <= m1 < r,
            0 <= m2 < r,
            x <= y,
    ;
    if a < b && rate <= MICROS_PER_SECOND {
        assert(q1 < q2) by (nonlinear_arith)
            requires
                x == r * q1 + m1,
                y == r * q2 + m2,
                0 <= m1 < r,
                0 <= m2 < r,
                x + r <= y,
        ;
    }
}

/// The frame playing `micros` microseconds in, for any time that fits in 64 bits.
pub fn micros_to_frame_count(micros: u128, rate: u32) -> (r: u128)
    requires
        micros <= u64::MAX,
    ensures
        r == micros_to_frames(micros as int, rate as nat),
{
    assert((micros as nat) * (rate as nat) <= 0x1_0000_0000_0000_0000 * 0x1_0000_0000) by (
    nonlinear_arith)
        requires
            micros <= 0x1_0000_0000_0000_0000,
            rate < 0x1_0000_0000,
    ;
    let p: u128 = micros * rate as u128;
    p / MICROS_PER_SECOND as u128
}

/// Exec form of `micros_to_frames`, for a non-negative time.
pub fn time_to_frames(t: Time, rate: u32) -> (r: u128)
    requires
        t.microseconds >= 0,
    ensures
        r == micros_to_frames(t.microseconds as int, rate as nat),
{
    micros_to_frame_count(t.microseconds as u128, rate)
}

} // verus!
