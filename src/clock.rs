use vstd::prelude::*;

verus! {

/// A track's time base: one timestamp tick lasts `num / den` seconds.
#[derive(Clone, Copy, Debug, PartialEq, Eq, Structural)]
pub struct TimeBase {
    pub num: i32,
    pub den: i32,
}

impl TimeBase {
    /// A time base is a non-negative rational with a positive denominator.
    pub open spec fn wf(&self) -> bool {
        self.num >= 0 && self.den > 0
    }

    /// Builds `num / den`; `None` unless `num >= 0` and `den > 0`.
    pub fn new(num: i32, den: i32) -> (r: Option<TimeBase>)
        ensures
            r == (if num >= 0 && den > 0 {
                Some(TimeBase { num, den })
            } else {
                None::<TimeBase>
            }),
    {
        if num >= 0 && den > 0 {
            Some(TimeBase { num, den })
        } else {
            None
        }
    }
}

/// Whether a unit stamped `pts` in time base `num / den` seconds is due once
/// `elapsed_ms` milliseconds of playback have passed: its deadline,
/// `pts * num / den` seconds, is at or before the elapsed time.
pub open spec fn due(pts: int, num: int, den: int, elapsed_ms: int) -> bool {
    elapsed_ms * den >= pts * num * 1000
}

impl TimeBase {
    pub open spec fn is_due(&self, pts: int, elapsed_ms: int) -> bool {
        due(pts, self.num as int, self.den as int, elapsed_ms)
    }
}

/// Whether a unit with presentation timestamp `pts` is due for presentation
/// after `elapsed_ms` milliseconds of playback. A unit without a timestamp is
/// never due.
pub fn should_present(pts: Option<i64>, time_base: TimeBase, elapsed_ms: u64) -> (r: bool)
    requires
        time_base.wf(),
    ensures
        r == match pts {
            Some(p) => time_base.is_due(p as int, elapsed_ms as int),
            None => false,
        },
{
    match pts {
        None => false,
        Some(p) => {
            let num = time_base.num as i128;
            let den = time_base.den as i128;
            let e = elapsed_ms as i128;
            let p = p as i128;
            proof {
                lemma_deadline_fits(p as int, num as int, den as int, e as int);
            }
            let lhs = e * den;
            let pn = p * num;
            let rhs = pn * 1000;
            lhs >= rhs
        }
    }
}

proof fn lemma_deadline_fits(p: int, num: int, den: int, e: int)
    requires
        -0x8000_0000_0000_0000 <= p < 0x8000_0000_0000_0000,
        0 <= num < 0x8000_0000,
        0 < den < 0x8000_0000,
        0 <= e < 0x1_0000_0000_0000_0000,
    ensures
        0 <= e * den < 0x1_0000_0000_0000_0000_0000_0000,
        -0x4000_0000_0000_0000_0000_0000 <= p * num <= 0x4000_0000_0000_0000_0000_0000,
        -0x4000_0000_0000_0000_0000_0000_0000 <= p * num * 1000 <= 0x4000_0000_0000_0000_0000_0000_0000,
{
    assert(0 <= e * den < 0x1_0000_0000_0000_0000_0000_0000) by (nonlinear_arith)
        requires 0 <= e < 0x1_0000_0000_0000_0000, 0 < den < 0x8000_0000;
    assert(-0x4000_0000_0000_0000_0000_0000 <= p * num <= 0x4000_0000_0000_0000_0000_0000) by (nonlinear_arith)
        requires -0x8000_0000_0000_0000 <= p < 0x8000_0000_0000_0000, 0 <= num < 0x8000_0000;
    assert(-0x4000_0000_0000_0000_0000_0000_0000 <= (p * num) * 1000 <= 0x4000_0000_0000_0000_0000_0000_0000) by (nonlinear_arith)
        requires -0x4000_0000_0000_0000_0000_0000 <= p * num <= 0x4000_0000_0000_0000_0000_0000;
}

/// For a fixed clock origin, a unit's due status switches at most once, from
/// not due to due: if it is due at `early` it is due at every later time, and
/// if it is not due at `late` it was not due at any earlier time.
pub proof fn lemma_due_monotonic(time_base: TimeBase, pts: int, early: int, late: int)
    requires
        time_base.wf(),
        0 <= early <= late,
    ensures
        time_base.is_due(pts, early) ==> time_base.is_due(pts, late),
        !time_base.is_due(pts, late) ==> !time_base.is_due(pts, early),
{
    let den = time_base.den as int;
    assert(early * den <= late * den) by (nonlinear_arith)
        requires early <= late, den > 0;
}

/// The switch happens exactly at the deadline: with the deadline at `d`
/// milliseconds (`d * den == pts * num * 1000`), the unit is not due at any
/// time before `d` and due at `d` and at every time after.
pub proof fn lemma_due_threshold(time_base: TimeBase, pts: int, d: int, elapsed_ms: int)
    requires
        time_base.wf(),
        d * time_base.den == pts * time_base.num * 1000,
    ensures
        time_base.is_due(pts, elapsed_ms) == (elapsed_ms >= d),
{
    let den = time_base.den as int;
    if elapsed_ms >= d {
        assert(elapsed_ms * den >= d * den) by (nonlinear_arith)
            requires elapsed_ms >= d, den > 0;
    } else {
        assert(elapsed_ms * den < d * den) by (nonlinear_arith)
            requires elapsed_ms < d, den > 0;
    }
}

} // verus!
