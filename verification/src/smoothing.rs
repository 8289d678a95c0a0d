//! Signal smoothing: a single-signal exponential low-pass filter with a
//! per-call coefficient, and the speed-adaptive filter built from two of
//! them (signal and derivative) that lowers lag during fast motion.
//!
//! Filter signals are fixed-point micro-units; smoothing coefficients are
//! fixed-point fractions of `SCALE` (`SCALE` itself meaning `1.0`, no
//! smoothing); frequencies and cutoffs are micro-hertz.

use vstd::prelude::*;
use crate::units::SCALE;
use crate::units::div_floor;

verus! {

/// Sampling frequency assumed before two timestamps have been seen:
/// 30 Hz, in micro-hertz.
pub const DEFAULT_FREQ: i64 = 30_000_000;

/// Highest representable sampling frequency (one sample per microsecond),
/// in micro-hertz; also the dividend turning an elapsed time in
/// microseconds into a frequency in micro-hertz.
pub const MAX_FREQ: i64 = 1_000_000_000_000;

/// Largest signal magnitude the adaptive filter accepts, in micro-units
/// (one million whole units; far beyond any screen coordinate).
pub const MAX_SIGNAL: i64 = 1_000_000_000_000;

/// Largest derivative magnitude reachable from in-range signals:
/// `2 * MAX_SIGNAL * MAX_FREQ / SCALE`, in micro-units per second.
pub const MAX_DERIV: i64 = 2_000_000_000_000_000_000;

/// Two pi in micro-radians, the constant of the low-pass coefficient
/// formula.
pub const TAU_MICRO: i64 = 6_283_185;

/// Fixed cutoff used to smooth the derivative estimate: 1 Hz, in
/// micro-hertz.
pub const DERIVATIVE_CUTOFF: i64 = 1_000_000;

/// One exponential smoothing step: the weighted mean of the new value
/// (weight `a`) and the previous state (weight `SCALE - a`), rounded
/// down.
pub open spec fn lp_step_spec(s: int, v: int, a: int) -> int {
    (a * v + (SCALE - a) * s) / (SCALE as int)
}

/// A smoothing step never leaves the closed interval between the
/// previous state and the new value: approach is monotonic and free of
/// overshoot, and the coefficient extremes pass the value or the state
/// through unchanged.
pub proof fn lemma_lp_step_between(s: int, v: int, a: int)
    requires
        0 <= a <= SCALE,
    ensures
        s <= v ==> s <= lp_step_spec(s, v, a) <= v,
        v <= s ==> v <= lp_step_spec(s, v, a) <= s,
        a == SCALE ==> lp_step_spec(s, v, a) == v,
        a == 0 ==> lp_step_spec(s, v, a) == s,
{
    let num = a * v + (SCALE - a) * s;
    assert(s <= v ==> (SCALE as int) * s <= num <= (SCALE as int) * v) by (nonlinear_arith)
        requires
            0 <= a <= SCALE,
            num == a * v + (SCALE - a) * s,
    ;
    assert(v <= s ==> (SCALE as int) * v <= num <= (SCALE as int) * s) by (nonlinear_arith)
        requires
            0 <= a <= SCALE,
            num == a * v + (SCALE - a) * s,
    ;
    assert(a == SCALE ==> num == (SCALE as int) * v) by (nonlinear_arith)
        requires
            num == a * v + (SCALE - a) * s,
    ;
    assert(a == 0 ==> num == (SCALE as int) * s) by (nonlinear_arith)
        requires
            num == a * v + (SCALE - a) * s,
    ;
    vstd::arithmetic::div_mod::lemma_div_multiples_vanish(s, SCALE as int);
    vstd::arithmetic::div_mod::lemma_div_multiples_vanish(v, SCALE as int);
    if s <= v {
        vstd::arithmetic::div_mod::lemma_div_is_ordered((SCALE as int) * s, num, SCALE as int);
        vstd::arithmetic::div_mod::lemma_div_is_ordered(num, (SCALE as int) * v, SCALE as int);
    } else {
        vstd::arithmetic::div_mod::lemma_div_is_ordered((SCALE as int) * v, num, SCALE as int);
        vstd::arithmetic::div_mod::lemma_div_is_ordered(num, (SCALE as int) * s, SCALE as int);
    }
}

/// Under a repeated constant input the filter state strictly advances
/// toward that input: whenever the remaining gap is at least
/// `SCALE / a` (the rounding quantum of the coefficient), one step
/// moves the state by at least one micro-unit. Together with
/// [`lemma_lp_step_between`] this pins the convergence behaviour: the
/// state approaches the input monotonically and can stand still only
/// once the gap is below that quantum.
pub proof fn lemma_lp_step_progress(s: int, v: int, a: int)
    requires
        0 <= a <= SCALE,
    ensures
        s < v && a * (v - s) >= SCALE ==> lp_step_spec(s, v, a) >= s + 1,
        v < s && a * (s - v) >= SCALE ==> lp_step_spec(s, v, a) <= s - 1,
{
    let num = a * v + (SCALE - a) * s;
    assert(num == (SCALE as int) * s + a * (v - s) && num == (SCALE as int) * s - a * (s - v))
        by (nonlinear_arith)
        requires
            num == a * v + (SCALE - a) * s,
    ;
    vstd::arithmetic::div_mod::lemma_div_multiples_vanish(s + 1, SCALE as int);
    vstd::arithmetic::div_mod::lemma_div_multiples_vanish(s - 1, SCALE as int);
    if s < v && a * (v - s) >= SCALE {
        vstd::arithmetic::div_mod::lemma_div_is_ordered((SCALE as int) * (s + 1), num, SCALE as int);
    }
    if v < s && a * (s - v) >= SCALE {
        vstd::arithmetic::div_mod::lemma_div_is_ordered(num, (SCALE as int) * (s - 1), SCALE as int);
    }
}

/// Single-signal exponential low-pass filter. The first call adopts the
/// input unchanged (zero-lag initialization); later calls blend the
/// input into the running state with the coefficient supplied per call.
#[derive(Clone, Copy, Debug, PartialEq, Eq, Structural)]
pub struct LowPassFilter {
    /// Last returned output.
    pub y: i64,
    /// Coefficient used by the most recent smoothing step.
    pub a: i64,
    /// Running filter state.
    pub s: i64,
    /// Whether a first value has been adopted.
    pub initialized: bool,
}

impl LowPassFilter {
    /// The output of the next call to `filter` on this state.
    pub open spec fn out_spec(self, v: int, a: int) -> int {
        if !self.initialized {
            v
        } else {
            lp_step_spec(self.s as int, v, a)
        }
    }

    pub fn new() -> (r: LowPassFilter)
        ensures
            r == (LowPassFilter { y: 0, a: 0, s: 0, initialized: false }),
    {
        LowPassFilter { y: 0, a: 0, s: 0, initialized: false }
    }

    /// Smooth one sample. The first call returns exactly the input; a
    /// coefficient of `SCALE` (`1.0`) returns exactly the input on every
    /// call; and the result never overshoots: it lies between the
    /// previous state and the input.
    pub fn filter(&mut self, value: i64, alpha: i64) -> (r: i64)
        requires
            0 <= alpha <= SCALE,
        ensures
            r == old(self).out_spec(value as int, alpha as int),
            final(self).initialized,
            final(self).s == r,
            final(self).y == r,
            !old(self).initialized ==> r == value && final(self).a == old(self).a,
            old(self).initialized ==> final(self).a == alpha,
            old(self).initialized && alpha == SCALE ==> r == value,
            old(self).initialized && old(self).s <= value ==> old(self).s <= r <= value,
            old(self).initialized && value <= old(self).s ==> value <= r <= old(self).s,
    {
        if !self.initialized {
            self.s = value;
            self.y = value;
            self.initialized = true;
        } else {
            proof {
                lemma_lp_step_between(self.s as int, value as int, alpha as int);
                assert(
                    -10000000000000000000000000 <= alpha * value <= 10000000000000000000000000
                        && -10000000000000000000000000 <= (SCALE - alpha) * self.s
                        <= 10000000000000000000000000
                ) by (nonlinear_arith)
                    requires
                        0 <= alpha <= 1000000,
                        -9223372036854775808 <= value <= 9223372036854775807,
                        -9223372036854775808 <= self.s <= 9223372036854775807,
                        SCALE == 1000000,
                ;
            }
            let num: i128 = (alpha as i128) * (value as i128) + ((SCALE - alpha) as i128) * (
            self.s as i128);
            let stepped: i64 = div_floor(num, SCALE as i128) as i64;
            self.a = alpha;
            self.s = stepped;
            self.y = stepped;
        }
        self.y
    }

    /// The last value this filter returned (zero before the first call).
    pub fn last_val(&self) -> (r: i64)
        ensures
            r == self.y,
    {
        self.y
    }
}

/// Sampling frequency estimated from an elapsed time of `dt`
/// microseconds, floored at one micro-hertz.
pub open spec fn freq_of_elapsed(dt: int) -> int {
    let f = (MAX_FREQ as int) / dt;
    if f < 1 {
        1
    } else {
        f
    }
}

/// The low-pass coefficient for a cutoff frequency at a sampling
/// frequency, both in micro-hertz: the fixed-point form of
/// `1 / (1 + (1 / (2 pi cutoff)) / (1 / freq))`.
pub open spec fn alpha_spec(cutoff: int, freq: int) -> int {
    let num = (TAU_MICRO * cutoff) / (SCALE as int);
    ((SCALE as int) * num) / (num + freq)
}

/// The raw derivative estimate, in micro-units per second: the change
/// since the last filtered value times the sampling frequency.
pub open spec fn deriv_spec(value: int, lastv: int, freq: int) -> int {
    ((value - lastv) * freq) / (SCALE as int)
}

/// Relies on std::time::SystemTime::now, read through duration_since
/// the Unix epoch: the current wall-clock time in whole microseconds.
/// Nothing is promised of the value: the clock may jump either way.
#[verifier::external_body]
fn now_micros() -> u64 {
    match std::time::SystemTime::now().duration_since(std::time::UNIX_EPOCH) {
        Ok(d) => d.as_micros() as u64,
        Err(_) => 0,
    }
}

/// Speed-adaptive smoothing filter: a low-pass filter on the signal
/// whose cutoff rises with the smoothed speed of the signal, plus a
/// second low-pass filter that smooths the derivative estimate itself.
/// One instance filters one independent signal (one screen axis).
#[derive(Clone, Copy, Debug, PartialEq, Eq, Structural)]
pub struct OneEuroFilter {
    /// Estimated sampling frequency, micro-hertz.
    pub freq: i64,
    /// Cutoff when stationary, micro-hertz: smaller smooths more.
    pub mincutoff: i64,
    /// Fixed-point sensitivity of the cutoff to speed: larger lags less.
    pub beta: i64,
    /// Cutoff used to smooth the derivative estimate, micro-hertz.
    pub dcutoff: i64,
    /// Low-pass filter on the signal.
    pub x_filter: LowPassFilter,
    /// Low-pass filter on the derivative estimate.
    pub dx_filter: LowPassFilter,
    /// Timestamp of the previous sample, microseconds, if any.
    pub last_time: Option<u64>,
}

impl OneEuroFilter {
    /// Ranges every reachable filter state stays inside: parameters in
    /// their fixed-point ranges, and both internal filters within the
    /// magnitudes that in-range signals can produce.
    pub open spec fn wf(self) -> bool {
        &&& 1 <= self.freq <= MAX_FREQ
        &&& 0 <= self.mincutoff <= MAX_FREQ
        &&& 0 <= self.beta <= SCALE
        &&& self.dcutoff == DERIVATIVE_CUTOFF
        &&& -MAX_SIGNAL <= self.x_filter.s <= MAX_SIGNAL
        &&& -MAX_SIGNAL <= self.x_filter.y <= MAX_SIGNAL
        &&& -MAX_DERIV <= self.dx_filter.s <= MAX_DERIV
        &&& -MAX_DERIV <= self.dx_filter.y <= MAX_DERIV
    }

    /// The sampling frequency after observing a sample at `now`: kept
    /// unless a positive elapsed time is available, the inverse of the
    /// elapsed time otherwise.
    pub open spec fn freq_after_spec(self, now: u64) -> int {
        match self.last_time {
            Some(l) => if now > l {
                freq_of_elapsed(now - l)
            } else {
                self.freq as int
            },
            None => self.freq as int,
        }
    }

    pub fn new(mincutoff: i64, beta: i64) -> (r: OneEuroFilter)
        requires
            0 <= mincutoff <= MAX_FREQ,
            0 <= beta <= SCALE,
        ensures
            r.wf(),
            r.freq == DEFAULT_FREQ,
            r.mincutoff == mincutoff,
            r.beta == beta,
            r.dcutoff == DERIVATIVE_CUTOFF,
            r.x_filter == (LowPassFilter { y: 0, a: 0, s: 0, initialized: false }),
            r.dx_filter == (LowPassFilter { y: 0, a: 0, s: 0, initialized: false }),
            r.last_time is None,
    {
        OneEuroFilter {
            freq: DEFAULT_FREQ,
            mincutoff,
            beta,
            dcutoff: DERIVATIVE_CUTOFF,
            x_filter: LowPassFilter::new(),
            dx_filter: LowPassFilter::new(),
            last_time: None,
        }
    }

    /// The low-pass coefficient for `cutoff` at sampling frequency
    /// `freq`.
    fn alpha_for(cutoff: i64, freq: i64) -> (a: i64)
        requires
            0 <= cutoff <= 3_000_000_000_000_000_000,
            1 <= freq <= MAX_FREQ,
        ensures
            a == alpha_spec(cutoff as int, freq as int),
            0 <= a <= SCALE,
    {
        proof {
            assert(0 <= (TAU_MICRO as int) * (cutoff as int) <= 18849555000000000000000000)
                by (nonlinear_arith)
                requires
                    TAU_MICRO == 6283185,
                    0 <= cutoff <= 3000000000000000000,
            ;
        }
        let num: i128 = div_floor((TAU_MICRO as i128) * (cutoff as i128), SCALE as i128);
        proof {
            vstd::arithmetic::div_mod::lemma_div_pos_is_pos(
                (TAU_MICRO as int) * (cutoff as int),
                SCALE as int,
            );
            vstd::arithmetic::div_mod::lemma_div_nonincreasing(
                (TAU_MICRO as int) * (cutoff as int),
                SCALE as int,
            );
        }
        let den: i128 = num + freq as i128;
        let a128: i128 = div_floor((SCALE as i128) * num, den);
        proof {
            vstd::arithmetic::div_mod::lemma_div_pos_is_pos((SCALE as int) * (num as int), den as int);
            vstd::arithmetic::div_mod::lemma_div_multiples_vanish(SCALE as int, den as int);
            vstd::arithmetic::div_mod::lemma_div_is_ordered(
                (SCALE as int) * (num as int),
                (den as int) * (SCALE as int),
                den as int,
            );
        }
        a128 as i64
    }

    /// One filtering step at an explicit timestamp: update the frequency
    /// estimate from the elapsed time, estimate and smooth the signal's
    /// speed, raise the cutoff with that speed, and smooth the signal.
    /// The result never overshoots: it lies between the previous
    /// filtered value and the input.
    pub fn filter_at(&mut self, value: i64, now_micros: u64) -> (r: i64)
        requires
            old(self).wf(),
            -MAX_SIGNAL <= value <= MAX_SIGNAL,
        ensures
            final(self).wf(),
            final(self).mincutoff == old(self).mincutoff,
            final(self).beta == old(self).beta,
            final(self).dcutoff == old(self).dcutoff,
            final(self).last_time == Some(now_micros),
            final(self).freq == old(self).freq_after_spec(now_micros),
            ({
                let f = old(self).freq_after_spec(now_micros);
                let dx = deriv_spec(value as int, old(self).x_filter.y as int, f);
                let ad = alpha_spec(old(self).dcutoff as int, f);
                let edx = old(self).dx_filter.out_spec(dx, ad);
                let cutoff = old(self).mincutoff + (old(self).beta * vstd::math::abs(edx)) / (
                SCALE as int);
                let ac = alpha_spec(cutoff, f);
                &&& r == old(self).x_filter.out_spec(value as int, ac)
                &&& final(self).x_filter.s == r
                &&& final(self).x_filter.y == r
                &&& final(self).x_filter.initialized
                &&& final(self).dx_filter.s == edx
                &&& final(self).dx_filter.y == edx
                &&& final(self).dx_filter.initialized
            }),
            !old(self).x_filter.initialized ==> r == value,
            old(self).x_filter.initialized && old(self).x_filter.s <= value ==> old(
                self,
            ).x_filter.s <= r <= value,
            old(self).x_filter.initialized && value <= old(self).x_filter.s ==> value <= r <= old(
                self,
            ).x_filter.s,
            -MAX_SIGNAL <= r <= MAX_SIGNAL,
    {
        match self.last_time {
            Some(last) => {
                if now_micros > last {
                    let dt: u64 = now_micros - last;
                    let freq_q: i128 = div_floor(MAX_FREQ as i128, dt as i128);
                    proof {
                        vstd::arithmetic::div_mod::lemma_div_pos_is_pos(
                            MAX_FREQ as int,
                            dt as int,
                        );
                        vstd::arithmetic::div_mod::lemma_div_nonincreasing(
                            MAX_FREQ as int,
                            dt as int,
                        );
                    }
                    self.freq = if freq_q < 1 {
                        1
                    } else {
                        freq_q as i64
                    };
                }
            },
            None => {},
        }
        self.last_time = Some(now_micros);

        let lastv = self.x_filter.last_val();
        proof {
            let dnum = (value as int - lastv as int) * (self.freq as int);
            assert(-2000000000000000000000000 <= dnum <= 2000000000000000000000000)
                by (nonlinear_arith)
                requires
                    dnum == (value as int - lastv as int) * (self.freq as int),
                    -1000000000000 <= value <= 1000000000000,
                    -1000000000000 <= lastv <= 1000000000000,
                    1 <= self.freq <= 1000000000000,
            ;
            assert(1000000 * 2000000000000000000 == 2000000000000000000000000);
            vstd::arithmetic::div_mod::lemma_div_multiples_vanish(
                2000000000000000000,
                SCALE as int,
            );
            vstd::arithmetic::div_mod::lemma_div_multiples_vanish(
                -2000000000000000000,
                SCALE as int,
            );
            vstd::arithmetic::div_mod::lemma_div_is_ordered(
                -2000000000000000000000000,
                dnum,
                SCALE as int,
            );
            vstd::arithmetic::div_mod::lemma_div_is_ordered(
                dnum,
                2000000000000000000000000,
                SCALE as int,
            );
        }
        let dx: i64 = div_floor(
            (value as i128 - lastv as i128) * (self.freq as i128),
            SCALE as i128,
        ) as i64;

        let ad = Self::alpha_for(self.dcutoff, self.freq);
        let edx = self.dx_filter.filter(dx, ad);

        let edx_abs: i64 = if edx < 0 {
            -edx
        } else {
            edx
        };
        proof {
            let bprod = (self.beta as int) * (edx_abs as int);
            assert(0 <= bprod <= 2000000000000000000000000) by (nonlinear_arith)
                requires
                    bprod == (self.beta as int) * (edx_abs as int),
                    0 <= self.beta <= 1000000,
                    0 <= edx_abs <= 2000000000000000000,
            ;
            vstd::arithmetic::div_mod::lemma_div_pos_is_pos(bprod, SCALE as int);
            vstd::arithmetic::div_mod::lemma_div_is_ordered(
                bprod,
                2000000000000000000000000,
                SCALE as int,
            );
        }
        let cutoff: i64 = self.mincutoff + div_floor(
            (self.beta as i128) * (edx_abs as i128),
            SCALE as i128,
        ) as i64;

        let ac = Self::alpha_for(cutoff, self.freq);
        self.x_filter.filter(value, ac)
    }

    /// Smooth one sample against the wall clock. What is guaranteed
    /// holds whatever time was read: the first call returns the input
    /// unchanged and keeps the default frequency estimate, later calls
    /// return a value between the previous filtered value and the
    /// input, and the parameters are untouched.
    pub fn filter(&mut self, value: i64) -> (r: i64)
        requires
            old(self).wf(),
            -MAX_SIGNAL <= value <= MAX_SIGNAL,
        ensures
            final(self).wf(),
            final(self).mincutoff == old(self).mincutoff,
            final(self).beta == old(self).beta,
            final(self).dcutoff == old(self).dcutoff,
            final(self).last_time is Some,
            old(self).last_time is None ==> final(self).freq == old(self).freq,
            final(self).x_filter.s == r,
            final(self).x_filter.y == r,
            final(self).x_filter.initialized,
            !old(self).x_filter.initialized ==> r == value,
            old(self).x_filter.initialized && old(self).x_filter.s <= value ==> old(
                self,
            ).x_filter.s <= r <= value,
            old(self).x_filter.initialized && value <= old(self).x_filter.s ==> value <= r <= old(
                self,
            ).x_filter.s,
            -MAX_SIGNAL <= r <= MAX_SIGNAL,
    {
        let now = now_micros();
        self.filter_at(value, now)
    }
}

} // verus!
