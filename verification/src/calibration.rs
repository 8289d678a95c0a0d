//! Calibration profiles: a small set of labeled reference points learned
//! from fixation samples, and the mapping they induce from raw gaze space
//! to normalized screen space.
//!
//! Two profile shapes exist behind one type: a five-point quadrant profile
//! (center plus the four corners) interpolating per quadrant, and a
//! nine-point grid profile interpolating bilinearly over a 3x3 grid. Both
//! always produce coordinates clamped to `0 ..= SCALE`, and both handle
//! degenerate reference configurations (zero span) without dividing by
//! zero.

use vstd::prelude::*;
use crate::units::Point;
use crate::units::SCALE;
use crate::units::HALF;
use crate::units::div_floor;

verus! {

/// Span below which two reference coordinates count as coincident
/// (`0.001` in whole units): interpolation across such a span is
/// degenerate and falls back to the midpoint factor.
pub const SPAN_EPS: i64 = 1_000;

/// The five reference points of the quadrant profile shape.
#[derive(Clone, Copy, Debug, PartialEq, Eq, Structural)]
pub struct QuadrantRefs {
    pub center: Point,
    pub top_left: Point,
    pub top_right: Point,
    pub bottom_left: Point,
    pub bottom_right: Point,
}

/// The nine reference points of the 3x3 grid profile shape.
#[derive(Clone, Copy, Debug, PartialEq, Eq, Structural)]
pub struct GridRefs {
    pub top_left: Point,
    pub top_center: Point,
    pub top_right: Point,
    pub middle_left: Point,
    pub center: Point,
    pub middle_right: Point,
    pub bottom_left: Point,
    pub bottom_center: Point,
    pub bottom_right: Point,
}

/// Which profile shape is in use: how many reference points are acquired
/// and which interpolation maps raw gaze coordinates.
#[derive(Clone, Copy, Debug, PartialEq, Eq, Structural)]
pub enum ProfileKind {
    Quadrant,
    Grid,
}

/// A calibration profile: the learned raw-to-normalized mapping,
/// represented as labeled reference points in raw gaze space.
#[derive(Clone, Copy, Debug, PartialEq, Eq, Structural)]
pub enum CalibrationProfile {
    Quadrant(QuadrantRefs),
    Grid(GridRefs),
}

/// Clamp a scalar into normalized screen range `0 ..= SCALE`.
pub open spec fn clamp_unit_spec(v: int) -> int {
    if v < 0 {
        0
    } else if v > SCALE {
        SCALE as int
    } else {
        v
    }
}

/// Floor division for a nonzero divisor of either sign.
pub open spec fn floor_div_spec(n: int, d: int) -> int {
    if d > 0 {
        n / d
    } else {
        (-n) / (-d)
    }
}

/// Floor of the mean of two scalars.
pub open spec fn mid2_spec(a: int, b: int) -> int {
    (a + b) / 2
}

/// Floor of the mean of three scalars.
pub open spec fn avg3_spec(a: int, b: int, c: int) -> int {
    (a + b + c) / 3
}

/// Normalized position of `raw` between the reference coordinates `lo`
/// (position `0`) and `hi` (position `SCALE`), clamped to that range; a
/// span smaller than `SPAN_EPS` is degenerate and fixes the midpoint.
pub open spec fn interp_t_spec(raw: int, lo: int, hi: int) -> int {
    if -(SPAN_EPS as int) < hi - lo < SPAN_EPS as int {
        HALF as int
    } else {
        clamp_unit_spec(floor_div_spec((raw - lo) * SCALE, hi - lo))
    }
}

impl QuadrantRefs {
    /// Mapping of one axis: `raw` against the center coordinate and the
    /// midpoints of the two same-side reference coordinates. The low side
    /// maps into `0 ..= HALF`, the high side into `HALF ..= SCALE`;
    /// a bound that coincides with the center saturates outright.
    pub open spec fn axis_spec(raw: int, center: int, lo_bound: int, hi_bound: int) -> int {
        if raw < center {
            if lo_bound == center {
                0
            } else {
                clamp_unit_spec(floor_div_spec((raw - lo_bound) * SCALE, center - lo_bound)) / 2
            }
        } else {
            if hi_bound == center {
                SCALE as int
            } else {
                (HALF as int)
                    + clamp_unit_spec(floor_div_spec((raw - center) * SCALE, hi_bound - center)) / 2
            }
        }
    }

    pub open spec fn map_x_spec(self, rawx: int) -> int {
        Self::axis_spec(
            rawx,
            self.center.x as int,
            mid2_spec(self.top_left.x as int, self.bottom_left.x as int),
            mid2_spec(self.top_right.x as int, self.bottom_right.x as int),
        )
    }

    pub open spec fn map_y_spec(self, rawy: int) -> int {
        Self::axis_spec(
            rawy,
            self.center.y as int,
            mid2_spec(self.top_left.y as int, self.top_right.y as int),
            mid2_spec(self.bottom_left.y as int, self.bottom_right.y as int),
        )
    }
}

impl GridRefs {
    /// Mapping of one axis of the grid shape: pick the half that `raw`
    /// falls in, interpolate between the near and far row or column
    /// averages, and place the result in that half of the screen range.
    pub open spec fn axis_spec(raw: int, center: int, lo_avg: int, mid_avg: int, hi_avg: int) -> int {
        if raw < center {
            interp_t_spec(raw, lo_avg, mid_avg) / 2
        } else {
            (HALF as int) + interp_t_spec(raw, mid_avg, hi_avg) / 2
        }
    }

    pub open spec fn top_avg_y(self) -> int {
        avg3_spec(self.top_left.y as int, self.top_center.y as int, self.top_right.y as int)
    }

    pub open spec fn mid_avg_y(self) -> int {
        avg3_spec(self.middle_left.y as int, self.center.y as int, self.middle_right.y as int)
    }

    pub open spec fn bottom_avg_y(self) -> int {
        avg3_spec(self.bottom_left.y as int, self.bottom_center.y as int, self.bottom_right.y as int)
    }

    pub open spec fn left_avg_x(self) -> int {
        avg3_spec(self.top_left.x as int, self.middle_left.x as int, self.bottom_left.x as int)
    }

    pub open spec fn center_avg_x(self) -> int {
        avg3_spec(self.top_center.x as int, self.center.x as int, self.bottom_center.x as int)
    }

    pub open spec fn right_avg_x(self) -> int {
        avg3_spec(self.top_right.x as int, self.middle_right.x as int, self.bottom_right.x as int)
    }

    pub open spec fn map_x_spec(self, rawx: int) -> int {
        Self::axis_spec(
            rawx,
            self.center.x as int,
            self.left_avg_x(),
            self.center_avg_x(),
            self.right_avg_x(),
        )
    }

    pub open spec fn map_y_spec(self, rawy: int) -> int {
        Self::axis_spec(
            rawy,
            self.center.y as int,
            self.top_avg_y(),
            self.mid_avg_y(),
            self.bottom_avg_y(),
        )
    }
}

impl CalibrationProfile {
    pub open spec fn kind_spec(self) -> ProfileKind {
        match self {
            CalibrationProfile::Quadrant(_) => ProfileKind::Quadrant,
            CalibrationProfile::Grid(_) => ProfileKind::Grid,
        }
    }

    pub open spec fn center_spec(self) -> Point {
        match self {
            CalibrationProfile::Quadrant(q) => q.center,
            CalibrationProfile::Grid(g) => g.center,
        }
    }

    pub open spec fn map_x_spec(self, rawx: int) -> int {
        match self {
            CalibrationProfile::Quadrant(q) => q.map_x_spec(rawx),
            CalibrationProfile::Grid(g) => g.map_x_spec(rawx),
        }
    }

    pub open spec fn map_y_spec(self, rawy: int) -> int {
        match self {
            CalibrationProfile::Quadrant(q) => q.map_y_spec(rawy),
            CalibrationProfile::Grid(g) => g.map_y_spec(rawy),
        }
    }
}

impl CalibrationProfile {
    /// Number of reference points a profile shape carries, in the fixed
    /// acquisition order.
    pub open spec fn ref_count_spec(kind: ProfileKind) -> int {
        match kind {
            ProfileKind::Quadrant => 5,
            ProfileKind::Grid => 9,
        }
    }

    /// The reference points in the fixed acquisition order: the center
    /// first, then the remaining points row by row.
    pub open spec fn points_seq_spec(self) -> Seq<Point> {
        match self {
            CalibrationProfile::Quadrant(q) => seq![
                q.center,
                q.top_left,
                q.top_right,
                q.bottom_left,
                q.bottom_right,
            ],
            CalibrationProfile::Grid(g) => seq![
                g.center,
                g.top_left,
                g.top_center,
                g.top_right,
                g.middle_left,
                g.middle_right,
                g.bottom_left,
                g.bottom_center,
                g.bottom_right,
            ],
        }
    }

    /// The profile assembled from (at least enough) reference points in
    /// acquisition order.
    pub open spec fn assemble_spec(kind: ProfileKind, s: Seq<Point>) -> CalibrationProfile {
        match kind {
            ProfileKind::Quadrant => CalibrationProfile::Quadrant(
                QuadrantRefs {
                    center: s[0],
                    top_left: s[1],
                    top_right: s[2],
                    bottom_left: s[3],
                    bottom_right: s[4],
                },
            ),
            ProfileKind::Grid => CalibrationProfile::Grid(
                GridRefs {
                    center: s[0],
                    top_left: s[1],
                    top_center: s[2],
                    top_right: s[3],
                    middle_left: s[4],
                    middle_right: s[5],
                    bottom_left: s[6],
                    bottom_center: s[7],
                    bottom_right: s[8],
                },
            ),
        }
    }

    /// The profile assembled from reference points in acquisition order,
    /// or nothing when the count does not match the shape.
    pub open spec fn from_points_spec(kind: ProfileKind, s: Seq<Point>) -> Option<CalibrationProfile> {
        if s.len() == Self::ref_count_spec(kind) {
            Some(Self::assemble_spec(kind, s))
        } else {
            None
        }
    }
}

/// Clamp an intermediate scalar into normalized screen range.
fn clamp_unit(v: i128) -> (r: i64)
    ensures
        r == clamp_unit_spec(v as int),
{
    if v < 0 {
        0
    } else if v > SCALE as i128 {
        SCALE
    } else {
        v as i64
    }
}

/// Floor of the mean of two coordinates.
fn mid2(a: i64, b: i64) -> (r: i64)
    ensures
        r == mid2_spec(a as int, b as int),
{
    proof {
        vstd::arithmetic::div_mod::lemma_div_is_ordered(
            2 * (i64::MIN as int),
            a + b,
            2,
        );
        vstd::arithmetic::div_mod::lemma_div_is_ordered(
            a + b,
            2 * (i64::MAX as int),
            2,
        );
        vstd::arithmetic::div_mod::lemma_div_multiples_vanish(i64::MIN as int, 2);
        vstd::arithmetic::div_mod::lemma_div_multiples_vanish(i64::MAX as int, 2);
    }
    div_floor(a as i128 + b as i128, 2) as i64
}

/// Floor of the mean of three coordinates.
fn avg3(a: i64, b: i64, c: i64) -> (r: i64)
    ensures
        r == avg3_spec(a as int, b as int, c as int),
{
    proof {
        vstd::arithmetic::div_mod::lemma_div_is_ordered(
            3 * (i64::MIN as int),
            a + b + c,
            3,
        );
        vstd::arithmetic::div_mod::lemma_div_is_ordered(
            a + b + c,
            3 * (i64::MAX as int),
            3,
        );
        vstd::arithmetic::div_mod::lemma_div_multiples_vanish(i64::MIN as int, 3);
        vstd::arithmetic::div_mod::lemma_div_multiples_vanish(i64::MAX as int, 3);
    }
    div_floor(a as i128 + b as i128 + c as i128, 3) as i64
}

/// Clamped position of `raw` between `lo` and `hi`, as a fraction of the
/// (nonzero) span, scaled to `0 ..= SCALE`.
fn ratio_clamped(raw: i64, lo: i64, hi: i64) -> (t: i64)
    requires
        lo != hi,
    ensures
        t == clamp_unit_spec(floor_div_spec((raw as int - lo as int) * SCALE, hi as int - lo as int)),
        0 <= t <= SCALE,
{
    let span: i128 = hi as i128 - lo as i128;
    proof {
        let dd = raw as int - lo as int;
        assert(-100000000000000000000000000 <= dd * 1000000 <= 100000000000000000000000000)
            by (nonlinear_arith)
            requires
                -20000000000000000000 <= dd <= 20000000000000000000,
        ;
    }
    let num: i128 = (raw as i128 - lo as i128) * (SCALE as i128);
    let q: i128 = if span > 0 {
        div_floor(num, span)
    } else {
        div_floor(-num, -span)
    };
    clamp_unit(q)
}

/// Interpolation factor between two reference coordinates, clamped,
/// with the degenerate-span fallback.
fn interp_t(raw: i64, lo: i64, hi: i64) -> (t: i64)
    ensures
        t == interp_t_spec(raw as int, lo as int, hi as int),
        0 <= t <= SCALE,
{
    let span: i128 = hi as i128 - lo as i128;
    if -(SPAN_EPS as i128) < span && span < SPAN_EPS as i128 {
        HALF
    } else {
        ratio_clamped(raw, lo, hi)
    }
}

/// Halve a nonnegative interpolation factor.
fn half_of(t: i64) -> (r: i64)
    requires
        0 <= t,
    ensures
        r == t as int / 2,
{
    ((t as u64) / 2) as i64
}

/// One axis of the quadrant mapping.
fn quad_axis(raw: i64, center: i64, lo_bound: i64, hi_bound: i64) -> (r: i64)
    ensures
        r == QuadrantRefs::axis_spec(raw as int, center as int, lo_bound as int, hi_bound as int),
        0 <= r <= SCALE,
{
    if raw < center {
        if lo_bound == center {
            0
        } else {
            let t = ratio_clamped(raw, lo_bound, center);
            half_of(t)
        }
    } else {
        if hi_bound == center {
            SCALE
        } else {
            let t = ratio_clamped(raw, center, hi_bound);
            HALF + half_of(t)
        }
    }
}

/// One axis of the grid mapping.
fn grid_axis(raw: i64, center: i64, lo_avg: i64, mid_avg: i64, hi_avg: i64) -> (r: i64)
    ensures
        r == GridRefs::axis_spec(raw as int, center as int, lo_avg as int, mid_avg as int, hi_avg as int),
        0 <= r <= SCALE,
{
    if raw < center {
        let t = interp_t(raw, lo_avg, mid_avg);
        half_of(t)
    } else {
        let t = interp_t(raw, mid_avg, hi_avg);
        HALF + half_of(t)
    }
}

impl CalibrationProfile {
    /// Map a raw gaze coordinate to normalized screen space. The result
    /// is a pure function of the profile and the input, and both of its
    /// coordinates always lie in `0 ..= SCALE`, however far out of range
    /// the raw input is.
    pub fn map(&self, raw: &Point) -> (r: Point)
        ensures
            r.x == self.map_x_spec(raw.x as int),
            r.y == self.map_y_spec(raw.y as int),
            0 <= r.x <= SCALE,
            0 <= r.y <= SCALE,
    {
        match self {
            CalibrationProfile::Quadrant(q) => {
                let x = quad_axis(
                    raw.x,
                    q.center.x,
                    mid2(q.top_left.x, q.bottom_left.x),
                    mid2(q.top_right.x, q.bottom_right.x),
                );
                let y = quad_axis(
                    raw.y,
                    q.center.y,
                    mid2(q.top_left.y, q.top_right.y),
                    mid2(q.bottom_left.y, q.bottom_right.y),
                );
                Point { x, y }
            },
            CalibrationProfile::Grid(g) => {
                let mid_avg_y = avg3(g.middle_left.y, g.center.y, g.middle_right.y);
                let ctr_avg_x = avg3(g.top_center.x, g.center.x, g.bottom_center.x);
                let x = grid_axis(
                    raw.x,
                    g.center.x,
                    avg3(g.top_left.x, g.middle_left.x, g.bottom_left.x),
                    ctr_avg_x,
                    avg3(g.top_right.x, g.middle_right.x, g.bottom_right.x),
                );
                let y = grid_axis(
                    raw.y,
                    g.center.y,
                    avg3(g.top_left.y, g.top_center.y, g.top_right.y),
                    mid_avg_y,
                    avg3(g.bottom_left.y, g.bottom_center.y, g.bottom_right.y),
                );
                Point { x, y }
            },
        }
    }

    /// Number of reference points the given shape acquires.
    pub fn ref_point_count(kind: ProfileKind) -> (n: usize)
        ensures
            n == Self::ref_count_spec(kind),
    {
        match kind {
            ProfileKind::Quadrant => 5,
            ProfileKind::Grid => 9,
        }
    }

    /// The hard-coded fallback profile used when no calibration exists:
    /// a symmetric grid spanning `0.3 ..= 0.7` of raw gaze space.
    pub open spec fn default_spec() -> CalibrationProfile {
        CalibrationProfile::Grid(
            GridRefs {
                top_left: Point { x: 300_000, y: 300_000 },
                top_center: Point { x: 500_000, y: 300_000 },
                top_right: Point { x: 700_000, y: 300_000 },
                middle_left: Point { x: 300_000, y: 500_000 },
                center: Point { x: 500_000, y: 500_000 },
                middle_right: Point { x: 700_000, y: 500_000 },
                bottom_left: Point { x: 300_000, y: 700_000 },
                bottom_center: Point { x: 500_000, y: 700_000 },
                bottom_right: Point { x: 700_000, y: 700_000 },
            },
        )
    }

    /// Fallback default values if no stored calibration exists.
    pub fn default() -> (r: CalibrationProfile)
        ensures
            r == Self::default_spec(),
    {
        CalibrationProfile::Grid(
            GridRefs {
                top_left: Point { x: 300_000, y: 300_000 },
                top_center: Point { x: 500_000, y: 300_000 },
                top_right: Point { x: 700_000, y: 300_000 },
                middle_left: Point { x: 300_000, y: 500_000 },
                center: Point { x: 500_000, y: 500_000 },
                middle_right: Point { x: 700_000, y: 500_000 },
                bottom_left: Point { x: 300_000, y: 700_000 },
                bottom_center: Point { x: 500_000, y: 700_000 },
                bottom_right: Point { x: 700_000, y: 700_000 },
            },
        )
    }

    /// The reference points of this profile in acquisition order, the
    /// form in which a profile is persisted and acquired.
    pub fn to_points(&self) -> (v: Vec<Point>)
        ensures
            v@ == self.points_seq_spec(),
    {
        let mut v: Vec<Point> = Vec::new();
        match self {
            CalibrationProfile::Quadrant(q) => {
                v.push(q.center);
                v.push(q.top_left);
                v.push(q.top_right);
                v.push(q.bottom_left);
                v.push(q.bottom_right);
            },
            CalibrationProfile::Grid(g) => {
                v.push(g.center);
                v.push(g.top_left);
                v.push(g.top_center);
                v.push(g.top_right);
                v.push(g.middle_left);
                v.push(g.middle_right);
                v.push(g.bottom_left);
                v.push(g.bottom_center);
                v.push(g.bottom_right);
            },
        }
        proof {
            assert(v@ =~= self.points_seq_spec());
        }
        v
    }

    /// Rebuild a profile of the given shape from reference points in
    /// acquisition order; fails exactly when the count does not match.
    pub fn from_points(kind: ProfileKind, pts: &Vec<Point>) -> (r: Option<CalibrationProfile>)
        ensures
            r == Self::from_points_spec(kind, pts@),
    {
        match kind {
            ProfileKind::Quadrant => {
                if pts.len() == 5 {
                    Some(
                        CalibrationProfile::Quadrant(
                            QuadrantRefs {
                                center: pts[0],
                                top_left: pts[1],
                                top_right: pts[2],
                                bottom_left: pts[3],
                                bottom_right: pts[4],
                            },
                        ),
                    )
                } else {
                    None
                }
            },
            ProfileKind::Grid => {
                if pts.len() == 9 {
                    Some(
                        CalibrationProfile::Grid(
                            GridRefs {
                                center: pts[0],
                                top_left: pts[1],
                                top_center: pts[2],
                                top_right: pts[3],
                                middle_left: pts[4],
                                middle_right: pts[5],
                                bottom_left: pts[6],
                                bottom_center: pts[7],
                                bottom_right: pts[8],
                            },
                        ),
                    )
                } else {
                    None
                }
            },
        }
    }
}

impl CalibrationProfile {
    /// When mapping the profile's own center lands exactly on the screen
    /// midpoint: the high-side span of each axis must not be degenerate,
    /// and for the grid shape the middle-row and center-column averages
    /// must agree with the center itself.
    pub open spec fn centered_pre(self) -> bool {
        match self {
            CalibrationProfile::Quadrant(q) => mid2_spec(
                q.top_right.x as int,
                q.bottom_right.x as int,
            ) != q.center.x as int && mid2_spec(
                q.bottom_left.y as int,
                q.bottom_right.y as int,
            ) != q.center.y as int,
            CalibrationProfile::Grid(g) => g.center_avg_x() == g.center.x as int
                && g.mid_avg_y() == g.center.y as int && !(-(SPAN_EPS as int) < g.right_avg_x()
                - g.center_avg_x() < SPAN_EPS as int) && !(-(SPAN_EPS as int) < g.bottom_avg_y()
                - g.mid_avg_y() < SPAN_EPS as int),
        }
    }
}

/// A profile maps its own center to the exact midpoint of the screen,
/// for both shapes, whenever the center is consistent with the averages
/// it is interpolated against and the high-side span is not degenerate.
pub proof fn lemma_map_center_is_midpoint(p: CalibrationProfile)
    requires
        p.centered_pre(),
    ensures
        p.map_x_spec(p.center_spec().x as int) == HALF,
        p.map_y_spec(p.center_spec().y as int) == HALF,
{
    match p {
        CalibrationProfile::Quadrant(q) => {
            let hx = mid2_spec(q.top_right.x as int, q.bottom_right.x as int);
            let hy = mid2_spec(q.bottom_left.y as int, q.bottom_right.y as int);
            vstd::arithmetic::div_mod::lemma_div_of0(hx - q.center.x as int);
            vstd::arithmetic::div_mod::lemma_div_of0(q.center.x as int - hx);
            vstd::arithmetic::div_mod::lemma_div_of0(hy - q.center.y as int);
            vstd::arithmetic::div_mod::lemma_div_of0(q.center.y as int - hy);
            vstd::arithmetic::div_mod::lemma_div_of0(2);
        },
        CalibrationProfile::Grid(g) => {
            vstd::arithmetic::div_mod::lemma_div_of0(g.right_avg_x() - g.center_avg_x());
            vstd::arithmetic::div_mod::lemma_div_of0(g.center_avg_x() - g.right_avg_x());
            vstd::arithmetic::div_mod::lemma_div_of0(g.bottom_avg_y() - g.mid_avg_y());
            vstd::arithmetic::div_mod::lemma_div_of0(g.mid_avg_y() - g.bottom_avg_y());
            vstd::arithmetic::div_mod::lemma_div_of0(2);
        },
    }
}

/// A fully degenerate quadrant profile (every reference point identical)
/// never divides by zero: each axis saturates deterministically to the
/// nearest bound of the normalized range.
pub proof fn lemma_degenerate_quadrant_saturates(q: QuadrantRefs, c: Point, rawx: int, rawy: int)
    requires
        q.center == c,
        q.top_left == c,
        q.top_right == c,
        q.bottom_left == c,
        q.bottom_right == c,
    ensures
        q.map_x_spec(rawx) == if rawx < c.x {
            0int
        } else {
            SCALE as int
        },
        q.map_y_spec(rawy) == if rawy < c.y {
            0int
        } else {
            SCALE as int
        },
{
    vstd::arithmetic::div_mod::lemma_div_multiples_vanish(c.x as int, 2);
    vstd::arithmetic::div_mod::lemma_div_multiples_vanish(c.y as int, 2);
    assert(c.x as int + c.x as int == 2 * (c.x as int));
    assert(c.y as int + c.y as int == 2 * (c.y as int));
}

/// A fully degenerate grid profile (every reference point identical)
/// never divides by zero: each axis falls back to the deterministic
/// midpoint of its half of the normalized range.
pub proof fn lemma_degenerate_grid_fallback(g: GridRefs, c: Point, rawx: int, rawy: int)
    requires
        g.top_left == c,
        g.top_center == c,
        g.top_right == c,
        g.middle_left == c,
        g.center == c,
        g.middle_right == c,
        g.bottom_left == c,
        g.bottom_center == c,
        g.bottom_right == c,
    ensures
        g.map_x_spec(rawx) == if rawx < c.x {
            250_000int
        } else {
            750_000int
        },
        g.map_y_spec(rawy) == if rawy < c.y {
            250_000int
        } else {
            750_000int
        },
{
    vstd::arithmetic::div_mod::lemma_div_multiples_vanish(c.x as int, 3);
    vstd::arithmetic::div_mod::lemma_div_multiples_vanish(c.y as int, 3);
    assert(c.x as int + c.x as int + c.x as int == 3 * (c.x as int));
    assert(c.y as int + c.y as int + c.y as int == 3 * (c.y as int));
    vstd::arithmetic::div_mod::lemma_div_multiples_vanish(250_000, 2);
    assert(HALF as int == 2 * 250_000);
}

/// Persisting a profile as its reference-point list and reading it back
/// yields the profile unchanged.
pub proof fn lemma_points_round_trip(p: CalibrationProfile)
    ensures
        CalibrationProfile::from_points_spec(p.kind_spec(), p.points_seq_spec()) == Some(p),
{
}

/// Reading a reference-point list of the right length and persisting the
/// resulting profile yields the list unchanged.
pub proof fn lemma_points_round_trip_rev(kind: ProfileKind, s: Seq<Point>)
    requires
        s.len() == CalibrationProfile::ref_count_spec(kind),
    ensures
        CalibrationProfile::from_points_spec(kind, s) matches Some(p) && p.points_seq_spec() == s,
{
    let p = CalibrationProfile::from_points_spec(kind, s).unwrap();
    assert(p.points_seq_spec() =~= s);
}

} // verus!
