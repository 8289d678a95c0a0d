//! The runtime per-sample pipeline: map each raw gaze sample through the
//! calibration profile, scale the normalized result to display pixels,
//! and smooth each axis with its own speed-adaptive filter. The
//! unverified shell reads the stream, hands each parsed sample in, and
//! forwards the returned coordinate to the pointer sink.

use vstd::prelude::*;
use crate::units::Point;
use crate::units::SCALE;
use crate::calibration::CalibrationProfile;
use crate::smoothing::OneEuroFilter;
use crate::session::MAX_DIM;
use crate::session::scale_px;

verus! {

/// Cutoff of the pointer filters when stationary: 0.01 Hz in
/// micro-hertz, very steady at rest.
pub const POINTER_MIN_CUTOFF: i64 = 10_000;

/// Speed sensitivity of the pointer filters: 0.002 in fixed point,
/// restrained against jitter spikes.
pub const POINTER_BETA: i64 = 2_000;

/// The per-frame processing state: the loaded profile, one adaptive
/// filter per screen axis, and the display dimensions.
pub struct StreamProcessor {
    pub profile: CalibrationProfile,
    pub filter_x: OneEuroFilter,
    pub filter_y: OneEuroFilter,
    pub width: u32,
    pub height: u32,
}

impl StreamProcessor {
    /// Ranges every reachable processor state stays inside: both
    /// filters well formed and their states within the screen, in
    /// micro-pixels.
    pub open spec fn wf(self) -> bool {
        &&& self.filter_x.wf()
        &&& self.filter_y.wf()
        &&& self.width <= MAX_DIM
        &&& self.height <= MAX_DIM
        &&& 0 <= self.filter_x.x_filter.s <= self.width * SCALE
        &&& 0 <= self.filter_x.x_filter.y <= self.width * SCALE
        &&& 0 <= self.filter_y.x_filter.s <= self.height * SCALE
        &&& 0 <= self.filter_y.x_filter.y <= self.height * SCALE
    }

    /// A processor over a loaded profile for a display of the given
    /// pixel dimensions, with fresh pointer filters.
    pub fn new(profile: CalibrationProfile, width: u32, height: u32) -> (r: StreamProcessor)
        requires
            width <= MAX_DIM,
            height <= MAX_DIM,
        ensures
            r.wf(),
            r.profile == profile,
            r.width == width,
            r.height == height,
            !r.filter_x.x_filter.initialized,
            !r.filter_y.x_filter.initialized,
            r.filter_x.mincutoff == POINTER_MIN_CUTOFF,
            r.filter_x.beta == POINTER_BETA,
            r.filter_y.mincutoff == POINTER_MIN_CUTOFF,
            r.filter_y.beta == POINTER_BETA,
    {
        StreamProcessor {
            profile,
            filter_x: OneEuroFilter::new(POINTER_MIN_CUTOFF, POINTER_BETA),
            filter_y: OneEuroFilter::new(POINTER_MIN_CUTOFF, POINTER_BETA),
            width,
            height,
        }
    }

    /// Process one raw gaze sample into a smoothed absolute pointer
    /// coordinate in micro-pixels. The result always lies on the
    /// display; the first sample passes through unsmoothed, and later
    /// samples never overshoot: each axis stays between the previous
    /// filtered position and the freshly mapped target.
    pub fn process_sample(&mut self, raw: &Point) -> (p: Point)
        requires
            old(self).wf(),
        ensures
            final(self).wf(),
            final(self).profile == old(self).profile,
            final(self).width == old(self).width,
            final(self).height == old(self).height,
            0 <= p.x <= old(self).width * SCALE,
            0 <= p.y <= old(self).height * SCALE,
            final(self).filter_x.x_filter.s == p.x,
            final(self).filter_y.x_filter.s == p.y,
            ({
                let tx = old(self).profile.map_x_spec(raw.x as int) * old(self).width;
                let ty = old(self).profile.map_y_spec(raw.y as int) * old(self).height;
                &&& (!old(self).filter_x.x_filter.initialized ==> p.x == tx)
                &&& (!old(self).filter_y.x_filter.initialized ==> p.y == ty)
                &&& (old(self).filter_x.x_filter.initialized && old(self).filter_x.x_filter.s <= tx
                    ==> old(self).filter_x.x_filter.s <= p.x <= tx)
                &&& (old(self).filter_x.x_filter.initialized && tx <= old(self).filter_x.x_filter.s
                    ==> tx <= p.x <= old(self).filter_x.x_filter.s)
                &&& (old(self).filter_y.x_filter.initialized && old(self).filter_y.x_filter.s <= ty
                    ==> old(self).filter_y.x_filter.s <= p.y <= ty)
                &&& (old(self).filter_y.x_filter.initialized && ty <= old(self).filter_y.x_filter.s
                    ==> ty <= p.y <= old(self).filter_y.x_filter.s)
            }),
    {
        let mapped = self.profile.map(raw);
        let tx = scale_px(mapped.x, self.width);
        let ty = scale_px(mapped.y, self.height);
        let sx = self.filter_x.filter(tx);
        let sy = self.filter_y.filter(ty);
        Point { x: sx, y: sy }
    }
}

} // verus!
