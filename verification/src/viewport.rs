//! The geographic viewport: a centre and a zoom scale, in fixed point.
//!
//! Every quantity is an integer count of millionths. A latitude of 51.468
//! degrees is `51_468_000`, a scale of 1.0 is `1_000_000`, a zoom factor of 1.1
//! is `1_100_000`. Products and quotients are rounded towards minus infinity.

use vstd::prelude::*;
use vstd::arithmetic::div_mod::lemma_fundamental_div_mod_converse;

verus! {

/// How many units make one degree, or a scale or factor of 1.0.
pub const MICRO: i64 = 1_000_000;

/// The largest latitude, 90 degrees; the smallest is its negative.
pub const LAT_LIMIT: i64 = 90_000_000;

/// The largest longitude, 180 degrees; the smallest is its negative.
pub const LON_LIMIT: i64 = 180_000_000;

/// The smallest scale, 1.0: the whole globe is visible.
pub const SCALE_MIN: i64 = 1_000_000;

/// The largest scale, 100.0.
pub const SCALE_MAX: i64 = 100_000_000;

/// The latitude a fresh viewport is centred on.
pub const DEFAULT_LAT: i64 = 51_468_000;

/// The longitude a fresh viewport is centred on.
pub const DEFAULT_LON: i64 = -455_060;

/// The pan step that the explorer uses: 5 degrees.
pub const DEFAULT_STEP: i64 = 5_000_000;

/// The zoom factor that the explorer uses: 1.1.
pub const DEFAULT_FACTOR: i64 = 1_100_000;

/// The latitude span of the whole globe, 180 degrees.
pub const LAT_SPAN: i64 = 180_000_000;

/// The longitude span of the whole globe, 360 degrees.
pub const LON_SPAN: i64 = 360_000_000;

/// A direction to pan in.
#[derive(Clone, Copy, Debug, PartialEq, Eq, Structural)]
pub enum Direction {
    North,
    South,
    East,
    West,
}

/// The nearest value to `x` in the closed range from `lo` to `hi`.
pub open spec fn clamp(x: int, lo: int, hi: int) -> int {
    if x < lo {
        lo
    } else if x > hi {
        hi
    } else {
        x
    }
}

/// The mathematical content of a viewport.
pub struct ViewportModel {
    pub center_lat: int,
    pub center_lon: int,
    pub scale: int,
}

impl ViewportModel {
    /// Centre and scale lie in their closed ranges.
    pub open spec fn wf(self) -> bool {
        &&& -LAT_LIMIT <= self.center_lat <= LAT_LIMIT
        &&& -LON_LIMIT <= self.center_lon <= LON_LIMIT
        &&& SCALE_MIN <= self.scale <= SCALE_MAX
    }

    /// The viewport a session starts with.
    pub open spec fn initial() -> ViewportModel {
        ViewportModel {
            center_lat: DEFAULT_LAT as int,
            center_lon: DEFAULT_LON as int,
            scale: SCALE_MIN as int,
        }
    }

    /// The centre moved by `step` in `direction`, then clamped. The scale
    /// plays no part.
    pub open spec fn pan(self, direction: Direction, step: int) -> ViewportModel {
        match direction {
            Direction::North => ViewportModel {
                center_lat: clamp(self.center_lat + step, -LAT_LIMIT, LAT_LIMIT as int),
                ..self
            },
            Direction::South => ViewportModel {
                center_lat: clamp(self.center_lat - step, -LAT_LIMIT, LAT_LIMIT as int),
                ..self
            },
            Direction::East => ViewportModel {
                center_lon: clamp(self.center_lon + step, -LON_LIMIT, LON_LIMIT as int),
                ..self
            },
            Direction::West => ViewportModel {
                center_lon: clamp(self.center_lon - step, -LON_LIMIT, LON_LIMIT as int),
                ..self
            },
        }
    }

    /// The scale multiplied by `factor`, then clamped.
    pub open spec fn zoom_in(self, factor: int) -> ViewportModel {
        ViewportModel {
            scale: clamp(self.scale * factor / (MICRO as int), SCALE_MIN as int, SCALE_MAX as int),
            ..self
        }
    }

    /// The scale divided by `factor`, then clamped. Dividing by zero counts
    /// as infinitely large, dividing by a negative factor as negative.
    pub open spec fn zoom_out(self, factor: int) -> ViewportModel {
        ViewportModel {
            scale: if factor > 0 {
                clamp(self.scale * MICRO / factor, SCALE_MIN as int, SCALE_MAX as int)
            } else if factor == 0 {
                SCALE_MAX as int
            } else {
                SCALE_MIN as int
            },
            ..self
        }
    }

    /// Degrees of latitude in view: 180 divided by the scale.
    pub open spec fn lat_range(self) -> int {
        LAT_SPAN * MICRO / self.scale
    }

    /// Degrees of longitude in view: 360 divided by the scale.
    pub open spec fn lon_range(self) -> int {
        LON_SPAN * MICRO / self.scale
    }

    /// The viewport after the pans of `ops`, first to last.
    pub open spec fn pan_all(self, ops: Seq<(Direction, int)>) -> ViewportModel
        decreases ops.len(),
    {
        if ops.len() == 0 {
            self
        } else {
            self.pan_all(ops.drop_last()).pan(ops.last().0, ops.last().1)
        }
    }

    /// The viewport after the zooms of `ops`, first to last. An entry is
    /// `(true, factor)` to zoom in and `(false, factor)` to zoom out.
    pub open spec fn zoom_all(self, ops: Seq<(bool, int)>) -> ViewportModel
        decreases ops.len(),
    {
        if ops.len() == 0 {
            self
        } else if ops.last().0 {
            self.zoom_all(ops.drop_last()).zoom_in(ops.last().1)
        } else {
            self.zoom_all(ops.drop_last()).zoom_out(ops.last().1)
        }
    }

    /// `zoom_in(factor)`, `n` times over.
    pub open spec fn zoom_in_times(self, factor: int, n: nat) -> ViewportModel
        decreases n,
    {
        if n == 0 {
            self
        } else {
            self.zoom_in_times(factor, (n - 1) as nat).zoom_in(factor)
        }
    }

    /// `zoom_out(factor)`, `n` times over.
    pub open spec fn zoom_out_times(self, factor: int, n: nat) -> ViewportModel
        decreases n,
    {
        if n == 0 {
            self
        } else {
            self.zoom_out(factor).zoom_out_times(factor, (n - 1) as nat)
        }
    }

    /// None of the first `n` zooms in by `factor` is cut short by the upper
    /// limit of the scale.
    pub open spec fn zoom_in_unclamped(self, factor: int, n: nat) -> bool {
        forall|k: nat|
            k < n ==> #[trigger] self.zoom_in_times(factor, k).scale * factor / (MICRO as int)
                <= SCALE_MAX
    }
}

/// The drawable box in millionths of a degree.
#[derive(Clone, Copy, Debug, PartialEq, Eq, Structural)]
pub struct BoundingBox {
    pub lon_min: i64,
    pub lon_max: i64,
    pub lat_min: i64,
    pub lat_max: i64,
}

/// A map viewport: where the map is centred and how far it is zoomed in.
#[derive(Clone, Copy, Debug)]
pub struct GeoViewport {
    center_lat: i64,
    center_lon: i64,
    scale: i64,
}

impl View for GeoViewport {
    type V = ViewportModel;

    closed spec fn view(&self) -> ViewportModel {
        ViewportModel {
            center_lat: self.center_lat as int,
            center_lon: self.center_lon as int,
            scale: self.scale as int,
        }
    }
}

/// `center + delta` (or `center - delta` when `forward` is false), clamped
/// to `[-limit, limit]`.
fn shifted(center: i64, delta: i64, limit: i64, forward: bool) -> (r: i64)
    requires
        0 <= limit,
        -limit <= center <= limit,
    ensures
        r == clamp(if forward { center + delta } else { center - delta }, -limit, limit as int),
{
    let target: i128 = if forward {
        center as i128 + delta as i128
    } else {
        center as i128 - delta as i128
    };
    if target < -(limit as i128) {
        -limit
    } else if target > limit as i128 {
        limit
    } else {
        target as i64
    }
}

/// `span / scale` in fixed point, for a scale in its range.
fn span_over_scale(span: i64, scale: i64) -> (r: i64)
    requires
        0 <= span <= LON_SPAN,
        SCALE_MIN <= scale <= SCALE_MAX,
    ensures
        r == span * MICRO / (scale as int),
        0 <= r <= span,
{
    assert(span * MICRO <= LON_SPAN * MICRO) by (nonlinear_arith)
        requires
            span <= LON_SPAN,
    ;
    assert(0 <= span * MICRO) by (nonlinear_arith)
        requires
            0 <= span,
    ;
    let numerator: i64 = span * MICRO;
    proof {
        lemma_div_bounds(numerator as int, scale as int);
        assert(numerator / scale <= span) by (nonlinear_arith)
            requires
                (numerator / scale) * scale <= numerator,
                numerator == span * MICRO,
                scale >= MICRO,
                MICRO == 1_000_000,
                0 <= span,
        ;
    }
    numerator / scale
}

impl GeoViewport {
    /// The viewport a session starts with: centred on the reference airport,
    /// the whole globe in view.
    pub fn new() -> (r: GeoViewport)
        ensures
            r@ == ViewportModel::initial(),
            r@.wf(),
    {
        GeoViewport { center_lat: DEFAULT_LAT, center_lon: DEFAULT_LON, scale: SCALE_MIN }
    }

    /// Latitude of the centre.
    pub fn center_lat(&self) -> (r: i64)
        ensures
            r == self@.center_lat,
    {
        self.center_lat
    }

    /// Longitude of the centre.
    pub fn center_lon(&self) -> (r: i64)
        ensures
            r == self@.center_lon,
    {
        self.center_lon
    }

    /// The zoom scale.
    pub fn scale(&self) -> (r: i64)
        ensures
            r == self@.scale,
    {
        self.scale
    }

    /// Moves the centre by `step` in `direction` and clamps it to the globe.
    /// The step is not scaled by the zoom.
    pub fn pan(&mut self, direction: Direction, step: i64)
        requires
            old(self)@.wf(),
        ensures
            final(self)@ == old(self)@.pan(direction, step as int),
            final(self)@.wf(),
    {
        match direction {
            Direction::North => {
                self.center_lat = shifted(self.center_lat, step, LAT_LIMIT, true);
            },
            Direction::South => {
                self.center_lat = shifted(self.center_lat, step, LAT_LIMIT, false);
            },
            Direction::East => {
                self.center_lon = shifted(self.center_lon, step, LON_LIMIT, true);
            },
            Direction::West => {
                self.center_lon = shifted(self.center_lon, step, LON_LIMIT, false);
            },
        }
    }

    /// Multiplies the scale by `factor` and clamps it.
    pub fn zoom_in(&mut self, factor: i64)
        requires
            old(self)@.wf(),
        ensures
            final(self)@ == old(self)@.zoom_in(factor as int),
            final(self)@.wf(),
    {
        let scale: i64 = self.scale;
        assert(-0x4000_0000_0000_0000_0000_0000 <= scale * factor <= 0x4000_0000_0000_0000_0000_0000)
            by (nonlinear_arith)
            requires
                1 <= scale <= 100_000_000,
                -0x8000_0000_0000_0000 <= factor <= 0x8000_0000_0000_0000,
        ;
        let product: i128 = (scale as i128) * (factor as i128);
        if product < MICRO as i128 {
            proof {
                lemma_div_below(product as int, MICRO as int);
            }
            self.scale = SCALE_MIN;
        } else {
            let quotient: i128 = product / (MICRO as i128);
            self.scale = if quotient < SCALE_MIN as i128 {
                SCALE_MIN
            } else if quotient > SCALE_MAX as i128 {
                SCALE_MAX
            } else {
                quotient as i64
            };
        }
    }

    /// Divides the scale by `factor` and clamps it. A factor of zero gives
    /// the largest scale, a negative factor the smallest.
    pub fn zoom_out(&mut self, factor: i64)
        requires
            old(self)@.wf(),
        ensures
            final(self)@ == old(self)@.zoom_out(factor as int),
            final(self)@.wf(),
    {
        if factor > 0 {
            let scale: i64 = self.scale;
            assert(0 <= scale * MICRO <= 100_000_000_000_000) by (nonlinear_arith)
                requires
                    1 <= scale <= 100_000_000,
                    MICRO == 1_000_000,
            ;
            let quotient: i64 = scale * MICRO / factor;
            self.scale = if quotient < SCALE_MIN {
                SCALE_MIN
            } else if quotient > SCALE_MAX {
                SCALE_MAX
            } else {
                quotient
            };
        } else if factor == 0 {
            self.scale = SCALE_MAX;
        } else {
            self.scale = SCALE_MIN;
        }
    }

    /// The visible ranges `(latitude, longitude)`: 180 and 360 degrees, each
    /// divided by the scale.
    pub fn visible_bounds(&self) -> (r: (i64, i64))
        requires
            self@.wf(),
        ensures
            r.0 == self@.lat_range(),
            r.1 == self@.lon_range(),
            r.0 == LAT_SPAN * MICRO / self@.scale,
            r.1 == LON_SPAN * MICRO / self@.scale,
    {
        (span_over_scale(LAT_SPAN, self.scale), span_over_scale(LON_SPAN, self.scale))
    }

    /// The box to draw, in degrees: the visible ranges centred on the centre.
    /// It is not cut to the globe.
    pub fn bounding_box(&self) -> (r: BoundingBox)
        requires
            self@.wf(),
        ensures
            r.lon_min == self@.center_lon - self@.lon_range() / 2,
            r.lon_max == self@.center_lon + self@.lon_range() / 2,
            r.lat_min == self@.center_lat - self@.lat_range() / 2,
            r.lat_max == self@.center_lat + self@.lat_range() / 2,
    {
        let lat_half: i64 = span_over_scale(LAT_SPAN, self.scale) / 2;
        let lon_half: i64 = span_over_scale(LON_SPAN, self.scale) / 2;
        BoundingBox {
            lon_min: self.center_lon - lon_half,
            lon_max: self.center_lon + lon_half,
            lat_min: self.center_lat - lat_half,
            lat_max: self.center_lat + lat_half,
        }
    }
}

impl Default for GeoViewport {
    fn default() -> (r: GeoViewport)
        ensures
            r@ == ViewportModel::initial(),
            r@.wf(),
    {
        GeoViewport::new()
    }
}

/// A quotient rounded down, times the divisor, is the largest multiple of
/// the divisor that is not above the dividend.
pub proof fn lemma_div_bounds(x: int, d: int)
    requires
        d > 0,
    ensures
        (x / d) * d <= x < (x / d) * d + d,
{
    vstd::arithmetic::div_mod::lemma_fundamental_div_mod(x, d);
    vstd::arithmetic::div_mod::lemma_mod_bound(x, d);
    assert((x / d) * d == d * (x / d)) by (nonlinear_arith);
}

/// A dividend between two neighbouring multiples of the divisor has the
/// lower multiplier as its quotient.
pub proof fn lemma_div_between(x: int, d: int, q: int)
    requires
        d > 0,
        q * d <= x < q * d + d,
    ensures
        x / d == q,
{
    lemma_fundamental_div_mod_converse(x, d, q, x - q * d);
}

/// A dividend below the divisor has a quotient below one.
pub proof fn lemma_div_below(x: int, d: int)
    requires
        d > 0,
        x < d,
    ensures
        x / d <= 0,
{
    lemma_div_bounds(x, d);
    assert(x / d <= 0) by (nonlinear_arith)
        requires
            (x / d) * d <= x,
            x < d,
            d > 0,
    ;
}

/// Division by a positive divisor keeps the order.
pub proof fn lemma_div_monotone(x: int, y: int, d: int)
    requires
        d > 0,
        x <= y,
    ensures
        x / d <= y / d,
{
    lemma_div_bounds(x, d);
    lemma_div_bounds(y, d);
    assert(x / d <= y / d) by (nonlinear_arith)
        requires
            (x / d) * d <= x,
            x <= y,
            y < (y / d) * d + d,
            d > 0,
    ;
}

} // verus!
