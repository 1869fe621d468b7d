//! What holds of every viewport, whatever pans and zooms it went through.

use vstd::prelude::*;
use crate::viewport::{
    lemma_div_between, lemma_div_bounds, lemma_div_monotone, Direction, ViewportModel, LAT_LIMIT,
    LON_LIMIT, MICRO, SCALE_MAX, SCALE_MIN,
};

verus! {

/// One pan keeps the centre on the globe and leaves the scale alone.
pub proof fn lemma_pan_in_range(v: ViewportModel, direction: Direction, step: int)
    requires
        v.wf(),
    ensures
        v.pan(direction, step).wf(),
        v.pan(direction, step).scale == v.scale,
{
}

/// After every step of any sequence of pans the latitude lies within 90
/// degrees of the equator and the longitude within 180 degrees of the prime
/// meridian.
pub proof fn lemma_pan_all_in_range(v: ViewportModel, ops: Seq<(Direction, int)>)
    requires
        v.wf(),
    ensures
        forall|k: int|
            0 <= k <= ops.len() ==> {
                let w = #[trigger] v.pan_all(ops.take(k));
                &&& -LAT_LIMIT <= w.center_lat <= LAT_LIMIT
                &&& -LON_LIMIT <= w.center_lon <= LON_LIMIT
                &&& w.wf()
            },
{
    assert forall|k: int| 0 <= k <= ops.len() implies (#[trigger] v.pan_all(ops.take(k))).wf() by {
        lemma_pan_all_wf(v, ops.take(k));
    }
}

/// A whole sequence of pans ends in a well-formed viewport.
pub proof fn lemma_pan_all_wf(v: ViewportModel, ops: Seq<(Direction, int)>)
    requires
        v.wf(),
    ensures
        v.pan_all(ops).wf(),
    decreases ops.len(),
{
    if ops.len() > 0 {
        lemma_pan_all_wf(v, ops.drop_last());
    }
}

/// One zoom, in or out, keeps the scale between 1 and 100 and leaves the
/// centre alone.
pub proof fn lemma_zoom_in_range(v: ViewportModel, factor: int)
    requires
        v.wf(),
    ensures
        v.zoom_in(factor).wf(),
        v.zoom_out(factor).wf(),
        v.zoom_in(factor).center_lat == v.center_lat,
        v.zoom_in(factor).center_lon == v.center_lon,
        v.zoom_out(factor).center_lat == v.center_lat,
        v.zoom_out(factor).center_lon == v.center_lon,
{
}

/// A whole sequence of zooms ends in a well-formed viewport.
pub proof fn lemma_zoom_all_wf(v: ViewportModel, ops: Seq<(bool, int)>)
    requires
        v.wf(),
    ensures
        v.zoom_all(ops).wf(),
    decreases ops.len(),
{
    if ops.len() > 0 {
        lemma_zoom_all_wf(v, ops.drop_last());
    }
}

/// After every step of any sequence of zooms the scale lies between 1 and
/// 100.
pub proof fn lemma_zoom_all_in_range(v: ViewportModel, ops: Seq<(bool, int)>)
    requires
        v.wf(),
    ensures
        forall|k: int|
            0 <= k <= ops.len() ==> SCALE_MIN <= (#[trigger] v.zoom_all(ops.take(k))).scale
                <= SCALE_MAX,
{
    assert forall|k: int| 0 <= k <= ops.len() implies SCALE_MIN <= (#[trigger] v.zoom_all(
        ops.take(k),
    )).scale <= SCALE_MAX by {
        lemma_zoom_all_wf(v, ops.take(k));
    }
}

/// A pan past a limit of the globe leaves a viewport that already stands at
/// that limit unchanged.
pub proof fn lemma_pan_idempotent_at_limit(v: ViewportModel, direction: Direction, step: int)
    requires
        v.wf(),
        step >= 0,
        match direction {
            Direction::North => v.center_lat == LAT_LIMIT,
            Direction::South => v.center_lat == -LAT_LIMIT,
            Direction::East => v.center_lon == LON_LIMIT,
            Direction::West => v.center_lon == -LON_LIMIT,
        },
    ensures
        v.pan(direction, step) == v,
{
}

/// A pan that was clamped is not changed by the same pan again.
pub proof fn lemma_pan_twice_at_limit(v: ViewportModel, direction: Direction, step: int)
    requires
        v.wf(),
        step >= 0,
        match direction {
            Direction::North => v.center_lat + step >= LAT_LIMIT,
            Direction::South => v.center_lat - step <= -LAT_LIMIT,
            Direction::East => v.center_lon + step >= LON_LIMIT,
            Direction::West => v.center_lon - step <= -LON_LIMIT,
        },
    ensures
        v.pan(direction, step).pan(direction, step) == v.pan(direction, step),
{
}

/// Zooming in at the largest scale, or out at the smallest, by a factor of
/// one or more changes nothing.
pub proof fn lemma_zoom_idempotent_at_limit(v: ViewportModel, factor: int)
    requires
        v.wf(),
        factor >= MICRO,
    ensures
        v.scale == SCALE_MAX ==> v.zoom_in(factor) == v,
        v.scale == SCALE_MIN ==> v.zoom_out(factor) == v,
{
    if v.scale == SCALE_MAX {
        assert(v.scale * factor >= SCALE_MAX * MICRO) by (nonlinear_arith)
            requires
                v.scale == SCALE_MAX,
                factor >= MICRO,
        ;
        lemma_div_monotone(SCALE_MAX * MICRO, v.scale * factor, MICRO as int);
        lemma_div_between(SCALE_MAX * MICRO, MICRO as int, SCALE_MAX as int);
    }
    if v.scale == SCALE_MIN {
        assert(v.scale * MICRO <= SCALE_MIN * factor) by (nonlinear_arith)
            requires
                v.scale == SCALE_MIN,
                factor >= MICRO,
                MICRO == SCALE_MIN,
        ;
        lemma_div_monotone(v.scale * MICRO, SCALE_MIN * factor, factor);
        lemma_div_between(SCALE_MIN * factor, factor, SCALE_MIN as int);
    }
}

/// One zoom in by a factor of one or more that the upper limit does not cut
/// short, followed by one zoom out by the same factor, gives the old scale
/// or one unit less.
pub proof fn lemma_zoom_in_then_out(v: ViewportModel, factor: int)
    requires
        v.wf(),
        factor >= MICRO,
        v.scale * factor / (MICRO as int) <= SCALE_MAX,
    ensures
        v.scale - 1 <= v.zoom_in(factor).zoom_out(factor).scale <= v.scale,
        v.zoom_in(factor).zoom_out(factor).wf(),
{
    let s = v.scale;
    let u = MICRO as int;
    let q = s * factor / u;
    lemma_div_bounds(s * factor, u);
    assert(q >= s) by {
        assert(s * factor >= s * u) by (nonlinear_arith)
            requires
                s >= 0,
                factor >= u,
        ;
        lemma_div_monotone(s * u, s * factor, u);
        lemma_div_between(s * u, u, s);
    }
    assert(v.zoom_in(factor).scale == q);
    // q * u <= s * factor, so the quotient by the factor is at most s
    assert(q * u <= s * factor);
    lemma_div_monotone(q * u, s * factor, factor);
    lemma_div_between(s * factor, factor, s);
    // q * u > (s - 1) * factor, so the quotient by the factor is at least s - 1
    assert(q * u >= (s - 1) * factor) by (nonlinear_arith)
        requires
            s * factor < q * u + u,
            factor >= u,
    ;
    lemma_div_monotone((s - 1) * factor, q * u, factor);
    lemma_div_between((s - 1) * factor, factor, s - 1);
}

/// Zooming out keeps the order of two scales that are at most one unit
/// apart, and keeps them at most one unit apart.
pub proof fn lemma_zoom_out_close(a: ViewportModel, b: ViewportModel, factor: int)
    requires
        a.wf(),
        b.wf(),
        factor >= MICRO,
        a.scale <= b.scale <= a.scale + 1,
    ensures
        a.zoom_out(factor).scale <= b.zoom_out(factor).scale <= a.zoom_out(factor).scale + 1,
        a.zoom_out(factor).wf(),
        b.zoom_out(factor).wf(),
{
    let u = MICRO as int;
    let x = a.scale * u;
    let y = b.scale * u;
    assert(x <= y <= x + u) by (nonlinear_arith)
        requires
            x == a.scale * u,
            y == b.scale * u,
            a.scale <= b.scale <= a.scale + 1,
            u > 0,
    ;
    lemma_div_monotone(x, y, factor);
    lemma_div_monotone(y, x + factor, factor);
    lemma_div_bounds(x, factor);
    assert((x / factor + 1) * factor == (x / factor) * factor + factor) by (nonlinear_arith);
    lemma_div_between(x + factor, factor, x / factor + 1);
}

/// The same, after any number of zooms out.
pub proof fn lemma_zoom_out_times_close(a: ViewportModel, b: ViewportModel, factor: int, n: nat)
    requires
        a.wf(),
        b.wf(),
        factor >= MICRO,
        a.scale <= b.scale <= a.scale + 1,
    ensures
        a.zoom_out_times(factor, n).scale <= b.zoom_out_times(factor, n).scale
            <= a.zoom_out_times(factor, n).scale + 1,
    decreases n,
{
    if n > 0 {
        lemma_zoom_out_close(a, b, factor);
        lemma_zoom_out_times_close(a.zoom_out(factor), b.zoom_out(factor), factor, (n - 1) as nat);
    }
}

/// Any number of zooms in leaves a well-formed viewport with the same
/// centre.
pub proof fn lemma_zoom_in_times_wf(v: ViewportModel, factor: int, n: nat)
    requires
        v.wf(),
    ensures
        v.zoom_in_times(factor, n).wf(),
        v.zoom_in_times(factor, n).center_lat == v.center_lat,
        v.zoom_in_times(factor, n).center_lon == v.center_lon,
    decreases n,
{
    if n > 0 {
        lemma_zoom_in_times_wf(v, factor, (n - 1) as nat);
    }
}

/// Any number of zooms out leaves a well-formed viewport with the same
/// centre.
pub proof fn lemma_zoom_out_times_wf(v: ViewportModel, factor: int, n: nat)
    requires
        v.wf(),
    ensures
        v.zoom_out_times(factor, n).wf(),
        v.zoom_out_times(factor, n).center_lat == v.center_lat,
        v.zoom_out_times(factor, n).center_lon == v.center_lon,
    decreases n,
{
    if n > 0 {
        lemma_zoom_out_times_wf(v.zoom_out(factor), factor, (n - 1) as nat);
    }
}

/// Zooming in `n` times and then out `n` times by the same factor of one or
/// more brings the scale back to where it was, up to the rounding of the
/// fixed-point quotients: the scale ends at most `n` units below its start
/// and never above it. The centre does not move. The law is stated for
/// zooms in that the upper limit of the scale does not cut short.
pub proof fn lemma_zoom_round_trip(v: ViewportModel, factor: int, n: nat)
    requires
        v.wf(),
        factor >= MICRO,
        v.zoom_in_unclamped(factor, n),
    ensures
        v.scale - n <= v.zoom_in_times(factor, n).zoom_out_times(factor, n).scale <= v.scale,
        v.zoom_in_times(factor, n).zoom_out_times(factor, n).center_lat == v.center_lat,
        v.zoom_in_times(factor, n).zoom_out_times(factor, n).center_lon == v.center_lon,
    decreases n,
{
    lemma_zoom_in_times_wf(v, factor, n);
    lemma_zoom_out_times_wf(v.zoom_in_times(factor, n), factor, n);
    if n > 0 {
        let m = (n - 1) as nat;
        let t = v.zoom_in_times(factor, m);
        assert(v.zoom_in_unclamped(factor, m)) by {
            assert forall|k: nat| k < m implies #[trigger] v.zoom_in_times(factor, k).scale
                * factor / (MICRO as int) <= SCALE_MAX by {
                assert(k < n);
            }
        }
        lemma_zoom_round_trip(v, factor, m);
        lemma_zoom_in_times_wf(v, factor, m);
        assert(t.scale * factor / (MICRO as int) <= SCALE_MAX) by {
            assert(m < n);
        }
        lemma_zoom_in_then_out(t, factor);
        let back = t.zoom_in(factor).zoom_out(factor);
        assert(v.zoom_in_times(factor, n).zoom_out_times(factor, n) == back.zoom_out_times(
            factor,
            m,
        ));
        lemma_zoom_out_times_close(back, t, factor, m);
    }
}

/// The visible ranges shrink as the scale grows: at scale 1 they are the
/// whole globe, and they are never negative nor wider than the globe.
pub proof fn lemma_visible_ranges_bounded(v: ViewportModel)
    requires
        v.wf(),
    ensures
        0 <= v.lat_range() <= 180 * MICRO,
        0 <= v.lon_range() <= 360 * MICRO,
        v.scale == SCALE_MIN ==> v.lat_range() == 180 * MICRO && v.lon_range() == 360 * MICRO,
        v.lon_range() >= 2 * v.lat_range(),
{
    let u = MICRO as int;
    let lat = 180 * u * u;
    let lon = 360 * u * u;
    lemma_div_bounds(lat, v.scale);
    lemma_div_bounds(lon, v.scale);
    assert(v.lat_range() == lat / v.scale);
    assert(v.lon_range() == lon / v.scale);
    assert(0 <= lat / v.scale <= 180 * u) by (nonlinear_arith)
        requires
            (lat / v.scale) * v.scale <= lat < (lat / v.scale) * v.scale + v.scale,
            lat == 180 * u * u,
            v.scale >= u,
            u == 1_000_000,
    ;
    assert(0 <= lon / v.scale <= 360 * u) by (nonlinear_arith)
        requires
            (lon / v.scale) * v.scale <= lon < (lon / v.scale) * v.scale + v.scale,
            lon == 360 * u * u,
            v.scale >= u,
            u == 1_000_000,
    ;
    if v.scale == SCALE_MIN {
        lemma_div_between(lat, u, 180 * u);
        lemma_div_between(lon, u, 360 * u);
    }
    assert(lon / v.scale >= 2 * (lat / v.scale)) by (nonlinear_arith)
        requires
            (lat / v.scale) * v.scale <= lat,
            lon < (lon / v.scale) * v.scale + v.scale,
            lon == 2 * lat,
            v.scale > 0,
    ;
}

} // verus!
