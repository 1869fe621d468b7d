use radarnix::viewport::{
    BoundingBox, Direction, GeoViewport, DEFAULT_FACTOR, DEFAULT_LAT, DEFAULT_LON, DEFAULT_STEP,
    LAT_LIMIT, LON_LIMIT, SCALE_MAX, SCALE_MIN,
};

#[test]
fn default_viewport_is_centred_on_the_reference_airport() {
    let v = GeoViewport::new();
    assert_eq!(v.center_lat(), 51_468_000);
    assert_eq!(v.center_lon(), -455_060);
    assert_eq!(v.scale(), 1_000_000);
    let d = GeoViewport::default();
    assert_eq!(d.center_lat(), DEFAULT_LAT);
    assert_eq!(d.center_lon(), DEFAULT_LON);
    assert_eq!(d.scale(), SCALE_MIN);
}

#[test]
fn five_pans_north_then_on_to_the_pole() {
    let mut v = GeoViewport::new();
    for _ in 0..5 {
        v.pan(Direction::North, 5_000_000);
    }
    assert_eq!(v.center_lat(), 76_468_000);
    assert_eq!(v.center_lon(), -455_060);
    v.pan(Direction::North, 5_000_000);
    assert_eq!(v.center_lat(), 81_468_000);
    v.pan(Direction::North, 5_000_000);
    assert_eq!(v.center_lat(), 86_468_000);
    v.pan(Direction::North, 5_000_000);
    assert_eq!(v.center_lat(), 90_000_000);
    v.pan(Direction::North, 5_000_000);
    assert_eq!(v.center_lat(), 90_000_000);
    assert_eq!(v.scale(), 1_000_000);
}

#[test]
fn a_pan_that_passes_the_pole_clamps() {
    let mut v = GeoViewport::new();
    for _ in 0..5 {
        v.pan(Direction::North, 5_000_000);
    }
    assert_eq!(v.center_lat(), 76_468_000);
    v.pan(Direction::North, 15_000_000);
    assert_eq!(v.center_lat(), 90_000_000);
}

#[test]
fn pan_moves_each_direction_by_the_step() {
    let mut v = GeoViewport::new();
    v.pan(Direction::South, DEFAULT_STEP);
    assert_eq!(v.center_lat(), 46_468_000);
    v.pan(Direction::East, DEFAULT_STEP);
    assert_eq!(v.center_lon(), 4_544_940);
    v.pan(Direction::West, DEFAULT_STEP);
    v.pan(Direction::West, DEFAULT_STEP);
    assert_eq!(v.center_lon(), -5_455_060);
    assert_eq!(v.center_lat(), 46_468_000);
}

#[test]
fn pan_clamps_at_every_edge_of_the_globe() {
    let mut v = GeoViewport::new();
    v.pan(Direction::South, 200_000_000);
    assert_eq!(v.center_lat(), -LAT_LIMIT);
    v.pan(Direction::South, 1);
    assert_eq!(v.center_lat(), -90_000_000);
    v.pan(Direction::East, 179_000_000);
    assert_eq!(v.center_lon(), 178_544_940);
    v.pan(Direction::East, 5_000_000);
    assert_eq!(v.center_lon(), LON_LIMIT);
    v.pan(Direction::East, 5_000_000);
    assert_eq!(v.center_lon(), 180_000_000);
    v.pan(Direction::West, i64::MAX);
    assert_eq!(v.center_lon(), -180_000_000);
    v.pan(Direction::West, 5_000_000);
    assert_eq!(v.center_lon(), -180_000_000);
}

#[test]
fn pan_takes_the_largest_and_smallest_steps() {
    let mut v = GeoViewport::new();
    v.pan(Direction::North, i64::MAX);
    assert_eq!(v.center_lat(), 90_000_000);
    v.pan(Direction::North, i64::MIN);
    assert_eq!(v.center_lat(), -90_000_000);
    v.pan(Direction::South, i64::MIN);
    assert_eq!(v.center_lat(), 90_000_000);
    v.pan(Direction::South, -1);
    assert_eq!(v.center_lat(), 90_000_000);
    v.pan(Direction::North, -10_000_000);
    assert_eq!(v.center_lat(), 80_000_000);
}

#[test]
fn pan_does_not_depend_on_the_scale() {
    let mut v = GeoViewport::new();
    v.zoom_in(50_000_000);
    assert_eq!(v.scale(), 50_000_000);
    v.pan(Direction::North, DEFAULT_STEP);
    assert_eq!(v.center_lat(), 56_468_000);
    assert_eq!(v.scale(), 50_000_000);
}

#[test]
fn zoom_in_multiplies_and_zoom_out_divides() {
    let mut v = GeoViewport::new();
    v.zoom_in(DEFAULT_FACTOR);
    assert_eq!(v.scale(), 1_100_000);
    v.zoom_in(DEFAULT_FACTOR);
    assert_eq!(v.scale(), 1_210_000);
    v.zoom_out(DEFAULT_FACTOR);
    assert_eq!(v.scale(), 1_100_000);
    v.zoom_out(2_000_000);
    assert_eq!(v.scale(), 1_000_000);
    v.zoom_in(2_500_000);
    assert_eq!(v.scale(), 2_500_000);
    v.zoom_out(3_000_000);
    assert_eq!(v.scale(), 1_000_000);
    v.zoom_in(7_000_000);
    v.zoom_out(3_000_000);
    assert_eq!(v.scale(), 2_333_333);
    assert_eq!(v.center_lat(), DEFAULT_LAT);
    assert_eq!(v.center_lon(), DEFAULT_LON);
}

#[test]
fn zoom_clamps_at_both_limits() {
    let mut v = GeoViewport::new();
    v.zoom_out(DEFAULT_FACTOR);
    assert_eq!(v.scale(), SCALE_MIN);
    for _ in 0..48 {
        v.zoom_in(DEFAULT_FACTOR);
    }
    assert!(v.scale() < SCALE_MAX);
    assert!(v.scale() > 90_000_000);
    v.zoom_in(DEFAULT_FACTOR);
    assert_eq!(v.scale(), 100_000_000);
    v.zoom_in(DEFAULT_FACTOR);
    assert_eq!(v.scale(), 100_000_000);
    v.zoom_in(i64::MAX);
    assert_eq!(v.scale(), 100_000_000);
    v.zoom_out(i64::MAX);
    assert_eq!(v.scale(), 1_000_000);
}

#[test]
fn zoom_by_zero_or_a_negative_factor_goes_to_a_limit() {
    let mut v = GeoViewport::new();
    v.zoom_in(5_000_000);
    v.zoom_in(0);
    assert_eq!(v.scale(), 1_000_000);
    v.zoom_in(5_000_000);
    v.zoom_in(-3_000_000);
    assert_eq!(v.scale(), 1_000_000);
    v.zoom_in(i64::MIN);
    assert_eq!(v.scale(), 1_000_000);
    v.zoom_out(0);
    assert_eq!(v.scale(), 100_000_000);
    v.zoom_out(-1);
    assert_eq!(v.scale(), 1_000_000);
    v.zoom_in(500_000);
    assert_eq!(v.scale(), 1_000_000);
    v.zoom_out(500_000);
    assert_eq!(v.scale(), 2_000_000);
}

#[test]
fn visible_bounds_are_the_globe_over_the_scale() {
    let mut v = GeoViewport::new();
    assert_eq!(v.visible_bounds(), (180_000_000, 360_000_000));
    v.zoom_in(2_000_000);
    assert_eq!(v.visible_bounds(), (90_000_000, 180_000_000));
    v.zoom_in(1_500_000);
    assert_eq!(v.scale(), 3_000_000);
    assert_eq!(v.visible_bounds(), (60_000_000, 120_000_000));
    v.zoom_in(DEFAULT_FACTOR);
    assert_eq!(v.scale(), 3_300_000);
    assert_eq!(v.visible_bounds(), (54_545_454, 109_090_909));
    v.zoom_in(100_000_000);
    assert_eq!(v.visible_bounds(), (1_800_000, 3_600_000));
}

#[test]
fn bounding_box_is_centred_on_the_centre() {
    let mut v = GeoViewport::new();
    assert_eq!(
        v.bounding_box(),
        BoundingBox {
            lon_min: -180_455_060,
            lon_max: 179_544_940,
            lat_min: -38_532_000,
            lat_max: 141_468_000,
        }
    );
    v.zoom_in(4_000_000);
    assert_eq!(
        v.bounding_box(),
        BoundingBox {
            lon_min: -45_455_060,
            lon_max: 44_544_940,
            lat_min: 28_968_000,
            lat_max: 73_968_000,
        }
    );
}

#[test]
fn zooming_in_then_out_returns_near_the_start() {
    for start in [1_000_000i64, 1_234_567, 3_333_333, 9_999_999] {
        for n in 1..=10i64 {
            let mut v = GeoViewport::new();
            v.zoom_in(start);
            assert_eq!(v.scale(), start);
            for _ in 0..n {
                v.zoom_in(DEFAULT_FACTOR);
            }
            assert!(v.scale() < SCALE_MAX);
            for _ in 0..n {
                v.zoom_out(DEFAULT_FACTOR);
            }
            assert!(v.scale() <= start);
            assert!(v.scale() >= start - n);
        }
    }
}

#[test]
fn zooming_in_then_out_at_the_clamp_does_not_return() {
    let mut v = GeoViewport::new();
    v.zoom_in(95_000_000);
    v.zoom_in(DEFAULT_FACTOR);
    assert_eq!(v.scale(), 100_000_000);
    v.zoom_out(DEFAULT_FACTOR);
    assert_eq!(v.scale(), 90_909_090);
}

#[test]
fn every_step_of_a_long_walk_stays_in_range() {
    let mut v = GeoViewport::new();
    let moves = [Direction::North, Direction::East, Direction::East, Direction::South,
        Direction::West, Direction::North, Direction::North];
    for round in 0..200usize {
        let d = moves[round % moves.len()];
        v.pan(d, 7_300_000);
        if round % 3 == 0 {
            v.zoom_in(1_700_000);
        } else if round % 7 == 0 {
            v.zoom_out(2_900_000);
        }
        assert!(v.center_lat() >= -90_000_000 && v.center_lat() <= 90_000_000);
        assert!(v.center_lon() >= -180_000_000 && v.center_lon() <= 180_000_000);
        assert!(v.scale() >= 1_000_000 && v.scale() <= 100_000_000);
        let (lat_range, lon_range) = v.visible_bounds();
        assert_eq!(lat_range, 180_000_000_000_000 / v.scale());
        assert_eq!(lon_range, 360_000_000_000_000 / v.scale());
    }
}
