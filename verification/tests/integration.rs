use movement_core::position::integrate;
use movement_core::position::Coord;
use movement_core::position::Position;
use movement_core::timestep::FixedTimestep;
use movement_core::velocity::resolve_velocity;
use movement_core::velocity::Velocity;

#[test]
fn zero_velocity_leaves_position_unchanged() {
    let mut p = Position {
        x: Coord { units: 17, diag_units: -4 },
        y: Coord { units: -9, diag_units: 2 },
    };
    let before = p;
    let v = Velocity::zero();
    for _ in 0..100 {
        integrate(&mut p, &v);
    }
    assert_eq!(p, before);
}

#[test]
fn constant_velocity_advances_linearly() {
    // Moving right at 300 units/s, one tick adds 300 tick-scaled units to x.
    let mut p = Position::origin();
    let v = resolve_velocity(true, false, false, false, 300);
    for _ in 0..60 {
        integrate(&mut p, &v);
    }
    assert_eq!(p.x, Coord { units: 60 * 300, diag_units: 0 });
    assert_eq!(p.y, Coord { units: 0, diag_units: 0 });
}

#[test]
fn diagonal_velocity_advances_on_the_diagonal_lattice() {
    // Right+Down at 300 units/s: each tick adds 300 to the sqrt(2)/2
    // coefficient of x and -300 to that of y; the axis coefficients rest.
    let mut p = Position::origin();
    let v = resolve_velocity(true, false, false, true, 300);
    for _ in 0..10 {
        integrate(&mut p, &v);
    }
    assert_eq!(p.x, Coord { units: 0, diag_units: 3000 });
    assert_eq!(p.y, Coord { units: 0, diag_units: -3000 });
}

#[test]
fn per_second_displacement_is_rate_independent() {
    // One second at 60 ticks/s against one second at 30 ticks/s. A
    // coordinate written under rate r denotes (units + diag_units*sqrt(2)/2)/r
    // world units, so the two runs agree exactly when the cross-multiplied
    // integer parts agree.
    let v = resolve_velocity(true, false, true, false, 300);
    let mut pa = Position::origin();
    for _ in 0..60 {
        integrate(&mut pa, &v);
    }
    let mut pb = Position::origin();
    for _ in 0..30 {
        integrate(&mut pb, &v);
    }
    let (rate_a, rate_b) = (60i64, 30i64);
    assert_eq!(pa.x.units * rate_b, pb.x.units * rate_a);
    assert_eq!(pa.x.diag_units * rate_b, pb.x.diag_units * rate_a);
    assert_eq!(pa.y.units * rate_b, pb.y.units * rate_a);
    assert_eq!(pa.y.diag_units * rate_b, pb.y.diag_units * rate_a);
    // In floating point: both runs moved sqrt(2)/2 * 300 units per axis.
    let wa = (pa.x.diag_units as f64) * 2f64.sqrt() / 2.0 / (rate_a as f64);
    let wb = (pb.x.diag_units as f64) * 2f64.sqrt() / 2.0 / (rate_b as f64);
    assert!((wa - wb).abs() < 1e-9);
    assert!((wa - 300.0 * 2f64.sqrt() / 2.0).abs() < 1e-9);
}

#[test]
fn accumulator_owes_one_tick_per_tick_duration() {
    let mut t = FixedTimestep::new(60);
    // 16,666,666 ns is just under one 60 Hz tick.
    assert_eq!(t.advance(16_666_666), 0);
    // One more microsecond pushes it over: the accumulator holds
    // 999,999,960 + 60,000 rate-scaled nanoseconds, one tick and 59,960 over.
    assert_eq!(t.advance(1_000), 1);
    assert_eq!(t.carry, 59_960);
}

#[test]
fn accumulator_drains_exactly_rate_ticks_per_second() {
    let mut t = FixedTimestep::new(60);
    assert_eq!(t.advance(1_000_000_000), 60);
    assert_eq!(t.carry, 0);
    let mut t = FixedTimestep::new(30);
    assert_eq!(t.advance(1_000_000_000), 30);
    assert_eq!(t.carry, 0);
}

#[test]
fn accumulator_is_frame_split_independent() {
    let mut split = FixedTimestep::new(60);
    let mut whole = FixedTimestep::new(60);
    let mut split_ticks = 0u64;
    for elapsed in [7_000_000u64, 9_500_000, 16_666_666, 123, 33_333_334] {
        split_ticks += split.advance(elapsed);
    }
    let whole_ticks = whole.advance(7_000_000 + 9_500_000 + 16_666_666 + 123 + 33_333_334);
    assert_eq!(split_ticks, whole_ticks);
    assert_eq!(split.carry, whole.carry);
}

#[test]
fn short_frame_owes_no_tick_and_loses_no_time() {
    let mut t = FixedTimestep::new(60);
    assert_eq!(t.advance(1_000_000), 0);
    assert_eq!(t.carry, 60_000_000);
    assert_eq!(t.rate, 60);
}
