use fluid_box::fixed::Fixed;
use fluid_box::random::{direction_from, in_disk, point_in_box, unit_direction, vec_within_disk};
use fluid_box::vec2::Vec2;

fn fx(x: f64) -> Fixed {
    Fixed::from_raw((x * 4294967296.0).round() as i64)
}

fn val(f: Fixed) -> f64 {
    f.raw() as f64 / 4294967296.0
}

#[test]
fn points_lie_in_the_box() {
    let extent = (fx(3.0), fx(0.5));
    for _ in 0..200 {
        let (x, y) = point_in_box(extent);
        assert!(-extent.0.raw() <= x.raw() && x.raw() < extent.0.raw());
        assert!(-extent.1.raw() <= y.raw() && y.raw() < extent.1.raw());
    }
}

#[test]
fn points_are_not_all_the_same() {
    let extent = (fx(3.0), fx(0.5));
    let first = point_in_box(extent);
    let mut differs = false;
    for _ in 0..50 {
        if point_in_box(extent) != first {
            differs = true;
        }
    }
    assert!(differs);
}

#[test]
fn points_fall_on_both_sides_of_the_centre() {
    let extent = (fx(1.0), fx(1.0));
    let mut left = false;
    let mut right = false;
    for _ in 0..200 {
        let (x, _) = point_in_box(extent);
        if x.raw() < 0 {
            left = true;
        } else {
            right = true;
        }
    }
    assert!(left && right);
}

#[test]
fn the_smallest_box_holds_two_points_along_each_axis() {
    let extent = (Fixed::from_raw(1), Fixed::from_raw(1));
    for _ in 0..20 {
        let (x, y) = point_in_box(extent);
        assert!(x.raw() == -1 || x.raw() == 0);
        assert!(y.raw() == -1 || y.raw() == 0);
    }
}

#[test]
fn the_disk_test_is_the_exact_comparison_of_squares() {
    let one = Fixed::one();
    assert!(in_disk(Vec2::zero(), one));
    assert!(in_disk(Vec2::new(fx(0.6), fx(0.7)), one));
    assert!(!in_disk(Vec2::new(fx(0.6), fx(0.8)), one));
    assert!(!in_disk(Vec2::new(one, Fixed::zero()), one));
    assert!(in_disk(Vec2::new(Fixed::from_raw(one.raw() - 1), Fixed::zero()), one));
    assert!(!in_disk(Vec2::new(fx(-0.9), fx(-0.9)), one));
    assert!(!in_disk(Vec2::zero(), Fixed::zero()));
}

#[test]
fn vectors_lie_within_the_disk() {
    let radius = fx(2.5);
    for _ in 0..200 {
        let v = vec_within_disk(radius);
        assert!(in_disk(v, radius));
        assert!(val(v.length()) < 2.5);
    }
}

#[test]
fn vectors_within_the_disk_are_not_all_the_same() {
    let first = vec_within_disk(Fixed::one());
    let mut differs = false;
    for _ in 0..50 {
        if vec_within_disk(Fixed::one()) != first {
            differs = true;
        }
    }
    assert!(differs);
}

#[test]
fn a_drawn_vector_becomes_a_direction() {
    assert_eq!(
        direction_from(Vec2::new(fx(0.375), fx(-0.5))),
        Vec2::new(Fixed::from_ratio(3, 5), Fixed::from_ratio(-4, 5))
    );
    assert_eq!(direction_from(Vec2::zero()), Vec2::x_axis());
    assert_eq!(direction_from(Vec2::new(fx(0.0), fx(-0.25))), Vec2::new(fx(0.0), fx(-1.0)));
}

#[test]
fn directions_have_length_one() {
    for _ in 0..200 {
        let d = unit_direction();
        assert!((val(d.length()) - 1.0).abs() < 1e-6);
        assert!(d.x.raw().abs() <= Fixed::one().raw());
        assert!(d.y.raw().abs() <= Fixed::one().raw());
    }
}

#[test]
fn directions_point_into_every_quadrant() {
    let mut seen = [false; 4];
    for _ in 0..400 {
        let d = unit_direction();
        let quadrant = (if d.x.raw() < 0 { 1 } else { 0 }) + (if d.y.raw() < 0 { 2 } else { 0 });
        seen[quadrant] = true;
    }
    assert!(seen[0] && seen[1] && seen[2] && seen[3]);
}
