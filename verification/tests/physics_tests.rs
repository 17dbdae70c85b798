use renderer::engines::areas::boxes::NonRotatingBox;
use renderer::engines::bodies::enemies::BasicEnemy;
use renderer::engines::universes::D2Basic;
use renderer::matrix::Vector;
use renderer::physics::existence::Body;
use renderer::physics::fundamental::{Area, AreaIntersection, Combineable, Comparable, ObservableSpace,
    Universe};
use renderer::physics::position::Position;
use renderer::physics::units::mass::Kilograms;
use renderer::physics::units::space::{meters, meters2, meters3, Meters, Meters2};
use renderer::physics::units::time::Seconds;

#[test]
fn unit_constructors_carry_their_values() {
    assert_eq!(meters(5).0, 5);
    let m2 = meters2(3, 4);
    assert_eq!(m2.x.0, 3);
    assert_eq!(m2.y.0, 4);
    let m3 = meters3(1, 2, 3);
    assert_eq!(m3.x.0, 1);
    assert_eq!(m3.y.0, 2);
    assert_eq!(m3.z.0, 3);
    assert_eq!(Kilograms::new(70).0, 70);
    assert_eq!(Seconds::new(9i64).0, 9);
}

#[test]
fn meters_combine_exactly() {
    assert_eq!(meters(3).plus(meters(4)), meters(7));
    assert_eq!(meters(3).minus(meters(4)), meters(-1));
    assert_eq!(meters(3).times(meters(4)), meters(12));
    assert_eq!(meters(12).over(meters(4)), meters(3));
    assert!(meters(3).le(&meters(4)));
    assert!(!meters(5).le(&meters(4)));
}

#[test]
fn meters2_components_project_each_axis() {
    let m = meters2(3, 4);
    let comps = m.components();
    assert_eq!(comps[0], meters2(3, 0));
    assert_eq!(comps[1], meters2(0, 4));
    let rebuilt = Meters2::new(&[Meters(3), Meters(4)]);
    assert_eq!(rebuilt, m);
}

#[test]
fn box_width_and_height_come_from_the_diagonal() {
    let b = NonRotatingBox { ltop: meters2(1, 2), rbottom: meters2(5, 9) };
    assert_eq!(b.width(), meters2(4, 0));
    assert_eq!(b.height(), meters2(0, 7));
}

#[test]
fn box_area_sums_the_cross_products() {
    // The cross products of orthogonal component vectors vanish
    // coordinate by coordinate, so the accumulated extent is zero.
    let b = NonRotatingBox { ltop: meters2(0, 0), rbottom: meters2(3, 4) };
    assert_eq!(b.amount_of_space(), meters2(0, 0));
    let c = NonRotatingBox { ltop: meters2(1, 1), rbottom: meters2(4, 4) };
    assert_eq!(c.amount_of_space(), meters2(0, 0));
}

#[test]
fn box_intersection_compares_corners_by_signed_area() {
    // Component vectors always have one zero coordinate, so the
    // signed-area ordering ties everywhere and the overlap test never
    // finds a strictly larger corner: the intersection degenerates to
    // the own top-left corner.
    let a = NonRotatingBox { ltop: meters2(0, 0), rbottom: meters2(4, 4) };
    let b = NonRotatingBox { ltop: meters2(2, 1), rbottom: meters2(6, 3) };
    let i = a.area_intersection(&b);
    assert_eq!(i.ltop, meters2(0, 0));
    assert_eq!(i.rbottom, meters2(0, 0));
}

#[test]
fn disjoint_boxes_intersect_degenerately() {
    let a = NonRotatingBox { ltop: meters2(0, 0), rbottom: meters2(1, 1) };
    let b = NonRotatingBox { ltop: meters2(5, 5), rbottom: meters2(6, 6) };
    let i = a.area_intersection(&b);
    assert_eq!(i.ltop, meters2(0, 0));
    assert_eq!(i.rbottom, meters2(0, 0));
}

#[test]
fn direction_subtracts_coordinates() {
    let from = Position { coords: Vector::vector([1i64, 2, 3]) };
    let to = Position { coords: Vector::vector([5i64, 5, 5]) };
    let d = from.direction(&to);
    assert_eq!(*d.value_at(0, 0), 4);
    assert_eq!(*d.value_at(1, 0), 3);
    assert_eq!(*d.value_at(2, 0), 2);
}

#[test]
fn side_scroller_universe_tells_the_time() {
    let u = D2Basic { abs_time: Seconds::new(12i64) };
    assert_eq!(u.time().0, 12);
}

#[test]
fn basic_enemy_reports_its_body() {
    let e: BasicEnemy<2, D2Basic> = BasicEnemy {
        position: meters2(1, 1),
        bounding_box: NonRotatingBox { ltop: meters2(0, 0), rbottom: meters2(2, 2) },
    };
    assert_eq!(e.position(), meters2(1, 1));
    assert_eq!(e.mass(), Kilograms::new(5));
    let boundary = e.boundary();
    assert_eq!(boundary.ltop, meters2(0, 0));
    assert_eq!(boundary.rbottom, meters2(2, 2));
}
