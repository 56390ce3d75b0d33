use pong::geometry::Rectangle;
use pong::physics::{EdgeBehavior, PhysicsBody, WORLD_HEIGHT, WORLD_WIDTH};

fn body(vx: i64, vy: i64, edge_behavior: EdgeBehavior) -> PhysicsBody {
    PhysicsBody { vx, vy, edge_behavior }
}

#[test]
fn world_is_six_hundred_by_four_hundred() {
    assert_eq!(WORLD_WIDTH, 600_000);
    assert_eq!(WORLD_HEIGHT, 400_000);
}

#[test]
fn new_body_rests_and_is_constrained() {
    let b = PhysicsBody::new();
    assert_eq!(b.vx, 0);
    assert_eq!(b.vy, 0);
    assert_eq!(b.edge_behavior, EdgeBehavior::Constrain);
}

#[test]
fn apply_moves_by_the_velocity_inside_the_world() {
    for behavior in [
        EdgeBehavior::Wrap,
        EdgeBehavior::Bounce,
        EdgeBehavior::Constrain,
        EdgeBehavior::VerticalConstrain,
        EdgeBehavior::VerticalBounce,
    ] {
        let mut b = body(3_000, -2_000, behavior);
        let mut r = Rectangle::new(100_000, 100_000, 16_000, 16_000);
        b.apply(&mut r);
        assert_eq!(r, Rectangle::new(103_000, 98_000, 16_000, 16_000));
        assert_eq!(b, body(3_000, -2_000, behavior));
    }
}

#[test]
fn constrain_holds_all_four_sides() {
    let mut b = body(50_000, 50_000, EdgeBehavior::Constrain);
    let mut r = Rectangle::new(580_000, 380_000, 16_000, 64_000);
    b.apply(&mut r);
    assert_eq!((r.x, r.y), (584_000, 336_000));
    assert_eq!((b.vx, b.vy), (50_000, 50_000));

    let mut b = body(-50_000, -50_000, EdgeBehavior::Constrain);
    let mut r = Rectangle::new(10_000, 10_000, 16_000, 64_000);
    b.apply(&mut r);
    assert_eq!((r.x, r.y), (0, 0));
    assert_eq!((b.vx, b.vy), (-50_000, -50_000));
}

#[test]
fn constrain_holds_whatever_the_velocity() {
    for v in [i64::MIN, -1_000_000_000, -1, 0, 1, 1_000_000_000, i64::MAX] {
        for behavior in [EdgeBehavior::Constrain, EdgeBehavior::VerticalConstrain] {
            let mut b = body(0, v, behavior);
            let mut r = Rectangle::new(50_000, 200_000, 16_000, 64_000);
            b.apply(&mut r);
            assert!(0 <= r.y && r.y + r.height <= WORLD_HEIGHT);
            assert_eq!(b.vy, v);
        }
        let mut b = body(v, v, EdgeBehavior::Constrain);
        let mut r = Rectangle::new(50_000, 200_000, 16_000, 64_000);
        b.apply(&mut r);
        assert!(0 <= r.x && r.x + r.width <= WORLD_WIDTH);
        assert!(0 <= r.y && r.y + r.height <= WORLD_HEIGHT);
    }
}

#[test]
fn constrain_allows_touching_the_edge() {
    let mut b = body(4_000, 0, EdgeBehavior::Constrain);
    let mut r = Rectangle::new(580_000, 0, 16_000, 16_000);
    b.apply(&mut r);
    assert_eq!(r.x, 584_000);
    b.apply(&mut r);
    assert_eq!(r.x, 584_000);
}

#[test]
fn constrain_puts_an_oversized_rectangle_at_zero() {
    let mut b = body(0, 0, EdgeBehavior::Constrain);
    let mut r = Rectangle::new(10_000, 10_000, 700_000, 500_000);
    b.apply(&mut r);
    assert_eq!((r.x, r.y), (0, 0));
}

#[test]
fn vertical_constrain_leaves_the_horizontal_axis_free() {
    let mut b = body(50_000, 50_000, EdgeBehavior::VerticalConstrain);
    let mut r = Rectangle::new(580_000, 380_000, 16_000, 64_000);
    b.apply(&mut r);
    assert_eq!((r.x, r.y), (630_000, 336_000));
    assert_eq!((b.vx, b.vy), (50_000, 50_000));

    let mut b = body(-50_000, -50_000, EdgeBehavior::VerticalConstrain);
    let mut r = Rectangle::new(10_000, 10_000, 16_000, 64_000);
    b.apply(&mut r);
    assert_eq!((r.x, r.y), (-40_000, 0));
}

#[test]
fn bounce_turns_the_velocity_on_the_corrected_axis() {
    let mut b = body(5_000, 2_000, EdgeBehavior::Bounce);
    let mut r = Rectangle::new(582_000, 100_000, 16_000, 16_000);
    b.apply(&mut r);
    assert_eq!((r.x, r.y), (584_000, 102_000));
    assert_eq!((b.vx, b.vy), (-5_000, 2_000));

    let mut b = body(-5_000, -2_000, EdgeBehavior::Bounce);
    let mut r = Rectangle::new(100_000, 1_000, 16_000, 16_000);
    b.apply(&mut r);
    assert_eq!((r.x, r.y), (95_000, 0));
    assert_eq!((b.vx, b.vy), (-5_000, 2_000));

    let mut b = body(-5_000, 7_000, EdgeBehavior::Bounce);
    let mut r = Rectangle::new(1_000, 380_000, 16_000, 16_000);
    b.apply(&mut r);
    assert_eq!((r.x, r.y), (0, 384_000));
    assert_eq!((b.vx, b.vy), (5_000, -7_000));
}

#[test]
fn bounce_of_an_oversized_rectangle_turns_twice() {
    let mut b = body(5_000, 0, EdgeBehavior::Bounce);
    let mut r = Rectangle::new(0, 0, 700_000, 16_000);
    b.apply(&mut r);
    assert_eq!(r.x, 0);
    assert_eq!(b.vx, 5_000);
}

#[test]
fn bounce_of_the_lowest_velocity_is_pinned() {
    let mut b = body(0, i64::MIN, EdgeBehavior::VerticalBounce);
    let mut r = Rectangle::new(0, 0, 16_000, 16_000);
    b.apply(&mut r);
    assert_eq!(r.y, 0);
    assert_eq!(b.vy, i64::MAX);
}

#[test]
fn vertical_bounce_lets_the_sides_pass() {
    let mut b = body(5_000, 5_000, EdgeBehavior::VerticalBounce);
    let mut r = Rectangle::new(598_000, 383_000, 16_000, 16_000);
    b.apply(&mut r);
    assert_eq!((r.x, r.y), (603_000, 384_000));
    assert_eq!((b.vx, b.vy), (5_000, -5_000));

    let mut b = body(-5_000, -5_000, EdgeBehavior::VerticalBounce);
    let mut r = Rectangle::new(-14_000, 2_000, 16_000, 16_000);
    b.apply(&mut r);
    assert_eq!((r.x, r.y), (-19_000, 0));
    assert_eq!((b.vx, b.vy), (-5_000, 5_000));
}

#[test]
fn wrap_snaps_to_the_opposite_side() {
    let mut b = body(1, 1, EdgeBehavior::Wrap);
    let mut r = Rectangle::new(600_000, 400_000, 16_000, 16_000);
    b.apply(&mut r);
    assert_eq!((r.x, r.y), (0, 0));
    assert_eq!((b.vx, b.vy), (1, 1));

    let mut b = body(-1, -1, EdgeBehavior::Wrap);
    let mut r = Rectangle::new(0, 0, 16_000, 16_000);
    b.apply(&mut r);
    assert_eq!((r.x, r.y), (600_000, 400_000));
    assert_eq!((b.vx, b.vy), (-1, -1));
}

#[test]
fn wrap_leaves_a_rectangle_on_the_bound_alone() {
    let mut b = body(0, 0, EdgeBehavior::Wrap);
    let mut r = Rectangle::new(600_000, 0, 16_000, 16_000);
    b.apply(&mut r);
    assert_eq!((r.x, r.y), (600_000, 0));
}

#[test]
fn wrap_round_trip_by_own_extent() {
    let mut b = body(16_000, 64_000, EdgeBehavior::Wrap);
    let mut r = Rectangle::new(600_000, 400_000, 16_000, 64_000);
    b.apply(&mut r);
    assert_eq!((r.x, r.y), (0, 0));
    assert_eq!((b.vx, b.vy), (16_000, 64_000));
    b.vx = -16_000;
    b.vy = -64_000;
    b.apply(&mut r);
    assert_eq!((r.x, r.y), (600_000, 400_000));
    assert_eq!((b.vx, b.vy), (-16_000, -64_000));
}
