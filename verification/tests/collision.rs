use platformer_core::collision::{
    check_for_collisions, collide_v2, Collider, Collision, CollisionConfig,
};
use platformer_core::common::{apply_gravity, apply_velocity, Gravity, Velocity};
use platformer_core::geom::Vec2i;

#[test]
fn non_overlapping_pairs_resolve_to_none() {
    let a = Vec2i::new(0, 0);
    let size = Vec2i::new(4, 4);
    assert_eq!(collide_v2(a, size, Vec2i::new(100, 0), size), None);
    assert_eq!(collide_v2(a, size, Vec2i::new(0, -100), size), None);
}

#[test]
fn exactly_touching_rectangles_do_not_collide() {
    // Edges meet at x = 2 with zero-width overlap: strictly non-colliding.
    let size = Vec2i::new(4, 4);
    assert_eq!(collide_v2(Vec2i::new(0, 0), size, Vec2i::new(4, 0), size), None);
    assert_eq!(collide_v2(Vec2i::new(0, 0), size, Vec2i::new(0, 4), size), None);
}

#[test]
fn left_contact_with_exact_depth() {
    // a spans x in [-2, 2], b spans [1, 5]: a reaches in from the left by 1.
    let size = Vec2i::new(4, 4);
    let r = collide_v2(Vec2i::new(0, 0), size, Vec2i::new(3, 0), size);
    assert_eq!(r, Some((Collision::Left, -1)));
}

#[test]
fn right_contact_with_exact_depth() {
    let size = Vec2i::new(4, 4);
    let r = collide_v2(Vec2i::new(0, 0), size, Vec2i::new(-3, 0), size);
    assert_eq!(r, Some((Collision::Right, -1)));
}

#[test]
fn top_contact_with_exact_depth() {
    // a sits on top of b, reaching 1 unit into b's top edge.
    let size = Vec2i::new(4, 4);
    let r = collide_v2(Vec2i::new(0, 0), size, Vec2i::new(0, -3), size);
    assert_eq!(r, Some((Collision::Top, -1)));
}

#[test]
fn bottom_contact_with_exact_depth() {
    let size = Vec2i::new(4, 4);
    let r = collide_v2(Vec2i::new(0, 0), size, Vec2i::new(0, 3), size);
    assert_eq!(r, Some((Collision::Bottom, -1)));
}

#[test]
fn tie_break_picks_axis_with_smaller_depth() {
    let a_size = Vec2i::new(4, 4);
    let b_size = Vec2i::new(8, 8);
    // b spans [-4,4]x[-8,0]; a at (3,1) spans [1,5]x[-1,3]: Right on x with
    // depth 1-4 = -3, Top on y with depth -1-0 = -1. |y| < |x|: Top wins.
    let r = collide_v2(Vec2i::new(3, 1), a_size, Vec2i::new(0, -4), b_size);
    assert_eq!(r, Some((Collision::Top, -1)));
    // Mirrored: b spans [-8,0]x[-4,4]; a at (1,3) spans [-1,3]x[1,5]: Right
    // on x with depth -1-0 = -1, Top on y with depth 1-4 = -3: Right wins.
    let r2 = collide_v2(Vec2i::new(1, 3), a_size, Vec2i::new(-4, 0), b_size);
    assert_eq!(r2, Some((Collision::Right, -1)));
}

#[test]
fn deep_containment_is_inside() {
    // a fully inside b: neither axis discriminates a side.
    let r = collide_v2(Vec2i::new(0, 0), Vec2i::new(2, 2), Vec2i::new(0, 0), Vec2i::new(10, 10));
    assert_eq!(r, Some((Collision::Inside, 0)));
}

#[test]
fn left_depth_is_negative_gap_closing_distance() {
    // a spans [-2,2], b starts at 1: moving a by the depth (-1) puts a's
    // right edge exactly on b's left edge, just closing the contact.
    let size = Vec2i::new(4, 4);
    let r = collide_v2(Vec2i::new(0, 0), size, Vec2i::new(3, 0), size);
    let (side, depth) = r.unwrap();
    assert_eq!(side, Collision::Left);
    assert!(depth < 0);
    let shifted = collide_v2(Vec2i::new(0 + depth, 0), size, Vec2i::new(3, 0), size);
    assert_eq!(shifted, None);
}

#[test]
fn resolver_is_pure() {
    let a = Vec2i::new(1, 2);
    let asz = Vec2i::new(6, 8);
    let b = Vec2i::new(3, -1);
    let bsz = Vec2i::new(10, 4);
    assert_eq!(collide_v2(a, asz, b, bsz), collide_v2(a, asz, b, bsz));
}

#[test]
fn current_pass_zeroes_inward_velocity() {
    // The player's inflated rectangle overlaps the obstacle from the left
    // while moving right: the horizontal velocity is zeroed, one event fires.
    let mut velocity = Velocity::new(5, 0);
    let mut position = Vec2i::new(0, 0);
    let collider = Collider::Quad(Vec2i::new(4, 4));
    let obstacles = vec![(Vec2i::new(3, 0), Collider::Quad(Vec2i::new(4, 4)))];
    let cfg = CollisionConfig::new(0, 1, 0);
    let events = check_for_collisions(&mut velocity, &mut position, &collider, &obstacles, &cfg);
    assert_eq!(velocity, Velocity::new(0, 0));
    assert_eq!(position, Vec2i::new(0, 0));
    // Once in the current pass; the projected pass sees the zeroed velocity
    // and still-overlapping rectangles, so it reports the contact again.
    assert_eq!(events.len(), 2);
}

#[test]
fn outward_velocity_is_kept() {
    // Overlap from the left but moving away: nothing is zeroed.
    let mut velocity = Velocity::new(-5, 0);
    let mut position = Vec2i::new(0, 0);
    let collider = Collider::Quad(Vec2i::new(4, 4));
    let obstacles = vec![(Vec2i::new(3, 0), Collider::Quad(Vec2i::new(4, 4)))];
    let cfg = CollisionConfig::new(0, 1, 0);
    check_for_collisions(&mut velocity, &mut position, &collider, &obstacles, &cfg);
    assert_eq!(velocity, Velocity::new(-5, 0));
    assert_eq!(position, Vec2i::new(0, 0));
}

#[test]
fn projected_landing_zeroes_fall_and_snaps_position() {
    // Falling player, clear of the obstacle now, but one velocity step ahead
    // its bottom edge reaches 11 units into the obstacle's top: the fall is
    // zeroed and the position corrected upward by the signed depth.
    let mut velocity = Velocity::new(0, -14);
    let mut position = Vec2i::new(0, -2);
    let collider = Collider::Quad(Vec2i::new(22, 26));
    let cfg = CollisionConfig::new(4, 1, 0);
    // Inflated player extent is (26, 30): half-height 15.
    let obstacles = vec![(Vec2i::new(0, -30), Collider::Quad(Vec2i::new(200, 20)))];
    let events = check_for_collisions(&mut velocity, &mut position, &collider, &obstacles, &cfg);
    // Probe center y = -16, bottom edge -31, obstacle top -20: depth -11.
    assert_eq!(velocity, Velocity::new(0, 0));
    assert_eq!(position, Vec2i::new(0, 9));
    assert_eq!(events.len(), 1);
}

#[test]
fn shallow_projected_landing_only_zeroes_velocity() {
    // Depth within tolerance + dead-zone: the fall is zeroed but the
    // position is left alone.
    let mut velocity = Velocity::new(0, -2);
    let mut position = Vec2i::new(0, -4);
    let collider = Collider::Quad(Vec2i::new(22, 26));
    let cfg = CollisionConfig::new(4, 1, 0);
    let obstacles = vec![(Vec2i::new(0, -30), Collider::Quad(Vec2i::new(200, 20)))];
    check_for_collisions(&mut velocity, &mut position, &collider, &obstacles, &cfg);
    // Probe bottom edge -21, obstacle top -20: depth -1, not below -(1+0).
    assert_eq!(velocity, Velocity::new(0, 0));
    assert_eq!(position, Vec2i::new(0, -4));
}

#[test]
fn no_sinking_over_100_ticks_of_constant_fall() {
    // End-to-end: a (22,26) player falls onto a wide static obstacle under
    // constant gravity; across 100 ticks its center never drops below the
    // resting height where its inflated bottom edge touches the obstacle top.
    let collider = Collider::Quad(Vec2i::new(22, 26));
    let cfg = CollisionConfig::new(4, 1, 0);
    let obstacles = vec![(Vec2i::new(0, -30), Collider::Quad(Vec2i::new(200, 20)))];
    let gravity = Gravity(2);
    let mut velocity = Velocity::new(0, 0);
    let mut position = Vec2i::new(0, 40);
    // Obstacle top -20, inflated half-height 15: resting center height -5.
    let resting_y: i64 = -5;
    let mut landed = false;
    for _ in 0..100 {
        apply_gravity(&mut velocity, &gravity, 1);
        let events =
            check_for_collisions(&mut velocity, &mut position, &collider, &obstacles, &cfg);
        apply_velocity(&mut position, &velocity);
        if !events.is_empty() {
            landed = true;
        }
        assert!(position.y >= resting_y, "sank to {}", position.y);
        assert!(position.x == 0);
        if landed {
            // Once in contact the player stays near the surface instead of
            // accumulating fall speed.
            assert!(position.y <= 40, "bounced to {}", position.y);
            assert!(velocity.y <= 0);
        }
    }
    assert!(landed);
}
