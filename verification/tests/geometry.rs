use gameplay_core::components::world::{
    multi_ray_intersect_from_box, ray_intersect_aabb, ray_intersect_from, slab_ray_intersect_aabb,
    AabbCollider, Contact, EntityName, ThrewObject,
};
use gameplay_core::components::player::JumpAbility;
use gameplay_core::math::{floor_div, saturate_i32, scaled_quotient, Vec3};
use gameplay_core::systems::player::{update_jump_state_system, within_ray_length, Surface};

fn v(x: i32, y: i32, z: i32) -> Vec3 {
    Vec3::new(x, y, z)
}

#[test]
fn floor_div_rounds_down() {
    assert_eq!(floor_div(7, 2), 3);
    assert_eq!(floor_div(-7, 2), -4);
    assert_eq!(floor_div(-8, 2), -4);
    assert_eq!(floor_div(-1, 3), -1);
    assert_eq!(floor_div(0, 3), 0);
}

#[test]
fn scaled_quotient_handles_both_signs() {
    assert_eq!(scaled_quotient(4000, 3000), 1333);
    assert_eq!(scaled_quotient(-4000, 3000), -1334);
    assert_eq!(scaled_quotient(4000, -1000), -4000);
    assert_eq!(scaled_quotient(-4000, -3000), 1333);
}

#[test]
fn saturate_i32_stops_at_the_ends() {
    assert_eq!(saturate_i32(5), 5);
    assert_eq!(saturate_i32(i64::MAX), i32::MAX);
    assert_eq!(saturate_i32(i64::MIN), i32::MIN);
}

#[test]
fn vec3_constants() {
    assert_eq!(Vec3::zero(), v(0, 0, 0));
    assert_eq!(Vec3::neg_y(), v(0, -1000, 0));
}

#[test]
fn entity_name_keeps_its_text() {
    assert_eq!(EntityName::new("Box").0, "Box");
}

#[test]
fn ray_from_inside_hits_at_zero() {
    let hit = ray_intersect_aabb(v(100, -200, 300), v(1000, 0, 0), v(0, 0, 0), v(1000, 1000, 1000));
    assert_eq!(hit, Some(0));
    let hit = ray_intersect_aabb(v(100, -200, 300), v(0, 0, 0), v(0, 0, 0), v(1000, 1000, 1000));
    assert_eq!(hit, Some(0));
}

#[test]
fn ray_within_epsilon_hits_at_zero() {
    let hit = ray_intersect_aabb(v(0, 1001, 0), v(0, 1000, 0), v(0, 0, 0), v(1000, 1000, 1000));
    assert_eq!(hit, Some(0));
    let hit = ray_intersect_aabb(v(0, 1002, 0), v(0, 1000, 0), v(0, 0, 0), v(1000, 1000, 1000));
    assert_eq!(hit, None);
}

#[test]
fn ray_from_above_reports_the_gap() {
    let hit = ray_intersect_aabb(v(0, 5000, 0), Vec3::neg_y(), v(0, 0, 0), v(1000, 1000, 1000));
    assert_eq!(hit, Some(4000));
}

#[test]
fn ray_beside_the_box_misses() {
    let hit = ray_intersect_aabb(v(3000, 5000, 0), Vec3::neg_y(), v(0, 0, 0), v(1000, 1000, 1000));
    assert_eq!(hit, None);
}

#[test]
fn ray_pointing_away_misses() {
    let hit = ray_intersect_aabb(v(0, 5000, 0), v(0, 1000, 0), v(0, 0, 0), v(1000, 1000, 1000));
    assert_eq!(hit, None);
}

#[test]
fn ray_with_no_direction_outside_misses() {
    let hit = ray_intersect_aabb(v(0, 5000, 0), v(0, 0, 0), v(0, 0, 0), v(1000, 1000, 1000));
    assert_eq!(hit, None);
}

#[test]
fn diagonal_ray_enters_at_the_later_axis() {
    let hit =
        ray_intersect_aabb(v(-3000, 3000, 0), v(1000, -1000, 0), v(0, 0, 0), v(1000, 1000, 1000));
    assert_eq!(hit, Some(2000));
    let hit =
        ray_intersect_aabb(v(-3000, 6000, 0), v(1000, -1000, 0), v(0, 0, 0), v(1000, 1000, 1000));
    assert_eq!(hit, None);
}

#[test]
fn fast_ray_distance_is_rounded_down() {
    let hit = ray_intersect_aabb(v(0, 0, -5000), v(0, 0, 3000), v(0, 0, 0), v(1000, 1000, 1000));
    assert_eq!(hit, Some(1333));
}

#[test]
fn ray_from_wide_origin() {
    let hit = ray_intersect_from(
        3_000_000_000,
        0,
        0,
        v(-1000, 0, 0),
        v(2_000_000_000, 0, 0),
        v(1000, 1000, 1000),
    );
    assert_eq!(hit, Some(999_999_000));
}

#[test]
fn grid_finds_the_surface_below() {
    let hit = multi_ray_intersect_from_box(
        v(0, 1700, 0),
        v(500, 500, 500),
        v(0, 0, 0),
        v(50_000, 1000, 50_000),
        25,
        Vec3::neg_y(),
    );
    assert_eq!(hit, Some(200));
}

#[test]
fn grid_finds_a_partly_covered_surface() {
    let hit = multi_ray_intersect_from_box(
        v(1400, 1700, 0),
        v(500, 500, 500),
        v(0, 0, 0),
        v(1000, 1000, 1000),
        100,
        Vec3::neg_y(),
    );
    assert_eq!(hit, Some(200));
}

#[test]
fn grid_can_step_over_a_thin_surface() {
    let hit = multi_ray_intersect_from_box(
        v(0, 1700, 0),
        v(500, 500, 500),
        v(250, 0, 0),
        v(100, 1000, 100),
        1000,
        Vec3::neg_y(),
    );
    assert_eq!(hit, None);
}

#[test]
fn grid_misses_a_surface_apart() {
    let hit = multi_ray_intersect_from_box(
        v(5000, 1700, 0),
        v(500, 500, 500),
        v(0, 0, 0),
        v(1000, 1000, 1000),
        100,
        Vec3::neg_y(),
    );
    assert_eq!(hit, None);
}

#[test]
fn grid_takes_the_nearest_sample() {
    // A slanted probe: samples further along x reach the box sooner.
    let hit = multi_ray_intersect_from_box(
        v(-4000, 500, 0),
        v(500, 500, 0),
        v(0, 0, 0),
        v(1000, 1000, 1000),
        500,
        v(1000, 0, 0),
    );
    assert_eq!(hit, Some(2500));
}

#[test]
fn slab_finds_the_surface_below() {
    let hit = slab_ray_intersect_aabb(
        v(0, 1700, 0),
        v(500, 500, 500),
        v(0, 0, 0),
        v(50_000, 1000, 50_000),
        Vec3::neg_y(),
        100,
    );
    assert_eq!(hit, Some(200));
}

#[test]
fn slab_rejects_footprints_apart() {
    let hit = slab_ray_intersect_aabb(
        v(1501, 1500, 0),
        v(500, 500, 500),
        v(0, 0, 0),
        v(1000, 1000, 1000),
        Vec3::neg_y(),
        100,
    );
    assert_eq!(hit, None);
    let hit = slab_ray_intersect_aabb(
        v(0, 1500, -1501),
        v(500, 500, 500),
        v(0, 0, 0),
        v(1000, 1000, 1000),
        Vec3::neg_y(),
        100,
    );
    assert_eq!(hit, None);
}

#[test]
fn slab_accepts_touching_footprints() {
    let hit = slab_ray_intersect_aabb(
        v(1500, 1500, 0),
        v(500, 500, 500),
        v(0, 0, 0),
        v(1000, 1000, 1000),
        Vec3::neg_y(),
        100,
    );
    assert_eq!(hit, Some(0));
}

#[test]
fn slab_clamps_a_small_penetration() {
    let hit = slab_ray_intersect_aabb(
        v(0, 1450, 0),
        v(500, 500, 500),
        v(0, 0, 0),
        v(1000, 1000, 1000),
        Vec3::neg_y(),
        100,
    );
    assert_eq!(hit, Some(0));
}

#[test]
fn slab_rejects_a_surface_left_behind() {
    // The actor's bottom face is 101 below the surface's bottom.
    let hit = slab_ray_intersect_aabb(
        v(0, -601, 0),
        v(500, 500, 500),
        v(0, 0, 0),
        v(1000, 1000, 1000),
        Vec3::neg_y(),
        100,
    );
    assert_eq!(hit, None);
    let hit = slab_ray_intersect_aabb(
        v(0, -600, 0),
        v(500, 500, 500),
        v(0, 0, 0),
        v(1000, 1000, 1000),
        Vec3::neg_y(),
        100,
    );
    assert_eq!(hit, Some(0));
}

#[test]
fn slab_without_vertical_movement() {
    let hit = slab_ray_intersect_aabb(
        v(0, 1000, 0),
        v(500, 500, 500),
        v(0, 0, 0),
        v(1000, 1000, 1000),
        v(1000, 0, 0),
        100,
    );
    assert_eq!(hit, Some(0));
    let hit = slab_ray_intersect_aabb(
        v(0, 3000, 0),
        v(500, 500, 500),
        v(0, 0, 0),
        v(1000, 1000, 1000),
        v(1000, 0, 0),
        100,
    );
    assert_eq!(hit, None);
}

#[test]
fn grid_and_slab_agree_when_fully_over_the_surface() {
    let actor = v(200, 1899, -300);
    let half = v(500, 500, 500);
    let surface = v(0, 0, 0);
    let surface_half = v(3000, 1000, 3000);
    let sampled =
        multi_ray_intersect_from_box(actor, half, surface, surface_half, 25, Vec3::neg_y());
    let swept = slab_ray_intersect_aabb(actor, half, surface, surface_half, Vec3::neg_y(), 100);
    assert_eq!(sampled, Some(399));
    assert_eq!(swept, Some(399));
    assert!(within_ray_length(sampled));
    assert!(within_ray_length(swept));
}

#[test]
fn probe_length_is_inclusive() {
    assert!(within_ray_length(Some(0)));
    assert!(within_ray_length(Some(500)));
    assert!(!within_ray_length(Some(501)));
    assert!(!within_ray_length(Some(-1)));
    assert!(!within_ray_length(None));
}

fn surface(center: Vec3, half: Vec3) -> Surface {
    Surface { center, collider: AabbCollider { half_extents: half } }
}

#[test]
fn actor_on_a_box_is_grounded() {
    let surfaces = vec![
        surface(v(20_000, 1500, 20_000), v(3000, 1000, 3000)),
        surface(v(10_500, 1500, -10_500), v(3000, 1000, 3000)),
    ];
    let mut jump = JumpAbility::default();
    assert!(jump.is_jumping);
    assert!(update_jump_state_system(&mut jump, v(10_500, 3000, -10_500), &surfaces));
    assert!(!jump.is_jumping);
    assert!(!update_jump_state_system(&mut jump, v(10_500, 3000, -10_500), &surfaces));
    assert!(!jump.is_jumping);
}

#[test]
fn actor_high_above_is_airborne() {
    let surfaces = vec![surface(v(0, 0, 0), v(50_000, 0, 50_000))];
    let mut jump = JumpAbility { is_jumping: false };
    assert!(!update_jump_state_system(&mut jump, v(0, 1001, 0), &surfaces));
    assert!(jump.is_jumping);
    assert!(update_jump_state_system(&mut jump, v(0, 1000, 0), &surfaces));
    assert!(!jump.is_jumping);
}

#[test]
fn grounding_is_recomputed_when_the_surface_is_gone() {
    let mut jump = JumpAbility { is_jumping: false };
    let surfaces = vec![surface(v(0, 0, 0), v(50_000, 0, 50_000))];
    update_jump_state_system(&mut jump, v(0, 500, 0), &surfaces);
    assert!(!jump.is_jumping);
    let none: Vec<Surface> = Vec::new();
    update_jump_state_system(&mut jump, v(0, 500, 0), &none);
    assert!(jump.is_jumping);
}

#[test]
fn projectile_times_out_after_five_seconds() {
    let thrown = ThrewObject { spawn_time: 0 };
    assert!(!thrown.timed_out(4999));
    assert!(!thrown.timed_out(5000));
    assert!(thrown.timed_out(5001));
    assert!(!thrown.should_despawn(5000, None));
    assert!(thrown.should_despawn(5001, None));
}

#[test]
fn projectile_is_destroyed_on_contact_before_the_timeout() {
    let thrown = ThrewObject { spawn_time: 0 };
    assert!(thrown.should_despawn(1000, Some(Contact::Ground)));
    assert!(thrown.should_despawn(1000, Some(Contact::Wall)));
    assert!(!thrown.should_despawn(1000, Some(Contact::Other)));
    assert!(!thrown.should_despawn(1000, None));
}

#[test]
fn projectile_spawned_in_the_future_is_not_timed_out() {
    let thrown = ThrewObject { spawn_time: 9000 };
    assert!(!thrown.timed_out(1000));
}
