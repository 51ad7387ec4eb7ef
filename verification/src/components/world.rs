//! World markers and the geometry kernel: ray against box, sampled and
//! continuous footprint sweeps.

use vstd::prelude::*;
use crate::math::{
    down, lemma_plane_distance_bounds, lemma_plane_distance_sign, plane_distance, scaled_quotient,
    Vec3, V3, UNIT,
};

verus! {

/// Marks a surface that can support an actor.
#[derive(Debug)]
pub struct Ground;

/// A human-readable name attached to an entity.
#[derive(Debug)]
pub struct EntityName(pub String);

impl EntityName {
    /// Names an entity.
    pub fn new(name: &str) -> (r: Self)
        ensures
            r.0@ == name@,
    {
        EntityName(name.to_string())
    }
}

/// Marks an entity as a structure.
#[derive(Debug)]
pub struct Structure;

/// Marks the part of a structure that is no ground.
#[derive(Debug)]
pub struct NotGround;

/// An axis-aligned box around its owner's position.
#[derive(Clone, Copy, Debug)]
pub struct AabbCollider {
    /// Half the box's size along each axis.
    pub half_extents: Vec3,
}

/// Marks a wall.
#[derive(Debug)]
pub struct Wall;

/// How long a thrown object may fly, in milliseconds.
pub const THROWN_OBJECT_TIMEOUT: u64 = 5000;

/// A thrown object in flight.
#[derive(Clone, Copy, Debug)]
pub struct ThrewObject {
    /// The clock reading when the object was spawned, in milliseconds.
    pub spawn_time: u64,
}

/// What a thrown object touched.
#[derive(Clone, Copy, Debug, PartialEq, Eq, Structural)]
pub enum Contact {
    Ground,
    Wall,
    Other,
}

impl ThrewObject {
    /// Whether the object has outlived its timeout at clock reading `now`.
    pub open spec fn expired(self, now: u64) -> bool {
        now - self.spawn_time > THROWN_OBJECT_TIMEOUT
    }

    /// Whether the object is to be destroyed for age alone.
    pub fn timed_out(&self, now: u64) -> (r: bool)
        ensures
            r == self.expired(now),
    {
        now > self.spawn_time && now - self.spawn_time > THROWN_OBJECT_TIMEOUT
    }

    /// Whether a sensor overlap with `other` destroys the object.
    pub open spec fn stopped_by(other: Contact) -> bool {
        other == Contact::Ground || other == Contact::Wall
    }

    /// Decides the object's fate for one tick: it goes when it has touched
    /// ground or a wall, whatever its age, and otherwise when it is too old.
    pub fn should_despawn(&self, now: u64, contact: Option<Contact>) -> (r: bool)
        ensures
            r == (self.expired(now) || (contact is Some && Self::stopped_by(contact->0))),
    {
        let hit = match contact {
            Some(Contact::Ground) => true,
            Some(Contact::Wall) => true,
            _ => false,
        };
        hit || self.timed_out(now)
    }
}

/// Slack around a box within which a ray origin counts as touching it.
pub const INSIDE_EPSILON: i64 = 1;

/// Whether `p` lies in the box grown by `epsilon` on every side.
pub open spec fn inside_aabb(p: V3, center: V3, half: V3, epsilon: int) -> bool {
    &&& center.x - half.x - epsilon <= p.x <= center.x + half.x + epsilon
    &&& center.y - half.y - epsilon <= p.y <= center.y + half.y + epsilon
    &&& center.z - half.z - epsilon <= p.z <= center.z + half.z + epsilon
}

/// Whether `p` lies strictly within the box.
pub open spec fn strictly_inside_aabb(p: V3, center: V3, half: V3) -> bool {
    &&& center.x - half.x < p.x < center.x + half.x
    &&& center.y - half.y < p.y < center.y + half.y
    &&& center.z - half.z < p.z < center.z + half.z
}

/// A ray that does not move along an axis misses the box's slab on that
/// axis for good when it starts outside it.
pub open spec fn axis_blocked(o: int, d: int, c: int, h: int) -> bool {
    d == 0 && !(c - h <= o <= c + h)
}

/// Where the ray enters the slab of one axis; `None` when it is in the slab
/// at every distance.
pub open spec fn axis_enter(o: int, d: int, c: int, h: int) -> Option<int> {
    if d == 0 {
        None
    } else {
        let a = plane_distance(c - h - o, d);
        let b = plane_distance(c + h - o, d);
        Some(if a <= b { a } else { b })
    }
}

/// Where the ray leaves the slab of one axis; `None` when it never does.
pub open spec fn axis_exit(o: int, d: int, c: int, h: int) -> Option<int> {
    if d == 0 {
        None
    } else {
        let a = plane_distance(c - h - o, d);
        let b = plane_distance(c + h - o, d);
        Some(if a <= b { b } else { a })
    }
}

/// The later of two entries, where `None` is earlier than every distance.
pub open spec fn latest(a: Option<int>, b: Option<int>) -> Option<int> {
    match (a, b) {
        (None, _) => b,
        (_, None) => a,
        (Some(x), Some(y)) => Some(if x >= y { x } else { y }),
    }
}

/// The earlier of two exits, where `None` is later than every distance.
pub open spec fn earliest(a: Option<int>, b: Option<int>) -> Option<int> {
    match (a, b) {
        (None, _) => b,
        (_, None) => a,
        (Some(x), Some(y)) => Some(if x <= y { x } else { y }),
    }
}

/// The distance at which a ray from `origin` along `direction` meets the
/// box, by the slab method. An origin within [`INSIDE_EPSILON`] of the box
/// touches it at distance 0. Otherwise the ray enters at the latest of the
/// per-axis entries and leaves at the earliest of the per-axis exits, and
/// misses when it leaves before it enters or leaves behind its origin.
pub open spec fn ray_hit(origin: V3, direction: V3, center: V3, half: V3) -> Option<int> {
    let enter = latest(
        latest(
            axis_enter(origin.x, direction.x, center.x, half.x),
            axis_enter(origin.y, direction.y, center.y, half.y),
        ),
        axis_enter(origin.z, direction.z, center.z, half.z),
    );
    let exit = earliest(
        earliest(
            axis_exit(origin.x, direction.x, center.x, half.x),
            axis_exit(origin.y, direction.y, center.y, half.y),
        ),
        axis_exit(origin.z, direction.z, center.z, half.z),
    );
    if inside_aabb(origin, center, half, INSIDE_EPSILON as int) {
        Some(0)
    } else if axis_blocked(origin.x, direction.x, center.x, half.x) || axis_blocked(
        origin.y,
        direction.y,
        center.y,
        half.y,
    ) || axis_blocked(origin.z, direction.z, center.z, half.z) {
        None
    } else if enter is None || exit is None {
        None
    } else if enter->0 > exit->0 || exit->0 < 0 {
        None
    } else {
        enter
    }
}

/// An executable distance as the mathematical value it holds.
pub open spec fn distance_view(r: Option<i64>) -> Option<int> {
    match r {
        Some(t) => Some(t as int),
        None => None,
    }
}

/// Whether a coordinate is one that a box corner or a footprint sample can
/// have.
pub open spec fn sample_range(v: int) -> bool {
    -0x1_0000_0000 <= v <= 0x1_0000_0000
}

fn point_inside_aabb(
    px: i64,
    py: i64,
    pz: i64,
    box_center: Vec3,
    half_extents: Vec3,
    epsilon: i64,
) -> (r: bool)
    requires
        sample_range(px as int),
        sample_range(py as int),
        sample_range(pz as int),
        0 <= epsilon <= 0x1_0000_0000,
    ensures
        r == inside_aabb(
            V3 { x: px as int, y: py as int, z: pz as int },
            box_center@,
            half_extents@,
            epsilon as int,
        ),
{
    let cx: i64 = box_center.x as i64;
    let cy: i64 = box_center.y as i64;
    let cz: i64 = box_center.z as i64;
    let hx: i64 = half_extents.x as i64;
    let hy: i64 = half_extents.y as i64;
    let hz: i64 = half_extents.z as i64;
    cx - hx - epsilon <= px && px <= cx + hx + epsilon && cy - hy - epsilon <= py && py <= cy + hy
        + epsilon && cz - hz - epsilon <= pz && pz <= cz + hz + epsilon
}

/// The entry and exit of one axis, for a ray that moves along it.
fn axis_span(o: i64, d: i32, c: i32, h: i32) -> (r: (i64, i64))
    requires
        d != 0,
        sample_range(o as int),
    ensures
        axis_enter(o as int, d as int, c as int, h as int) == Some(r.0 as int),
        axis_exit(o as int, d as int, c as int, h as int) == Some(r.1 as int),
{
    let a: i64 = scaled_quotient(c as i64 - h as i64 - o, d);
    let b: i64 = scaled_quotient(c as i64 + h as i64 - o, d);
    if a <= b {
        (a, b)
    } else {
        (b, a)
    }
}

fn later(a: Option<i64>, b: Option<i64>) -> (r: Option<i64>)
    ensures
        distance_view(r) == latest(distance_view(a), distance_view(b)),
{
    match (a, b) {
        (None, _) => b,
        (_, None) => a,
        (Some(x), Some(y)) => Some(if x >= y { x } else { y }),
    }
}

fn earlier(a: Option<i64>, b: Option<i64>) -> (r: Option<i64>)
    ensures
        distance_view(r) == earliest(distance_view(a), distance_view(b)),
{
    match (a, b) {
        (None, _) => b,
        (_, None) => a,
        (Some(x), Some(y)) => Some(if x <= y { x } else { y }),
    }
}

/// The ray test for an origin given by wide coordinates, as the footprint
/// samples need it.
pub fn ray_intersect_from(
    ox: i64,
    oy: i64,
    oz: i64,
    ray_direction: Vec3,
    box_center: Vec3,
    half_extents: Vec3,
) -> (r: Option<i64>)
    requires
        sample_range(ox as int),
        sample_range(oy as int),
        sample_range(oz as int),
    ensures
        distance_view(r) == ray_hit(
            V3 { x: ox as int, y: oy as int, z: oz as int },
            ray_direction@,
            box_center@,
            half_extents@,
        ),
{
    if point_inside_aabb(ox, oy, oz, box_center, half_extents, INSIDE_EPSILON) {
        return Some(0);
    }
    let mut enter: Option<i64> = None;
    let mut exit: Option<i64> = None;
    if ray_direction.x != 0 {
        let (a, b) = axis_span(ox, ray_direction.x, box_center.x, half_extents.x);
        enter = Some(a);
        exit = Some(b);
    } else if !(box_center.x as i64 - half_extents.x as i64 <= ox && ox <= box_center.x as i64
        + half_extents.x as i64) {
        return None;
    }
    if ray_direction.y != 0 {
        let (a, b) = axis_span(oy, ray_direction.y, box_center.y, half_extents.y);
        enter = later(enter, Some(a));
        exit = earlier(exit, Some(b));
    } else if !(box_center.y as i64 - half_extents.y as i64 <= oy && oy <= box_center.y as i64
        + half_extents.y as i64) {
        return None;
    }
    if ray_direction.z != 0 {
        let (a, b) = axis_span(oz, ray_direction.z, box_center.z, half_extents.z);
        enter = later(enter, Some(a));
        exit = earlier(exit, Some(b));
    } else if !(box_center.z as i64 - half_extents.z as i64 <= oz && oz <= box_center.z as i64
        + half_extents.z as i64) {
        return None;
    }
    match (enter, exit) {
        (Some(t_enter), Some(t_exit)) => {
            if t_enter > t_exit || t_exit < 0 {
                None
            } else {
                Some(t_enter)
            }
        },
        _ => None,
    }
}

/// Performs a single ray against box test and returns the distance along
/// the ray at which it meets the box, if it does.
pub fn ray_intersect_aabb(
    ray_origin: Vec3,
    ray_direction: Vec3,
    box_center: Vec3,
    half_extents: Vec3,
) -> (r: Option<i64>)
    ensures
        distance_view(r) == ray_hit(ray_origin@, ray_direction@, box_center@, half_extents@),
        strictly_inside_aabb(ray_origin@, box_center@, half_extents@) ==> r == Some(0i64),
{
    ray_intersect_from(
        ray_origin.x as i64,
        ray_origin.y as i64,
        ray_origin.z as i64,
        ray_direction,
        box_center,
        half_extents,
    )
}

/// Distance of the sample in row `i`, column `j` of the grid laid over the
/// actor's bottom face, whose first sample sits on the face's lowest
/// corner and whose samples lie `step` apart.
pub open spec fn sample_hit(
    actor_center: V3,
    actor_half: V3,
    surface_center: V3,
    surface_half: V3,
    step: int,
    direction: V3,
    i: int,
    j: int,
) -> Option<int> {
    ray_hit(
        V3 {
            x: actor_center.x - actor_half.x + i * step,
            y: actor_center.y - actor_half.y,
            z: actor_center.z - actor_half.z + j * step,
        },
        direction,
        surface_center,
        surface_half,
    )
}

/// Whether row `i`, column `j` is a sample on the actor's bottom face: the
/// grid covers the face from edge to edge and stops at the far edges.
pub open spec fn on_face(actor_half: V3, step: int, i: int, j: int) -> bool {
    &&& 0 <= i
    &&& 0 <= j
    &&& i * step <= 2 * actor_half.x
    &&& j * step <= 2 * actor_half.z
}

/// Whether `found` is what the sampled sweep owes: the least distance that
/// is not negative among the samples that hit, or nothing when none hits.
pub open spec fn is_nearest_sample(
    actor_center: V3,
    actor_half: V3,
    surface_center: V3,
    surface_half: V3,
    step: int,
    direction: V3,
    found: Option<int>,
) -> bool {
    &&& forall|i: int, j: int|
        on_face(actor_half, step, i, j) ==> {
            let hit = #[trigger] sample_hit(
                actor_center,
                actor_half,
                surface_center,
                surface_half,
                step,
                direction,
                i,
                j,
            );
            hit is Some && hit->0 >= 0 ==> found is Some && found->0 <= hit->0
        }
    &&& found is Some ==> found->0 >= 0 && exists|i: int, j: int|
        on_face(actor_half, step, i, j) && #[trigger] sample_hit(
            actor_center,
            actor_half,
            surface_center,
            surface_half,
            step,
            direction,
            i,
            j,
        ) == found
}

/// Casts rays along `ray_direction` from a grid of points on the bottom
/// face of the actor's box and returns the smallest distance, not below
/// zero, at which one of them meets the surface's box.
pub fn multi_ray_intersect_from_box(
    player_center: Vec3,
    player_half_extents: Vec3,
    ground_center: Vec3,
    ground_half_extents: Vec3,
    step_size: i32,
    ray_direction: Vec3,
) -> (r: Option<i64>)
    requires
        step_size > 0,
    ensures
        is_nearest_sample(
            player_center@,
            player_half_extents@,
            ground_center@,
            ground_half_extents@,
            step_size as int,
            ray_direction@,
            distance_view(r),
        ),
{
    let mut closest: Option<i64> = None;
    let step: i64 = step_size as i64;
    let y_bottom: i64 = player_center.y as i64 - player_half_extents.y as i64;
    let x_min: i64 = player_center.x as i64 - player_half_extents.x as i64;
    let x_max: i64 = player_center.x as i64 + player_half_extents.x as i64;
    let z_min: i64 = player_center.z as i64 - player_half_extents.z as i64;
    let z_max: i64 = player_center.z as i64 + player_half_extents.z as i64;
    let ghost ac = player_center@;
    let ghost ah = player_half_extents@;
    let ghost sc = ground_center@;
    let ghost sh = ground_half_extents@;
    let ghost dir = ray_direction@;
    let ghost st = step_size as int;
    let ghost mut i: int = 0;
    let ghost mut wi: int = 0;
    let ghost mut wj: int = 0;
    let mut x: i64 = x_min;
    while x <= x_max
        invariant
            st == step as int,
            0 < st <= i32::MAX,
            ac == player_center@,
            ah == player_half_extents@,
            sc == ground_center@,
            sh == ground_half_extents@,
            dir == ray_direction@,
            y_bottom == ac.y - ah.y,
            x_min == ac.x - ah.x,
            x_max == ac.x + ah.x,
            z_min == ac.z - ah.z,
            z_max == ac.z + ah.z,
            0 <= i,
            x == x_min + i * st,
            x_min <= x,
            forall|a: int, b: int|
                on_face(ah, st, a, b) && a < i ==> {
                    let hit = #[trigger] sample_hit(ac, ah, sc, sh, st, dir, a, b);
                    hit is Some && hit->0 >= 0 ==> closest is Some && closest->0 <= hit->0
                },
            closest is Some ==> closest->0 >= 0 && on_face(ah, st, wi, wj) && sample_hit(
                ac,
                ah,
                sc,
                sh,
                st,
                dir,
                wi,
                wj,
            ) == distance_view(closest),
        decreases x_max - x + st,
    {
        let ghost mut j: int = 0;
        let mut z: i64 = z_min;
        while z <= z_max
            invariant
                st == step as int,
                0 < st <= i32::MAX,
                ac == player_center@,
                ah == player_half_extents@,
                sc == ground_center@,
                sh == ground_half_extents@,
                dir == ray_direction@,
                y_bottom == ac.y - ah.y,
                x_min == ac.x - ah.x,
                x_max == ac.x + ah.x,
                z_min == ac.z - ah.z,
                z_max == ac.z + ah.z,
                0 <= i,
                x == x_min + i * st,
                x <= x_max,
                0 <= j,
                z == z_min + j * st,
                z_min <= z,
                x_min <= x,
                forall|a: int, b: int|
                    on_face(ah, st, a, b) && (a < i || (a == i && b < j)) ==> {
                        let hit = #[trigger] sample_hit(ac, ah, sc, sh, st, dir, a, b);
                        hit is Some && hit->0 >= 0 ==> closest is Some && closest->0 <= hit->0
                    },
                closest is Some ==> closest->0 >= 0 && on_face(ah, st, wi, wj) && sample_hit(
                    ac,
                    ah,
                    sc,
                    sh,
                    st,
                    dir,
                    wi,
                    wj,
                ) == distance_view(closest),
            decreases z_max - z + st,
        {
            let hit = ray_intersect_from(
                x,
                y_bottom,
                z,
                ray_direction,
                ground_center,
                ground_half_extents,
            );
            proof {
                assert(distance_view(hit) == sample_hit(ac, ah, sc, sh, st, dir, i, j));
                assert(on_face(ah, st, i, j));
            }
            if let Some(t) = hit {
                if t >= 0 {
                    let better = match closest {
                        Some(existing) => t < existing,
                        None => true,
                    };
                    if better {
                        closest = Some(t);
                        proof {
                            wi = i;
                            wj = j;
                        }
                    }
                }
            }
            proof {
                assert((j + 1) * st == j * st + st) by (nonlinear_arith);
            }
            z = z + step;
            proof {
                j = j + 1;
            }
        }
        proof {
            assert forall|a: int, b: int| on_face(ah, st, a, b) && a < i + 1 implies {
                let hit = #[trigger] sample_hit(ac, ah, sc, sh, st, dir, a, b);
                hit is Some && hit->0 >= 0 ==> closest is Some && closest->0 <= hit->0
            } by {
                if a == i && b >= j {
                    assert(b * st >= j * st) by (nonlinear_arith)
                        requires
                            b >= j,
                            st > 0,
                    ;
                }
            }
            assert((i + 1) * st == i * st + st) by (nonlinear_arith);
        }
        x = x + step;
        proof {
            i = i + 1;
        }
    }
    proof {
        assert forall|a: int, b: int| on_face(ah, st, a, b) implies {
            let hit = #[trigger] sample_hit(ac, ah, sc, sh, st, dir, a, b);
            hit is Some && hit->0 >= 0 ==> closest is Some && closest->0 <= hit->0
        } by {
            if a >= i {
                assert(a * st >= i * st) by (nonlinear_arith)
                    requires
                        a >= i,
                        st > 0,
                ;
            }
        }
    }
    closest
}

/// Whether the two boxes' shadows on the ground plane touch or overlap.
pub open spec fn footprints_overlap(
    actor_center: V3,
    actor_half: V3,
    surface_center: V3,
    surface_half: V3,
) -> bool {
    &&& actor_center.x + actor_half.x >= surface_center.x - surface_half.x
    &&& actor_center.x - actor_half.x <= surface_center.x + surface_half.x
    &&& actor_center.z + actor_half.z >= surface_center.z - surface_half.z
    &&& actor_center.z - actor_half.z <= surface_center.z + surface_half.z
}

/// The distance that the continuous sweep reports. Boxes whose footprints
/// are apart never meet. Otherwise the actor's bottom face is carried
/// along the vertical part of `direction` through the surface's vertical
/// extent: it meets the surface unless it leaves it more than `epsilon`
/// behind its start, and an entry behind the start counts as distance 0.
/// With no vertical movement the face meets the surface exactly when it
/// starts within its vertical extent.
pub open spec fn slab_hit(
    actor_center: V3,
    actor_half: V3,
    surface_center: V3,
    surface_half: V3,
    direction: V3,
    epsilon: int,
) -> Option<int> {
    let y_bottom = actor_center.y - actor_half.y;
    let low = surface_center.y - surface_half.y;
    let high = surface_center.y + surface_half.y;
    if !footprints_overlap(actor_center, actor_half, surface_center, surface_half) {
        None
    } else if direction.y == 0 {
        if low <= y_bottom <= high {
            Some(0)
        } else {
            None
        }
    } else {
        let enter = axis_enter(y_bottom, direction.y, surface_center.y, surface_half.y)->0;
        let exit = axis_exit(y_bottom, direction.y, surface_center.y, surface_half.y)->0;
        if exit >= -epsilon {
            Some(if enter >= 0 { enter } else { 0 })
        } else {
            None
        }
    }
}

/// Sweeps the whole bottom face of the actor's box along the vertical part
/// of `ray_direction` and returns the distance at which it meets the
/// surface's box, if it does.
pub fn slab_ray_intersect_aabb(
    player_center: Vec3,
    player_half_extents: Vec3,
    ground_center: Vec3,
    ground_half_extents: Vec3,
    ray_direction: Vec3,
    epsilon: i32,
) -> (r: Option<i64>)
    ensures
        distance_view(r) == slab_hit(
            player_center@,
            player_half_extents@,
            ground_center@,
            ground_half_extents@,
            ray_direction@,
            epsilon as int,
        ),
        !footprints_overlap(
            player_center@,
            player_half_extents@,
            ground_center@,
            ground_half_extents@,
        ) ==> r is None,
{
    let y_bottom: i64 = player_center.y as i64 - player_half_extents.y as i64;
    let player_x_min: i64 = player_center.x as i64 - player_half_extents.x as i64;
    let player_x_max: i64 = player_center.x as i64 + player_half_extents.x as i64;
    let player_z_min: i64 = player_center.z as i64 - player_half_extents.z as i64;
    let player_z_max: i64 = player_center.z as i64 + player_half_extents.z as i64;
    let ground_x_min: i64 = ground_center.x as i64 - ground_half_extents.x as i64;
    let ground_x_max: i64 = ground_center.x as i64 + ground_half_extents.x as i64;
    let ground_z_min: i64 = ground_center.z as i64 - ground_half_extents.z as i64;
    let ground_z_max: i64 = ground_center.z as i64 + ground_half_extents.z as i64;
    let x_overlap = player_x_max >= ground_x_min && player_x_min <= ground_x_max;
    let z_overlap = player_z_max >= ground_z_min && player_z_min <= ground_z_max;
    if !(x_overlap && z_overlap) {
        return None;
    }
    if ray_direction.y == 0 {
        let low: i64 = ground_center.y as i64 - ground_half_extents.y as i64;
        let high: i64 = ground_center.y as i64 + ground_half_extents.y as i64;
        return if low <= y_bottom && y_bottom <= high {
            Some(0)
        } else {
            None
        };
    }
    let (t_enter, t_exit) = axis_span(
        y_bottom,
        ray_direction.y,
        ground_center.y,
        ground_half_extents.y,
    );
    if t_exit >= -(epsilon as i64) {
        Some(if t_enter >= 0 { t_enter } else { 0 })
    } else {
        None
    }
}

/// Whether the box has an inside: no half extent is negative.
pub open spec fn is_box(half: V3) -> bool {
    half.x >= 0 && half.y >= 0 && half.z >= 0
}

/// A moving ray is in an axis's slab at its origin when it entered it
/// before the origin and has not left it before the origin.
proof fn lemma_axis_origin_in_slab(o: int, d: int, c: int, h: int)
    requires
        d != 0,
        h >= 0,
        axis_enter(o, d, c, h)->0 < 0,
        axis_exit(o, d, c, h)->0 >= 0,
    ensures
        c - h <= o <= c + h,
{
    lemma_plane_distance_sign(c - h - o, d);
    lemma_plane_distance_sign(c + h - o, d);
}

/// A reported distance is never negative: a ray that entered the box
/// behind its origin and has not left it starts inside it, and is reported
/// at distance 0.
pub proof fn lemma_hit_is_ahead(origin: V3, direction: V3, center: V3, half: V3)
    requires
        is_box(half),
    ensures
        ray_hit(origin, direction, center, half) is Some ==> ray_hit(
            origin,
            direction,
            center,
            half,
        )->0 >= 0,
{
    let hit = ray_hit(origin, direction, center, half);
    if hit is Some && hit->0 < 0 {
        if direction.x != 0 {
            lemma_axis_origin_in_slab(origin.x, direction.x, center.x, half.x);
        }
        if direction.y != 0 {
            lemma_axis_origin_in_slab(origin.y, direction.y, center.y, half.y);
        }
        if direction.z != 0 {
            lemma_axis_origin_in_slab(origin.z, direction.z, center.z, half.z);
        }
        assert(inside_aabb(origin, center, half, INSIDE_EPSILON as int));
    }
}

/// How far a ray moves along one axis per step of distance.
pub open spec fn stride(d: int) -> int {
    if d < 0 {
        -d
    } else {
        d
    }
}

/// Whether the point that a ray reaches at distance `t` lies in the box's
/// slab on one axis, give or take one step of the ray. Positions are
/// scaled by [`UNIT`], so that the point is a whole number.
pub open spec fn reaches_slab(o: int, d: int, c: int, h: int, t: int) -> bool {
    (c - h) * UNIT - stride(d) <= o * UNIT + t * d <= (c + h) * UNIT + stride(d)
}

proof fn lemma_axis_reach(o: int, d: int, c: int, h: int, t: int)
    requires
        d != 0,
        h >= 0,
        axis_enter(o, d, c, h)->0 <= t <= axis_exit(o, d, c, h)->0,
    ensures
        reaches_slab(o, d, c, h, t),
{
    let low = c - h - o;
    let high = c + h - o;
    lemma_plane_distance_bounds(low, d);
    lemma_plane_distance_bounds(high, d);
    let a = plane_distance(low, d);
    let b = plane_distance(high, d);
    let m = stride(d);
    if d > 0 {
        assert(o * UNIT + t * d >= (c - h) * UNIT - m && o * UNIT + t * d <= (c + h) * UNIT + m)
            by (nonlinear_arith)
            requires
                m == d,
                m > 0,
                a * m <= low * UNIT < (a + 1) * m,
                b * m <= high * UNIT < (b + 1) * m,
                low == c - h - o,
                high == c + h - o,
                low <= high,
                (a <= t || b <= t),
                (t <= a || t <= b),
        ;
    } else {
        assert(o * UNIT + t * d >= (c - h) * UNIT - m && o * UNIT + t * d <= (c + h) * UNIT + m)
            by (nonlinear_arith)
            requires
                m == -d,
                m > 0,
                a * m <= -(low * UNIT) < (a + 1) * m,
                b * m <= -(high * UNIT) < (b + 1) * m,
                low == c - h - o,
                high == c + h - o,
                low <= high,
                (a <= t || b <= t),
                (t <= a || t <= b),
        ;
    }
}

/// A reported hit is on the box. When the ray starts outside the box and
/// is reported to meet it at some distance, the point it reaches at that
/// distance lies in the box on every axis, give or take one step of the
/// ray: exactly on the axes along which it does not move.
pub proof fn lemma_hit_point_is_on_the_box(origin: V3, direction: V3, center: V3, half: V3)
    requires
        is_box(half),
        !inside_aabb(origin, center, half, INSIDE_EPSILON as int),
        ray_hit(origin, direction, center, half) is Some,
    ensures
        reaches_slab(
            origin.x,
            direction.x,
            center.x,
            half.x,
            ray_hit(origin, direction, center, half)->0,
        ),
        reaches_slab(
            origin.y,
            direction.y,
            center.y,
            half.y,
            ray_hit(origin, direction, center, half)->0,
        ),
        reaches_slab(
            origin.z,
            direction.z,
            center.z,
            half.z,
            ray_hit(origin, direction, center, half)->0,
        ),
{
    let t = ray_hit(origin, direction, center, half)->0;
    if direction.x != 0 {
        lemma_axis_reach(origin.x, direction.x, center.x, half.x, t);
    }
    if direction.y != 0 {
        lemma_axis_reach(origin.y, direction.y, center.y, half.y, t);
    }
    if direction.z != 0 {
        lemma_axis_reach(origin.z, direction.z, center.z, half.z, t);
    }
}

/// Whether the point that a ray reaches at distance `t` lies in the box's
/// slab on one axis, with positions scaled by [`UNIT`].
pub open spec fn in_slab_at(o: int, d: int, c: int, h: int, t: int) -> bool {
    (c - h) * UNIT <= o * UNIT + t * d <= (c + h) * UNIT
}

proof fn lemma_axis_covers(o: int, d: int, c: int, h: int, t: int)
    requires
        d != 0,
        h >= 0,
        in_slab_at(o, d, c, h, t),
    ensures
        axis_enter(o, d, c, h)->0 <= t <= axis_exit(o, d, c, h)->0,
{
    let low = c - h - o;
    let high = c + h - o;
    lemma_plane_distance_bounds(low, d);
    lemma_plane_distance_bounds(high, d);
    let a = plane_distance(low, d);
    let b = plane_distance(high, d);
    let m = stride(d);
    if d > 0 {
        assert(a <= t && t <= b) by (nonlinear_arith)
            requires
                m == d,
                m > 0,
                a * m <= low * UNIT < (a + 1) * m,
                b * m <= high * UNIT < (b + 1) * m,
                low * UNIT <= t * d,
                t * d <= high * UNIT,
        ;
    } else {
        assert(b <= t && t <= a) by (nonlinear_arith)
            requires
                m == -d,
                m > 0,
                a * m <= -(low * UNIT) < (a + 1) * m,
                b * m <= -(high * UNIT) < (b + 1) * m,
                low * UNIT <= t * d,
                t * d <= high * UNIT,
        ;
    }
}

/// A box on the way is hit. When the point that the ray reaches at some
/// whole distance `t`, not behind its origin, lies in the box, the ray is
/// reported to meet the box, and no later than at `t`.
pub proof fn lemma_box_on_the_way_is_hit(
    origin: V3,
    direction: V3,
    center: V3,
    half: V3,
    t: int,
)
    requires
        is_box(half),
        t >= 0,
        in_slab_at(origin.x, direction.x, center.x, half.x, t),
        in_slab_at(origin.y, direction.y, center.y, half.y, t),
        in_slab_at(origin.z, direction.z, center.z, half.z, t),
    ensures
        ray_hit(origin, direction, center, half) is Some,
        ray_hit(origin, direction, center, half)->0 <= t,
{
    if direction.x != 0 {
        lemma_axis_covers(origin.x, direction.x, center.x, half.x, t);
    }
    if direction.y != 0 {
        lemma_axis_covers(origin.y, direction.y, center.y, half.y, t);
    }
    if direction.z != 0 {
        lemma_axis_covers(origin.z, direction.z, center.z, half.z, t);
    }
}

/// What a probe straight down finds: from within [`INSIDE_EPSILON`] of the
/// box it touches at distance 0; from above the box and over its footprint
/// it reports the height of its origin above the box's top; from anywhere
/// else it misses.
pub proof fn lemma_downward_ray(origin: V3, center: V3, half: V3)
    requires
        is_box(half),
    ensures
        ray_hit(origin, down(), center, half) == if inside_aabb(
            origin,
            center,
            half,
            INSIDE_EPSILON as int,
        ) {
            Some(0int)
        } else if center.x - half.x <= origin.x <= center.x + half.x && center.z - half.z
            <= origin.z <= center.z + half.z && origin.y > center.y + half.y {
            Some(origin.y - (center.y + half.y))
        } else {
            None
        },
{
}

/// What the continuous sweep straight down finds: boxes whose footprints
/// meet are reported unless the actor's bottom face is more than `epsilon`
/// below the surface's underside, at the height of the face above the
/// surface's top, or at 0 when the face is not above it.
pub proof fn lemma_downward_slab(
    actor_center: V3,
    actor_half: V3,
    surface_center: V3,
    surface_half: V3,
    epsilon: int,
)
    requires
        surface_half.y >= 0,
    ensures
        slab_hit(actor_center, actor_half, surface_center, surface_half, down(), epsilon) == ({
            let y_bottom = actor_center.y - actor_half.y;
            let top = surface_center.y + surface_half.y;
            let underside = surface_center.y - surface_half.y;
            if footprints_overlap(actor_center, actor_half, surface_center, surface_half)
                && y_bottom >= underside - epsilon {
                Some(if y_bottom > top { y_bottom - top } else { 0 })
            } else {
                None
            }
        }),
{
}

/// A ray that starts strictly inside a box meets it at distance 0, whatever
/// its direction.
pub proof fn lemma_origin_inside_hits_at_zero(origin: V3, direction: V3, center: V3, half: V3)
    requires
        strictly_inside_aabb(origin, center, half),
    ensures
        ray_hit(origin, direction, center, half) == Some(0int),
{
}

} // verus!
