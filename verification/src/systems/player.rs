//! The player's rules for one tick: grounding, selection, item use, melee
//! wear and the countdown of speed boosts.

use vstd::prelude::*;
use crate::components::player::{
    clamp_i64,
    shift_stat,
    stats_after_use,
    worn,
    Activation,
    Direction,
    Inventory,
    Item,
    JumpAbility,
    PlayerStats,
    SpeedBoost,
    Weapon,
    SLOT_COUNT,
    all_occupied,
    is_first_empty,
};
use crate::components::world::{
    distance_view,
    footprints_overlap,
    is_nearest_sample,
    lemma_downward_slab,
    on_face,
    sample_hit,
    slab_hit,
    slab_ray_intersect_aabb,
    AabbCollider,
};
use crate::math::{down, Vec3, V3};

verus! {

/// Length of the downward probe: half the actor's height.
pub const RAY_LENGTH: i64 = 500;

/// How far an actor may have sunk into a surface and still stand on it.
pub const GROUND_EPSILON: i32 = 100;

/// Half the size of the actor's box along each axis.
pub const PLAYER_HALF_EXTENT: i32 = 500;

/// A static surface: where it is and how large.
#[derive(Clone, Copy, Debug)]
pub struct Surface {
    pub center: Vec3,
    pub collider: AabbCollider,
}

/// The actor's half extents as a vector.
pub open spec fn player_half_extents() -> V3 {
    V3 { x: PLAYER_HALF_EXTENT as int, y: PLAYER_HALF_EXTENT as int, z: PLAYER_HALF_EXTENT as int }
}

/// Whether a sweep result grounds the actor: a hit within the probe.
pub open spec fn is_grounding(hit: Option<int>) -> bool {
    hit is Some && 0 <= hit->0 <= RAY_LENGTH
}

/// Whether `surface` supports an actor at `position`.
pub open spec fn supported_by(position: V3, surface: Surface) -> bool {
    is_grounding(
        slab_hit(
            position,
            player_half_extents(),
            surface.center@,
            surface.collider.half_extents@,
            down(),
            GROUND_EPSILON as int,
        ),
    )
}

/// Whether any of `surfaces` supports an actor at `position`.
pub open spec fn grounded(position: V3, surfaces: Seq<Surface>) -> bool {
    exists|i: int| 0 <= i < surfaces.len() && supported_by(position, #[trigger] surfaces[i])
}

/// Whether a hit distance lies within the probe.
pub fn within_ray_length(hit: Option<i64>) -> (r: bool)
    ensures
        r == is_grounding(distance_view(hit)),
{
    match hit {
        Some(t) => 0 <= t && t <= RAY_LENGTH,
        None => false,
    }
}

/// Recomputes from the current poses alone whether the actor stands on
/// something: it is airborne exactly when no surface supports it. Returns
/// whether the actor landed this tick, so that the caller can clear what
/// is left of its downward velocity.
pub fn update_jump_state_system(
    jump_ability: &mut JumpAbility,
    player_position: Vec3,
    surfaces: &Vec<Surface>,
) -> (landed: bool)
    ensures
        final(jump_ability).is_jumping == !grounded(player_position@, surfaces@),
        landed == (old(jump_ability).is_jumping && grounded(player_position@, surfaces@)),
{
    let half = Vec3 { x: PLAYER_HALF_EXTENT, y: PLAYER_HALF_EXTENT, z: PLAYER_HALF_EXTENT };
    let mut found = false;
    let mut i: usize = 0;
    while i < surfaces.len() && !found
        invariant
            0 <= i <= surfaces.len(),
            half@ == player_half_extents(),
            found ==> grounded(player_position@, surfaces@),
            !found ==> forall|k: int|
                0 <= k < i ==> !supported_by(player_position@, #[trigger] surfaces@[k]),
        decreases surfaces.len() - i + if found { 0int } else { 1int },
    {
        let surface = surfaces[i];
        let hit = slab_ray_intersect_aabb(
            player_position,
            half,
            surface.center,
            surface.collider.half_extents,
            Vec3::neg_y(),
            GROUND_EPSILON,
        );
        if within_ray_length(hit) {
            found = true;
            assert(supported_by(player_position@, surfaces@[i as int]));
        } else {
            i += 1;
        }
    }
    let landed = jump_ability.is_jumping && found;
    jump_ability.is_jumping = !found;
    landed
}

/// What it means to be supported: the actor's footprint meets the
/// surface's, and its bottom face is no more than [`GROUND_EPSILON`] below
/// the surface's underside and no more than [`RAY_LENGTH`] above its top.
pub proof fn lemma_support_is_nearness(position: V3, surface: Surface)
    requires
        surface.collider.half_extents.y >= 0,
    ensures
        supported_by(position, surface) <==> ({
            let y_bottom = position.y - PLAYER_HALF_EXTENT;
            let top = surface.center.y + surface.collider.half_extents.y;
            let underside = surface.center.y - surface.collider.half_extents.y;
            &&& footprints_overlap(
                position,
                player_half_extents(),
                surface.center@,
                surface.collider.half_extents@,
            )
            &&& underside - GROUND_EPSILON <= y_bottom <= top + RAY_LENGTH
        }),
{
    lemma_downward_slab(
        position,
        player_half_extents(),
        surface.center@,
        surface.collider.half_extents@,
        GROUND_EPSILON as int,
    );
}

/// When an upright actor's footprint lies within a level surface's and its
/// bottom face is above the surface's top by less than the probe's length,
/// the sampled sweep, at any spacing, and the continuous sweep, at any
/// tolerance, both ground it.
pub proof fn lemma_sweeps_agree_on_support(
    actor_center: V3,
    actor_half: V3,
    surface_center: V3,
    surface_half: V3,
    step: int,
    epsilon: int,
    sampled: Option<int>,
)
    requires
        actor_half.x >= 0,
        actor_half.z >= 0,
        surface_half.y >= 0,
        surface_center.x - surface_half.x <= actor_center.x - actor_half.x,
        actor_center.x + actor_half.x <= surface_center.x + surface_half.x,
        surface_center.z - surface_half.z <= actor_center.z - actor_half.z,
        actor_center.z + actor_half.z <= surface_center.z + surface_half.z,
        0 <= (actor_center.y - actor_half.y) - (surface_center.y + surface_half.y) < RAY_LENGTH,
        step > 0,
        epsilon >= 0,
        is_nearest_sample(
            actor_center,
            actor_half,
            surface_center,
            surface_half,
            step,
            down(),
            sampled,
        ),
    ensures
        is_grounding(sampled),
        is_grounding(slab_hit(actor_center, actor_half, surface_center, surface_half, down(), epsilon)),
{
    assert forall|i: int, j: int| on_face(actor_half, step, i, j) implies is_grounding(
        #[trigger] sample_hit(
            actor_center,
            actor_half,
            surface_center,
            surface_half,
            step,
            down(),
            i,
            j,
        ),
    ) by {
        assert(0 <= i * step) by (nonlinear_arith)
            requires
                0 <= i,
                step > 0,
        ;
        assert(0 <= j * step) by (nonlinear_arith)
            requires
                0 <= j,
                step > 0,
        ;
    }
    assert(on_face(actor_half, step, 0, 0)) by {
        assert(0 * step == 0) by (nonlinear_arith);
    }
    assert(is_grounding(
        sample_hit(actor_center, actor_half, surface_center, surface_half, step, down(), 0, 0),
    ));
}

/// The state of a button.
#[derive(Clone, Copy, Debug, PartialEq, Eq, Structural)]
pub enum ButtonState {
    Pressed,
    Released,
}

/// A mouse button.
#[derive(Clone, Copy, Debug, PartialEq, Eq, Structural)]
pub enum MouseButton {
    Left,
    Right,
    Middle,
    Other,
}

/// A mouse button that went down or up.
#[derive(Clone, Copy, Debug, PartialEq, Eq, Structural)]
pub struct MouseButtonInput {
    pub button: MouseButton,
    pub state: ButtonState,
}

/// The unit in which a wheel movement is measured.
#[derive(Clone, Copy, Debug, PartialEq, Eq, Structural)]
pub enum MouseScrollUnit {
    Line,
    Pixel,
}

/// A movement of the mouse wheel; `y` is above zero for a scroll up.
#[derive(Clone, Copy, Debug, PartialEq, Eq, Structural)]
pub struct MouseWheel {
    pub unit: MouseScrollUnit,
    pub y: i32,
}

/// The cursor after one wheel movement: a line up selects the next slot, a
/// line down the previous one, and both wrap around.
pub open spec fn selected_after_scroll(selected: int, event: MouseWheel) -> int {
    if event.unit == MouseScrollUnit::Line && event.y > 0 {
        (selected + 1) % (SLOT_COUNT as int)
    } else if event.unit == MouseScrollUnit::Line && event.y < 0 {
        (selected + SLOT_COUNT - 1) % (SLOT_COUNT as int)
    } else {
        selected
    }
}

/// The cursor after a run of wheel movements, taken in order.
pub open spec fn selected_after_scrolls(selected: int, events: Seq<MouseWheel>) -> int
    decreases events.len(),
{
    if events.len() == 0 {
        selected
    } else {
        selected_after_scroll(selected_after_scrolls(selected, events.drop_last()), events.last())
    }
}

/// Scrolling one line up and one line down, in either order, leaves the
/// cursor where it was, and five lines in one direction bring it back.
pub proof fn lemma_selection_wraps(selected: int)
    requires
        0 <= selected < SLOT_COUNT,
    ensures
        ({
            let up = MouseWheel { unit: MouseScrollUnit::Line, y: 1 };
            let down = MouseWheel { unit: MouseScrollUnit::Line, y: -1i32 };
            &&& 0 <= selected_after_scroll(selected, up) < SLOT_COUNT
            &&& 0 <= selected_after_scroll(selected, down) < SLOT_COUNT
            &&& selected_after_scroll(selected_after_scroll(selected, up), down) == selected
            &&& selected_after_scroll(selected_after_scroll(selected, down), up) == selected
            &&& selected_after_scrolls(selected, seq![up, up, up, up, up]) == selected
            &&& selected_after_scrolls(selected, seq![down, down, down, down, down]) == selected
        }),
{
    let up = MouseWheel { unit: MouseScrollUnit::Line, y: 1 };
    let down = MouseWheel { unit: MouseScrollUnit::Line, y: -1i32 };
    lemma_same_scrolls(selected, up, 5);
    lemma_same_scrolls(selected, down, 5);
    assert(Seq::new(5, |i: int| up) =~= seq![up, up, up, up, up]);
    assert(Seq::new(5, |i: int| down) =~= seq![down, down, down, down, down]);
}

/// The cursor after the same wheel movement `n` times over.
spec fn selected_after_repeats(selected: int, event: MouseWheel, n: nat) -> int
    decreases n,
{
    if n == 0 {
        selected
    } else {
        selected_after_scroll(selected_after_repeats(selected, event, (n - 1) as nat), event)
    }
}

proof fn lemma_same_scrolls(selected: int, event: MouseWheel, n: nat)
    requires
        0 <= selected < SLOT_COUNT,
    ensures
        selected_after_scrolls(selected, Seq::new(n, |i: int| event)) == selected_after_repeats(
            selected,
            event,
            n,
        ),
        n == 5 && event.unit == MouseScrollUnit::Line && event.y != 0 ==> selected_after_repeats(
            selected,
            event,
            n,
        ) == selected,
    decreases n,
{
    let events = Seq::new(n, |i: int| event);
    if n > 0 {
        lemma_same_scrolls(selected, event, (n - 1) as nat);
        assert(events.drop_last() =~= Seq::new((n - 1) as nat, |i: int| event));
        assert(events.last() == event);
    }
    reveal_with_fuel(selected_after_repeats, 6);
}

/// Moves the selection cursor by the tick's wheel movements.
pub fn change_selected_item_system(inventory: &mut Inventory, scroll_events: &Vec<MouseWheel>)
    ensures
        final(inventory).wf(),
        final(inventory)@.slots == old(inventory)@.slots,
        final(inventory)@.weapon == old(inventory)@.weapon,
        final(inventory)@.selected == selected_after_scrolls(
            old(inventory)@.selected,
            scroll_events@,
        ),
{
    let mut i: usize = 0;
    while i < scroll_events.len()
        invariant
            0 <= i <= scroll_events.len(),
            inventory@.slots == old(inventory)@.slots,
            inventory@.weapon == old(inventory)@.weapon,
            inventory@.selected == selected_after_scrolls(
                old(inventory)@.selected,
                scroll_events@.take(i as int),
            ),
        decreases scroll_events.len() - i,
    {
        let event = scroll_events[i];
        proof {
            assert(scroll_events@.take(i as int + 1).drop_last() =~= scroll_events@.take(i as int));
        }
        match event.unit {
            MouseScrollUnit::Line => {
                if event.y > 0 {
                    inventory.select_next();
                } else if event.y < 0 {
                    inventory.select_previous();
                }
            },
            MouseScrollUnit::Pixel => {},
        }
        i += 1;
    }
    proof {
        assert(scroll_events@.take(i as int) =~= scroll_events@);
        inventory.lemma_always_wf();
    }
}

/// Uses the selected item when the use key went down this tick.
pub fn use_item_system(
    inventory: &mut Inventory,
    player_stats: &mut PlayerStats,
    position: Option<Vec3>,
    direction: Option<Direction>,
    now: u64,
    use_pressed: bool,
) -> (r: Activation)
    ensures
        final(inventory).wf(),
        !use_pressed ==> r == Activation::Nothing && final(inventory)@ == old(inventory)@
            && *final(player_stats) == *old(player_stats),
        use_pressed ==> final(inventory)@.selected == old(inventory)@.selected && match old(
            inventory,
        )@.slots[old(inventory)@.selected] {
            None => {
                &&& r == Activation::Nothing
                &&& final(inventory)@ == old(inventory)@
                &&& *final(player_stats) == *old(player_stats)
            },
            Some(item) => {
                &&& r == crate::components::player::activation_of(item, position, direction, now)
                &&& final(inventory)@.slots == old(inventory)@.slots.update(
                    old(inventory)@.selected,
                    None,
                )
                &&& final(inventory)@.weapon == crate::components::player::weapon_after_use(
                    old(inventory)@.weapon,
                    item,
                )
                &&& *final(player_stats) == stats_after_use(*old(player_stats), item)
            },
        },
{
    proof {
        inventory.lemma_always_wf();
    }
    if use_pressed {
        inventory.use_item(player_stats, position, direction, now)
    } else {
        Activation::Nothing
    }
}

/// Whether an event is a melee attack: the left button going down.
pub open spec fn is_attack(event: MouseButtonInput) -> bool {
    event.button == MouseButton::Left && event.state == ButtonState::Pressed
}

/// The equipped weapon after a run of mouse events: each attack wears it
/// by one use.
pub open spec fn weapon_after_clicks(weapon: Option<Weapon>, events: Seq<MouseButtonInput>) -> Option<
    Weapon,
>
    decreases events.len(),
{
    if events.len() == 0 {
        weapon
    } else {
        let before = weapon_after_clicks(weapon, events.drop_last());
        if is_attack(events.last()) && before is Some {
            Some(worn(before->0))
        } else {
            before
        }
    }
}

/// How many of the events are melee attacks.
pub open spec fn attacks(events: Seq<MouseButtonInput>) -> nat
    decreases events.len(),
{
    if events.len() == 0 {
        0
    } else {
        attacks(events.drop_last()) + if is_attack(events.last()) {
            1nat
        } else {
            0nat
        }
    }
}

/// Wear counts attacks and stops at zero: after a run of events the
/// equipped weapon is the same weapon, and its durability is lower by the
/// number of attacks, or zero where there were more attacks than that.
pub proof fn lemma_wear_counts_attacks(weapon: Weapon, events: Seq<MouseButtonInput>)
    ensures
        weapon_after_clicks(Some(weapon), events) == Some(
            Weapon {
                name: weapon.name,
                description: weapon.description,
                throwable: weapon.throwable,
                durability: if attacks(events) >= weapon.durability {
                    0u16
                } else {
                    (weapon.durability - attacks(events)) as u16
                },
            },
        ),
        weapon_after_clicks(None, events) is None,
    decreases events.len(),
{
    if events.len() > 0 {
        lemma_wear_counts_attacks(weapon, events.drop_last());
    }
}

/// Wears the equipped weapon by the tick's melee attacks.
pub fn melee_system(inventory: &mut Inventory, mouse_input: &Vec<MouseButtonInput>)
    ensures
        final(inventory).wf(),
        final(inventory)@.slots == old(inventory)@.slots,
        final(inventory)@.selected == old(inventory)@.selected,
        final(inventory)@.weapon == weapon_after_clicks(old(inventory)@.weapon, mouse_input@),
{
    let mut i: usize = 0;
    while i < mouse_input.len()
        invariant
            0 <= i <= mouse_input.len(),
            inventory@.slots == old(inventory)@.slots,
            inventory@.selected == old(inventory)@.selected,
            inventory@.weapon == weapon_after_clicks(
                old(inventory)@.weapon,
                mouse_input@.take(i as int),
            ),
        decreases mouse_input.len() - i,
    {
        let event = mouse_input[i];
        proof {
            assert(mouse_input@.take(i as int + 1).drop_last() =~= mouse_input@.take(i as int));
        }
        match (event.button, event.state) {
            (MouseButton::Left, ButtonState::Pressed) => {
                inventory.melee();
            },
            _ => {},
        }
        i += 1;
    }
    proof {
        assert(mouse_input@.take(i as int) =~= mouse_input@);
        inventory.lemma_always_wf();
    }
}

/// Drops the equipped weapon once it is worn out, and says whether it did.
pub fn check_weapon_durability_system(inventory: &mut Inventory) -> (broke: bool)
    ensures
        final(inventory).wf(),
        final(inventory)@.slots == old(inventory)@.slots,
        final(inventory)@.selected == old(inventory)@.selected,
        broke == old(inventory).weapon_broken(),
        final(inventory)@.weapon == if broke {
            None
        } else {
            old(inventory)@.weapon
        },
{
    inventory.check_weapon_durability()
}

/// Whether a boost ends within the next `delta` milliseconds.
pub open spec fn boost_ends(boost: SpeedBoost, delta: u32) -> bool {
    delta >= boost.remaining
}

/// The boosts that are still counting down after `delta` milliseconds,
/// in their old order, each with `delta` less to go.
pub open spec fn boosts_left(boosts: Seq<SpeedBoost>, delta: u32) -> Seq<SpeedBoost>
    decreases boosts.len(),
{
    if boosts.len() == 0 {
        Seq::empty()
    } else {
        let before = boosts_left(boosts.drop_last(), delta);
        let boost = boosts.last();
        if boost_ends(boost, delta) {
            before
        } else {
            before.push(
                SpeedBoost { amount: boost.amount, remaining: (boost.remaining - delta) as u32 },
            )
        }
    }
}

/// The speed after `delta` milliseconds: every boost that ends gives back
/// exactly the amount it added, in order, and the speed stops at the ends
/// of its range.
pub open spec fn speed_after_boosts(speed: int, boosts: Seq<SpeedBoost>, delta: u32) -> int
    decreases boosts.len(),
{
    if boosts.len() == 0 {
        speed
    } else {
        let before = speed_after_boosts(speed, boosts.drop_last(), delta);
        if boost_ends(boosts.last(), delta) {
            clamp_i64(before - boosts.last().amount)
        } else {
            before
        }
    }
}

/// Counts every running boost down by the tick's `delta` milliseconds and
/// takes each one that ends off the speed and off the list.
pub fn speed_boost_system(player_stats: &mut PlayerStats, boosts: &mut Vec<SpeedBoost>, delta: u32)
    ensures
        final(boosts)@ == boosts_left(old(boosts)@, delta),
        final(player_stats).speed as int == speed_after_boosts(
            old(player_stats).speed as int,
            old(boosts)@,
            delta,
        ),
        final(player_stats).health == old(player_stats).health,
{
    let mut kept: Vec<SpeedBoost> = Vec::new();
    let mut i: usize = 0;
    while i < boosts.len()
        invariant
            0 <= i <= boosts.len(),
            *boosts == *old(boosts),
            kept@ == boosts_left(boosts@.take(i as int), delta),
            player_stats.speed as int == speed_after_boosts(
                old(player_stats).speed as int,
                boosts@.take(i as int),
                delta,
            ),
            player_stats.health == old(player_stats).health,
        decreases boosts.len() - i,
    {
        let boost = boosts[i];
        proof {
            assert(boosts@.take(i as int + 1).drop_last() =~= boosts@.take(i as int));
        }
        if delta >= boost.remaining {
            player_stats.speed = shift_stat(player_stats.speed, -(boost.amount as i64));
        } else {
            kept.push(SpeedBoost { amount: boost.amount, remaining: boost.remaining - delta });
        }
        i += 1;
    }
    proof {
        assert(boosts@.take(i as int) =~= boosts@);
    }
    *boosts = kept;
}

/// A speed boost gives back exactly what it added. Using an item that
/// raises speed by `amount` for `duration` raises the speed by just that,
/// as long as the raised speed is one the stat can hold. While less than
/// `duration` has passed the speed stays raised and the boost keeps
/// counting; once `duration` has passed the speed is what it was before
/// and the boost is gone.
pub proof fn lemma_speed_boost_reverts(stats: PlayerStats, item: Item, delta: u32)
    requires
        item.effect is IncreaseSpeed,
        i64::MIN <= stats.speed + item.effect->amount <= i64::MAX,
    ensures
        ({
            let amount = item.effect->amount;
            let duration = item.effect->duration;
            let raised = stats_after_use(stats, item);
            let boost = SpeedBoost { amount, remaining: duration };
            &&& raised.speed == stats.speed + amount
            &&& raised.health == stats.health
            &&& delta >= duration ==> {
                &&& speed_after_boosts(raised.speed as int, seq![boost], delta) == stats.speed
                &&& boosts_left(seq![boost], delta) == Seq::<SpeedBoost>::empty()
            }
            &&& delta < duration ==> {
                &&& speed_after_boosts(raised.speed as int, seq![boost], delta) == raised.speed
                &&& boosts_left(seq![boost], delta) == seq![
                    SpeedBoost { amount, remaining: (duration - delta) as u32 },
                ]
            }
        }),
{
    let amount = item.effect->amount;
    let duration = item.effect->duration;
    let raised = stats_after_use(stats, item);
    let boost = SpeedBoost { amount, remaining: duration };
    let one = seq![boost];
    assert(one.drop_last() =~= Seq::<SpeedBoost>::empty());
    assert(one.last() == boost);
    reveal_with_fuel(speed_after_boosts, 2);
    reveal_with_fuel(boosts_left, 2);
    assert(speed_after_boosts(raised.speed as int, one.drop_last(), delta) == raised.speed);
    assert(boosts_left(one.drop_last(), delta) =~= Seq::<SpeedBoost>::empty());
    if delta < duration {
        assert(boosts_left(one, delta) =~= seq![
            SpeedBoost { amount, remaining: (duration - delta) as u32 },
        ]);
    } else {
        assert(boosts_left(one, delta) =~= Seq::<SpeedBoost>::empty());
    }
}

/// What the boosts that end within `delta` milliseconds added in all.
pub open spec fn given_back(boosts: Seq<SpeedBoost>, delta: u32) -> int
    decreases boosts.len(),
{
    if boosts.len() == 0 {
        0
    } else {
        given_back(boosts.drop_last(), delta) + if boost_ends(boosts.last(), delta) {
            boosts.last().amount as int
        } else {
            0
        }
    }
}

/// Room that a speed must have on either side for boosts to be given back
/// in full: no run of boosts that a list can hold adds up to more.
pub open spec fn headroom() -> int {
    0x4000_0000_0000_0000
}

proof fn lemma_given_back_bound(boosts: Seq<SpeedBoost>, delta: u32)
    ensures
        -0x8000_0000 * boosts.len() <= given_back(boosts, delta) <= 0x8000_0000 * boosts.len(),
    decreases boosts.len(),
{
    if boosts.len() > 0 {
        lemma_given_back_bound(boosts.drop_last(), delta);
    }
}

/// Boosts that run side by side each give back their own amount: after a
/// tick the speed is lower by exactly the sum of what the ended boosts had
/// added, for every speed with [`headroom`] on both sides and every list
/// that fits in memory.
pub proof fn lemma_boosts_give_back_their_sum(speed: int, boosts: Seq<SpeedBoost>, delta: u32)
    requires
        i64::MIN + headroom() <= speed <= i64::MAX - headroom(),
        boosts.len() <= 0x4000_0000,
    ensures
        speed_after_boosts(speed, boosts, delta) == speed - given_back(boosts, delta),
    decreases boosts.len(),
{
    if boosts.len() > 0 {
        lemma_boosts_give_back_their_sum(speed, boosts.drop_last(), delta);
        lemma_given_back_bound(boosts.drop_last(), delta);
    }
}

/// The countdown does not depend on how time is cut into ticks: two ticks
/// leave the boosts that one tick of their combined length leaves.
pub proof fn lemma_ticks_add_up(boosts: Seq<SpeedBoost>, first: u32, second: u32)
    requires
        first + second <= u32::MAX,
    ensures
        boosts_left(boosts_left(boosts, first), second) == boosts_left(
            boosts,
            (first + second) as u32,
        ),
    decreases boosts.len(),
{
    let both = (first + second) as u32;
    if boosts.len() == 0 {
        assert(boosts_left(boosts, first) =~= Seq::<SpeedBoost>::empty());
    } else {
        lemma_ticks_add_up(boosts.drop_last(), first, second);
        let before = boosts_left(boosts.drop_last(), first);
        let boost = boosts.last();
        if !boost_ends(boost, first) {
            let ticked = SpeedBoost {
                amount: boost.amount,
                remaining: (boost.remaining - first) as u32,
            };
            assert(boosts_left(boosts, first) == before.push(ticked));
            assert(before.push(ticked).drop_last() =~= before);
            assert(before.push(ticked).last() == ticked);
        }
    }
}

/// Picks an item up from the world: it goes into the lowest empty slot and
/// leaves the world, or stays in the world when the inventory is full.
/// Returns whether the item was taken.
pub fn handle_item_pickup(inventory: &mut Inventory, item: Item) -> (taken: bool)
    ensures
        final(inventory).wf(),
        final(inventory)@.weapon == old(inventory)@.weapon,
        final(inventory)@.selected == old(inventory)@.selected,
        taken == !all_occupied(old(inventory)@.slots),
        taken ==> exists|k: int|
            is_first_empty(old(inventory)@.slots, k) && final(inventory)@.slots == old(
                inventory,
            )@.slots.update(k, Some(item)),
        !taken ==> final(inventory)@ == old(inventory)@,
{
    match inventory.add_item(item) {
        Ok(_) => true,
        Err(_) => false,
    }
}

/// The direction that the movement keys ask for, before it is turned by
/// the actor's heading: forward is towards negative `z`, right towards
/// positive `x`, and opposite keys cancel.
pub open spec fn intent(forward: bool, back: bool, left: bool, right: bool) -> V3 {
    V3 {
        x: (if right { 1000int } else { 0 }) - (if left { 1000int } else { 0 }),
        y: 0,
        z: (if back { 1000int } else { 0 }) - (if forward { 1000int } else { 0 }),
    }
}

/// Reads the movement keys into a direction.
pub fn movement_intent(forward: bool, back: bool, left: bool, right: bool) -> (r: Vec3)
    ensures
        r@ == intent(forward, back, left, right),
{
    let mut x: i32 = 0;
    let mut z: i32 = 0;
    if forward {
        z = z - 1000;
    }
    if back {
        z = z + 1000;
    }
    if left {
        x = x - 1000;
    }
    if right {
        x = x + 1000;
    }
    Vec3 { x, y: 0, z }
}

/// Answers the jump key: a grounded actor whose jump key went down this
/// tick takes off. Returns whether the caller is to apply the jump impulse.
pub fn jump_system(jump_ability: &mut JumpAbility, jump_pressed: bool) -> (jumped: bool)
    ensures
        jumped == (jump_pressed && !old(jump_ability).is_jumping),
        final(jump_ability).is_jumping == (old(jump_ability).is_jumping || jump_pressed),
{
    if jump_pressed {
        jump_ability.try_jump()
    } else {
        false
    }
}

} // verus!
