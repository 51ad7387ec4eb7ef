//! The player's stats, items and inventory.

use vstd::prelude::*;
use crate::math::{clamp_i32, saturate_i32, Vec3};

verus! {

/// Marks the player's entity.
#[derive(Debug)]
pub struct Player;

/// Whether the actor is in the air.
#[derive(Clone, Copy, Debug)]
pub struct JumpAbility {
    pub is_jumping: bool,
}

impl Default for JumpAbility {
    /// An actor starts in the air and lands on its first supported tick.
    fn default() -> (r: Self)
        ensures
            r.is_jumping,
    {
        JumpAbility { is_jumping: true }
    }
}

impl JumpAbility {
    /// Answers a jump request: a grounded actor takes off, an airborne one
    /// stays as it is. Returns whether the actor took off.
    pub fn try_jump(&mut self) -> (jumped: bool)
        ensures
            jumped == !old(self).is_jumping,
            final(self).is_jumping,
    {
        if self.is_jumping {
            false
        } else {
            self.is_jumping = true;
            true
        }
    }
}

/// Health and speed, in fixed-point steps.
#[derive(Clone, Copy, Debug, PartialEq, Eq, Structural)]
pub struct PlayerStats {
    pub health: i64,
    pub speed: i64,
}

impl Default for PlayerStats {
    fn default() -> (r: Self)
        ensures
            r == (PlayerStats { health: 100_000, speed: 15_000 }),
    {
        PlayerStats { health: 100_000, speed: 15_000 }
    }
}

/// The value in the `i64` range that lies nearest to `v`.
pub open spec fn clamp_i64(v: int) -> int {
    if v < i64::MIN {
        i64::MIN as int
    } else if v > i64::MAX {
        i64::MAX as int
    } else {
        v
    }
}

/// Moves a stat by `delta`, stopping at the ends of the range.
pub fn shift_stat(stat: i64, delta: i64) -> (r: i64)
    ensures
        r as int == clamp_i64(stat + delta),
{
    match stat.checked_add(delta) {
        Some(v) => v,
        None => if delta > 0 {
            i64::MAX
        } else {
            i64::MIN
        },
    }
}

/// The way the actor faces.
#[derive(Clone, Copy, Debug)]
pub struct Direction {
    pub direction: Vec3,
}

impl Default for Direction {
    fn default() -> (r: Self)
        ensures
            r.direction == (Vec3 { x: 0, y: 0, z: 0 }),
    {
        Direction { direction: Vec3 { x: 0, y: 0, z: 0 } }
    }
}

/// The category of an item.
#[derive(Clone, Copy, Debug, PartialEq, Eq, Structural)]
pub enum ItemType {
    Passive,
    Active,
    Weapon,
}

/// A melee weapon that wears out.
#[derive(Clone, Debug)]
pub struct Weapon {
    pub name: String,
    pub description: String,
    pub throwable: bool,
    pub durability: u16,
}

impl Weapon {
    /// Wears the weapon by one use; a worn-out weapon stays at zero.
    pub fn decrement_durability(&mut self)
        ensures
            final(self).durability as int == if old(self).durability == 0 {
                0int
            } else {
                old(self).durability - 1
            },
            final(self).name == old(self).name,
            final(self).description == old(self).description,
            final(self).throwable == old(self).throwable,
    {
        self.durability = self.durability.saturating_sub(1);
    }
}

/// What an item does when it is used.
#[derive(Clone, Debug)]
pub enum ItemEffect {
    /// Raises speed by `amount` for `duration` milliseconds.
    IncreaseSpeed { amount: i32, duration: u32 },
    /// Restores health.
    Heal(i32),
    /// Throws a projectile drawn with the given mesh and material.
    Throw(u64, u64),
    /// Equips a weapon.
    WeaponItem(Weapon),
}

/// A speed boost that is counting down.
#[derive(Clone, Copy, Debug, PartialEq, Eq, Structural)]
pub struct SpeedBoost {
    /// What was added to the speed and will be taken off again.
    pub amount: i32,
    /// Milliseconds until the boost ends.
    pub remaining: u32,
}

/// Something that can be picked up, carried and used.
#[derive(Clone, Debug)]
pub struct Item {
    pub name: String,
    pub description: String,
    pub type_: ItemType,
    pub effect: ItemEffect,
}

impl Item {
    /// The pickup that raises speed by 10 units for 10 seconds.
    pub fn increase_speed() -> (r: Item)
        ensures
            r.name@ == "Increase Speed"@,
            r.description@ == "Add increasing speed for amount of time"@,
            r.type_ == ItemType::Passive,
            r.effect == (ItemEffect::IncreaseSpeed { amount: 10_000, duration: 10_000 }),
    {
        Item {
            name: "Increase Speed".to_string(),
            description: "Add increasing speed for amount of time".to_string(),
            type_: ItemType::Passive,
            effect: ItemEffect::IncreaseSpeed { amount: 10_000, duration: 10_000 },
        }
    }

    /// The rock: an item to throw, drawn with the given mesh and material.
    pub fn rock(mesh: u64, material: u64) -> (r: Item)
        ensures
            r.name@ == "Rock"@,
            r.description@ == "Batu buat lu lempar"@,
            r.type_ == ItemType::Active,
            r.effect == ItemEffect::Throw(mesh, material),
    {
        Item {
            name: "Rock".to_string(),
            description: "Batu buat lu lempar".to_string(),
            type_: ItemType::Active,
            effect: ItemEffect::Throw(mesh, material),
        }
    }
}

/// Speed of a thrown projectile, in world units per second.
pub const THROW_SPEED: i64 = 30;

/// How far above the actor a projectile starts.
pub const THROW_RISE: i64 = 1000;

/// How long a projectile lives, in milliseconds.
pub const THROW_LIFETIME: u64 = 5000;

/// Collision group of the player.
pub const GROUP_PLAYER: u32 = 1;

/// Collision group of ground, walls and items.
pub const GROUP_WORLD: u32 = 2;

/// Collision group of thrown projectiles.
pub const GROUP_PROJECTILE: u32 = 4;

/// The groups that the player reacts to: the world's and the projectiles'.
pub const PLAYER_FILTERS: u32 = 6;

/// Whether two colliders react to each other: each must belong to a group
/// that the other reacts to.
pub open spec fn groups_interact(
    memberships_a: u32,
    filters_a: u32,
    memberships_b: u32,
    filters_b: u32,
) -> bool {
    (memberships_a & filters_b) != 0 && (memberships_b & filters_a) != 0
}

/// A request to spawn a thrown projectile.
#[derive(Clone, Copy, Debug, PartialEq, Eq, Structural)]
pub struct Projectile {
    pub position: Vec3,
    pub velocity: Vec3,
    /// The clock reading at the throw, in milliseconds.
    pub spawn_time: u64,
    /// Milliseconds after which the projectile is removed.
    pub lifetime: u64,
    /// The collision groups the projectile belongs to.
    pub memberships: u32,
    /// The collision groups the projectile reacts to.
    pub filters: u32,
    pub mesh: u64,
    pub material: u64,
}

/// The projectile that a throw from `position` along `facing` at clock
/// reading `now` asks for. It starts one facing step ahead of the actor and
/// [`THROW_RISE`] above it, flies at [`THROW_SPEED`] along `facing`, and
/// reacts to the world's group alone, so never to the actor that threw it.
/// Components that leave the coordinate range stop at its ends.
pub open spec fn thrown_projectile(
    position: Vec3,
    facing: Vec3,
    now: u64,
    mesh: u64,
    material: u64,
) -> Projectile {
    Projectile {
        position: Vec3 {
            x: clamp_i32(position.x + facing.x) as i32,
            y: clamp_i32(position.y + THROW_RISE) as i32,
            z: clamp_i32(position.z + facing.z) as i32,
        },
        velocity: Vec3 {
            x: clamp_i32(THROW_SPEED * facing.x) as i32,
            y: clamp_i32(THROW_SPEED * facing.y) as i32,
            z: clamp_i32(THROW_SPEED * facing.z) as i32,
        },
        spawn_time: now,
        lifetime: THROW_LIFETIME,
        memberships: GROUP_PROJECTILE,
        filters: GROUP_WORLD,
        mesh,
        material,
    }
}

/// Builds the spawn request of a throw.
pub fn throw_projectile(position: Vec3, facing: Vec3, now: u64, mesh: u64, material: u64) -> (r:
    Projectile)
    ensures
        r == thrown_projectile(position, facing, now, mesh, material),
{
    Projectile {
        position: Vec3 {
            x: saturate_i32(position.x as i64 + facing.x as i64),
            y: saturate_i32(position.y as i64 + THROW_RISE),
            z: saturate_i32(position.z as i64 + facing.z as i64),
        },
        velocity: Vec3 {
            x: saturate_i32(THROW_SPEED * (facing.x as i64)),
            y: saturate_i32(THROW_SPEED * (facing.y as i64)),
            z: saturate_i32(THROW_SPEED * (facing.z as i64)),
        },
        spawn_time: now,
        lifetime: THROW_LIFETIME,
        memberships: GROUP_PROJECTILE,
        filters: GROUP_WORLD,
        mesh,
        material,
    }
}

/// A thrown projectile never reacts to the player, and reacts to every
/// collider that belongs to the world's group and reacts to projectiles.
pub proof fn lemma_projectile_groups(
    position: Vec3,
    facing: Vec3,
    now: u64,
    mesh: u64,
    material: u64,
    memberships: u32,
    filters: u32,
)
    ensures
        !groups_interact(
            thrown_projectile(position, facing, now, mesh, material).memberships,
            thrown_projectile(position, facing, now, mesh, material).filters,
            GROUP_PLAYER,
            PLAYER_FILTERS,
        ),
        (memberships & GROUP_WORLD) != 0 && (filters & GROUP_PROJECTILE) != 0 ==> groups_interact(
            thrown_projectile(position, facing, now, mesh, material).memberships,
            thrown_projectile(position, facing, now, mesh, material).filters,
            memberships,
            filters,
        ),
{
    assert(1u32 & 2u32 == 0u32) by (bit_vector);
    assert(forall|a: u32, b: u32| #[trigger] (a & b) == b & a) by (bit_vector);
}

/// What using the selected item did.
#[derive(Clone, Copy, Debug, PartialEq, Eq, Structural)]
pub enum Activation {
    /// The selected slot was empty.
    Nothing,
    /// Health went up.
    Healed,
    /// Speed went up; the boost is to be ticked until it ends.
    SpeedBoosted(SpeedBoost),
    /// A projectile is to be spawned.
    Thrown(Projectile),
    /// The item was spent, but with no position or facing nothing flew.
    ThrowSkipped,
    /// The item's weapon is now the equipped one.
    Equipped,
}

/// Number of item slots in an inventory.
pub const SLOT_COUNT: usize = 5;

/// What an [`Inventory`] holds.
pub ghost struct InventoryView {
    pub slots: Seq<Option<Item>>,
    pub weapon: Option<Weapon>,
    pub selected: int,
}

/// The selection cursor: the index of one of the slots.
struct Cursor {
    index: usize,
}

impl Cursor {
    #[verifier::type_invariant]
    spec fn on_a_slot(self) -> bool {
        self.index < SLOT_COUNT
    }

    fn get(&self) -> (r: usize)
        ensures
            r == self.index,
            r < SLOT_COUNT,
    {
        proof {
            use_type_invariant(&*self);
        }
        self.index
    }

    /// Moves the cursor `by` slots on, past the last slot to the first.
    fn advance(&mut self, by: usize)
        requires
            by <= SLOT_COUNT,
        ensures
            old(self).index < SLOT_COUNT,
            final(self).index as int == (old(self).index + by) % (SLOT_COUNT as int),
    {
        proof {
            use_type_invariant(&*self);
        }
        self.index = (self.index + by) % SLOT_COUNT;
    }
}

/// Five item slots, one weapon slot and a selection cursor. The cursor is
/// on one of the five slots in every inventory that exists.
pub struct Inventory {
    slots: [Option<Item>; 5],
    weapon: Option<Weapon>,
    current_selected_item: Cursor,
}

impl View for Inventory {
    type V = InventoryView;

    closed spec fn view(&self) -> InventoryView {
        InventoryView {
            slots: self.slots@,
            weapon: self.weapon,
            selected: (self.current_selected_item.index % SLOT_COUNT) as int,
        }
    }
}

/// Whether `k` is the lowest empty slot.
pub open spec fn is_first_empty(slots: Seq<Option<Item>>, k: int) -> bool {
    &&& 0 <= k < slots.len()
    &&& slots[k] is None
    &&& forall|j: int| 0 <= j < k ==> (#[trigger] slots[j]) is Some
}

/// Whether every slot holds an item.
pub open spec fn all_occupied(slots: Seq<Option<Item>>) -> bool {
    forall|j: int| 0 <= j < slots.len() ==> (#[trigger] slots[j]) is Some
}

/// The weapon after one more use.
pub open spec fn worn(w: Weapon) -> Weapon {
    Weapon {
        name: w.name,
        description: w.description,
        throwable: w.throwable,
        durability: if w.durability == 0 {
            0u16
        } else {
            (w.durability - 1) as u16
        },
    }
}

/// The stats after `item` took effect.
pub open spec fn stats_after_use(stats: PlayerStats, item: Item) -> PlayerStats {
    match item.effect {
        ItemEffect::IncreaseSpeed { amount, duration } => PlayerStats {
            health: stats.health,
            speed: clamp_i64(stats.speed + amount) as i64,
        },
        ItemEffect::Heal(amount) => PlayerStats {
            health: clamp_i64(stats.health + amount) as i64,
            speed: stats.speed,
        },
        _ => stats,
    }
}

/// The equipped weapon after `item` took effect: an equipping item
/// replaces whatever was equipped, any other leaves it.
pub open spec fn weapon_after_use(weapon: Option<Weapon>, item: Item) -> Option<Weapon> {
    match item.effect {
        ItemEffect::WeaponItem(w) => Some(w),
        _ => weapon,
    }
}

/// What the caller is told after `item` took effect.
pub open spec fn activation_of(
    item: Item,
    position: Option<Vec3>,
    facing: Option<Direction>,
    now: u64,
) -> Activation {
    match item.effect {
        ItemEffect::IncreaseSpeed { amount, duration } => Activation::SpeedBoosted(
            SpeedBoost { amount, remaining: duration },
        ),
        ItemEffect::Heal(amount) => Activation::Healed,
        ItemEffect::Throw(mesh, material) => if position is Some && facing is Some {
            Activation::Thrown(
                thrown_projectile(position->0, facing->0.direction, now, mesh, material),
            )
        } else {
            Activation::ThrowSkipped
        },
        ItemEffect::WeaponItem(w) => Activation::Equipped,
    }
}

impl Inventory {
    /// Whether the inventory has its five slots and a cursor on one of
    /// them, as every inventory that the program holds has.
    pub open spec fn wf(&self) -> bool {
        &&& self@.slots.len() == SLOT_COUNT
        &&& 0 <= self@.selected < SLOT_COUNT
    }

    /// Every inventory has its five slots and a cursor on one of them.
    pub proof fn lemma_always_wf(self)
        ensures
            self.wf(),
    {
    }

    /// Creates a new, empty inventory.
    pub fn new() -> (r: Self)
        ensures
            r.wf(),
            forall|i: int| 0 <= i < SLOT_COUNT ==> (#[trigger] r@.slots[i]) is None,
            r@.weapon is None,
            r@.selected == 0,
    {
        Inventory {
            slots: [None, None, None, None, None],
            weapon: None,
            current_selected_item: Cursor { index: 0 },
        }
    }

    /// Puts `item` into the lowest empty slot, or hands it back when every
    /// slot is taken.
    pub fn add_item(&mut self, item: Item) -> (r: Result<(), Item>)
        ensures
            final(self).wf(),
            final(self)@.weapon == old(self)@.weapon,
            final(self)@.selected == old(self)@.selected,
            r is Err <==> all_occupied(old(self)@.slots),
            match r {
                Ok(_) => exists|k: int|
                    is_first_empty(old(self)@.slots, k) && final(self)@.slots == old(
                        self,
                    )@.slots.update(k, Some(item)),
                Err(back) => back == item && final(self)@ == old(self)@,
            },
    {
        let mut i: usize = 0;
        while i < SLOT_COUNT
            invariant
                0 <= i <= SLOT_COUNT,
                self.wf(),
                *self == *old(self),
                forall|j: int| 0 <= j < i ==> (#[trigger] self.slots@[j]) is Some,
            decreases SLOT_COUNT - i,
        {
            if self.slots[i].is_none() {
                self.slots[i] = Some(item);
                proof {
                    assert(self.slots@ =~= old(self).slots@.update(i as int, Some(item)));
                    assert(is_first_empty(old(self)@.slots, i as int));
                }
                return Ok(());
            }
            i += 1;
        }
        Err(item)
    }

    /// Empties the slot at `index` and returns what it held. An index past
    /// the last slot changes nothing.
    pub fn remove_item(&mut self, index: usize) -> (r: Option<Item>)
        ensures
            final(self).wf(),
            final(self)@.weapon == old(self)@.weapon,
            final(self)@.selected == old(self)@.selected,
            index < SLOT_COUNT ==> r == old(self)@.slots[index as int] && final(self)@.slots == old(
                self,
            )@.slots.update(index as int, None),
            index >= SLOT_COUNT ==> r is None && final(self)@ == old(self)@,
    {
        if index < SLOT_COUNT {
            let taken = self.slots[index].take();
            proof {
                assert(self.slots@ =~= old(self).slots@.update(index as int, None));
            }
            taken
        } else {
            None
        }
    }

    /// Moves the cursor to the next slot, from the last one to the first.
    pub fn select_next(&mut self)
        ensures
            final(self).wf(),
            final(self)@.selected == (old(self)@.selected + 1) % (SLOT_COUNT as int),
            final(self)@.slots == old(self)@.slots,
            final(self)@.weapon == old(self)@.weapon,
    {
        self.current_selected_item.advance(1);
    }

    /// Moves the cursor to the previous slot, from the first one to the
    /// last.
    pub fn select_previous(&mut self)
        ensures
            final(self).wf(),
            final(self)@.selected == (old(self)@.selected + SLOT_COUNT - 1) % (SLOT_COUNT as int),
            final(self)@.slots == old(self)@.slots,
            final(self)@.weapon == old(self)@.weapon,
    {
        self.current_selected_item.advance(SLOT_COUNT - 1);
    }

    /// Uses the selected item. The item leaves its slot and takes effect:
    /// it heals, boosts speed, asks for a projectile, or moves its weapon
    /// into the weapon slot. An empty slot changes nothing.
    pub fn use_item(
        &mut self,
        player: &mut PlayerStats,
        position: Option<Vec3>,
        direction: Option<Direction>,
        now: u64,
    ) -> (r: Activation)
        ensures
            final(self).wf(),
            final(self)@.selected == old(self)@.selected,
            match old(self)@.slots[old(self)@.selected] {
                None => {
                    &&& r == Activation::Nothing
                    &&& final(self)@ == old(self)@
                    &&& *final(player) == *old(player)
                },
                Some(item) => {
                    &&& r == activation_of(item, position, direction, now)
                    &&& final(self)@.slots == old(self)@.slots.update(old(self)@.selected, None)
                    &&& final(self)@.weapon == weapon_after_use(old(self)@.weapon, item)
                    &&& *final(player) == stats_after_use(*old(player), item)
                },
            },
    {
        let selected = self.current_selected_item.get();
        match self.remove_item(selected) {
            None => {
                assert(self.slots@ =~= old(self).slots@);
                Activation::Nothing
            },
            Some(item) => {
                match item.effect {
                    ItemEffect::IncreaseSpeed { amount, duration } => {
                        player.speed = shift_stat(player.speed, amount as i64);
                        Activation::SpeedBoosted(SpeedBoost { amount, remaining: duration })
                    },
                    ItemEffect::Heal(amount) => {
                        player.health = shift_stat(player.health, amount as i64);
                        Activation::Healed
                    },
                    ItemEffect::Throw(mesh, material) => {
                        match (position, direction) {
                            (Some(origin), Some(facing)) => Activation::Thrown(
                                throw_projectile(origin, facing.direction, now, mesh, material),
                            ),
                            _ => Activation::ThrowSkipped,
                        }
                    },
                    ItemEffect::WeaponItem(weapon) => {
                        self.weapon = Some(weapon);
                        Activation::Equipped
                    },
                }
            },
        }
    }

    /// Answers a melee attack: the equipped weapon, if there is one, wears
    /// by one use.
    pub fn melee(&mut self)
        ensures
            final(self).wf(),
            final(self)@.slots == old(self)@.slots,
            final(self)@.selected == old(self)@.selected,
            final(self)@.weapon == match old(self)@.weapon {
                Some(w) => Some(worn(w)),
                None => None,
            },
    {
        match self.weapon.take() {
            Some(mut weapon) => {
                weapon.decrement_durability();
                self.weapon = Some(weapon);
            },
            None => {},
        }
    }

    /// Whether a worn-out weapon is equipped.
    pub open spec fn weapon_broken(&self) -> bool {
        self@.weapon is Some && self@.weapon->0.durability == 0
    }

    /// Drops the equipped weapon when it is worn out, and says whether it
    /// did.
    pub fn check_weapon_durability(&mut self) -> (broke: bool)
        ensures
            final(self).wf(),
            final(self)@.slots == old(self)@.slots,
            final(self)@.selected == old(self)@.selected,
            broke == old(self).weapon_broken(),
            final(self)@.weapon == if broke {
                None
            } else {
                old(self)@.weapon
            },
    {
        let broken = match &self.weapon {
            Some(weapon) => weapon.durability == 0,
            None => false,
        };
        if broken {
            self.weapon = None;
        }
        broken
    }

    /// The item in the slot at `index`, if the slot exists and is filled.
    pub fn slot(&self, index: usize) -> (r: Option<&Item>)
        ensures
            index < SLOT_COUNT ==> match self@.slots[index as int] {
                Some(item) => r == Some(&item),
                None => r is None,
            },
            index >= SLOT_COUNT ==> r is None,
    {
        if index < SLOT_COUNT {
            self.slots[index].as_ref()
        } else {
            None
        }
    }

    /// The equipped weapon.
    pub fn weapon(&self) -> (r: Option<&Weapon>)
        ensures
            match self@.weapon {
                Some(w) => r == Some(&w),
                None => r is None,
            },
    {
        self.weapon.as_ref()
    }

    /// The index of the selected slot.
    pub fn current_selected_item(&self) -> (r: usize)
        ensures
            r < SLOT_COUNT,
            r as int == self@.selected,
    {
        self.current_selected_item.get()
    }
}

} // verus!
