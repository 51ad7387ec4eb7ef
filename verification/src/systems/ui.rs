//! What the heads-up display shows of an inventory.

use vstd::prelude::*;
use crate::components::player::{Inventory, SLOT_COUNT};
use crate::components::ui::InventorySlot;

verus! {

/// What is to happen to the picture in a slot's node.
#[derive(Clone, Copy, Debug, PartialEq, Eq, Structural)]
pub enum ImageChange {
    /// The node already shows what it should.
    Keep,
    /// The slot is filled and has no picture yet.
    Spawn,
    /// The slot is empty and still has a picture.
    Remove,
}

/// How one slot's node is to look.
#[derive(Clone, Copy, Debug, PartialEq, Eq, Structural)]
pub struct SlotDisplay {
    /// Whether the node carries the selection border.
    pub highlighted: bool,
    pub image: ImageChange,
}

/// The change that brings a node's picture in line with its slot.
pub open spec fn image_change(filled: bool, has_image: bool) -> ImageChange {
    if filled && !has_image {
        ImageChange::Spawn
    } else if !filled && has_image {
        ImageChange::Remove
    } else {
        ImageChange::Keep
    }
}

/// Whether the slot that `marker` names exists and holds an item.
pub open spec fn slot_filled(inventory: &Inventory, marker: InventorySlot) -> bool {
    marker.slot < SLOT_COUNT && inventory@.slots[marker.slot as int] is Some
}

/// Decides how an inventory slot's node is to look: it is highlighted when
/// it is the selected slot, and gains or loses its picture as the slot is
/// filled or emptied. A marker that names no slot is shown as empty.
pub fn update_inventory_ui_system(
    inventory: &Inventory,
    slot_marker: InventorySlot,
    has_image: bool,
) -> (r: SlotDisplay)
    ensures
        r.highlighted == (slot_marker.slot as int == inventory@.selected),
        r.image == image_change(slot_filled(inventory, slot_marker), has_image),
{
    let filled = inventory.slot(slot_marker.slot).is_some();
    let image = if filled && !has_image {
        ImageChange::Spawn
    } else if !filled && has_image {
        ImageChange::Remove
    } else {
        ImageChange::Keep
    };
    SlotDisplay { highlighted: slot_marker.slot == inventory.current_selected_item(), image }
}

/// Decides what is to happen to the weapon slot's picture.
pub fn weapon_slot_change(inventory: &Inventory, has_image: bool) -> (r: ImageChange)
    ensures
        r == image_change(inventory@.weapon is Some, has_image),
{
    let filled = inventory.weapon().is_some();
    if filled && !has_image {
        ImageChange::Spawn
    } else if !filled && has_image {
        ImageChange::Remove
    } else {
        ImageChange::Keep
    }
}

/// The durability to print beside the equipped weapon, if one is equipped.
pub fn update_durability_text_system(inventory: &Inventory) -> (r: Option<u16>)
    ensures
        match inventory@.weapon {
            Some(weapon) => r == Some(weapon.durability),
            None => r is None,
        },
{
    match inventory.weapon() {
        Some(weapon) => Some(weapon.durability),
        None => None,
    }
}

} // verus!
