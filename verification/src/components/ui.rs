//! Markers for the nodes of the heads-up display.

use vstd::prelude::*;

verus! {

/// What a line of the debug overlay shows.
#[derive(Clone, Copy, Debug, PartialEq, Eq, Structural)]
pub enum Info {
    Position,
    FPS,
    Direction,
}

/// A line of the debug overlay.
#[derive(Clone, Copy, Debug)]
pub struct InfoText {
    pub info: Info,
}

/// Marks the frame-rate readout.
#[derive(Debug)]
pub struct FpsText;

/// Marks the node that displays the inventory.
#[derive(Debug)]
pub struct InventoryUI;

/// Marks the node of one inventory slot.
#[derive(Clone, Copy, Debug)]
pub struct InventorySlot {
    pub slot: usize,
}

/// Marks the picture shown in a filled inventory slot.
#[derive(Debug)]
pub struct InventorySlotImage;

/// Marks the node of the weapon slot.
#[derive(Debug)]
pub struct WeaponSlot;

/// Marks the picture shown in a filled weapon slot.
#[derive(Debug)]
pub struct WeaponSlotImage;

/// Marks the readout of the equipped weapon's durability.
#[derive(Debug)]
pub struct WeaponDurabilityText;

} // verus!
