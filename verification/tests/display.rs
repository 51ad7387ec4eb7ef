use gameplay_core::components::camera::CameraSensitivity;
use gameplay_core::components::player::{Inventory, Item, ItemEffect, ItemType, PlayerStats, Weapon};
use gameplay_core::components::ui::InventorySlot;
use gameplay_core::math::Vec3;
use gameplay_core::resources::camera::{CameraMode, CameraState};
use gameplay_core::resources::game::{half_extents_of, halve, WallSide, WorldAttribute};
use gameplay_core::states::GameState;
use gameplay_core::systems::camera::{tilt, toggle_camera_mode_system, PITCH_LIMIT};
use gameplay_core::systems::ui::{
    update_durability_text_system, update_inventory_ui_system, weapon_slot_change, ImageChange,
    SlotDisplay,
};

fn blade() -> Item {
    Item {
        name: String::from("Golok"),
        description: String::from("a blade"),
        type_: ItemType::Weapon,
        effect: ItemEffect::WeaponItem(Weapon {
            name: String::from("Golok"),
            description: String::from("a blade"),
            throwable: false,
            durability: 12,
        }),
    }
}

#[test]
fn camera_mode_toggles_on_the_key() {
    let mut state = CameraState::default();
    assert_eq!(state.mode, CameraMode::ThirdPerson);
    toggle_camera_mode_system(&mut state, false);
    assert_eq!(state.mode, CameraMode::ThirdPerson);
    toggle_camera_mode_system(&mut state, true);
    assert_eq!(state.mode, CameraMode::FirstPerson);
    toggle_camera_mode_system(&mut state, true);
    assert_eq!(state.mode, CameraMode::ThirdPerson);
    assert_eq!(CameraMode::default(), CameraMode::ThirdPerson);
}

#[test]
fn pitch_is_kept_from_flipping() {
    assert_eq!(PITCH_LIMIT, 1_560_796);
    assert_eq!(tilt(0, 100_000), 100_000);
    assert_eq!(tilt(1_500_000, 100_000), 1_560_796);
    assert_eq!(tilt(-1_500_000, -100_000), -1_560_796);
    assert_eq!(tilt(1_560_796, -796), 1_560_000);
    assert_eq!(tilt(i32::MAX, i32::MAX), 1_560_796);
    assert_eq!(tilt(i32::MIN, i32::MIN), -1_560_796);
}

#[test]
fn camera_sensitivity_default() {
    assert_eq!(CameraSensitivity::default(), CameraSensitivity { x: 3000, y: 2000 });
}

#[test]
fn game_starts_in_the_menu() {
    assert_eq!(GameState::default(), GameState::Menu);
    assert_ne!(GameState::default(), GameState::Game);
}

#[test]
fn slot_display_follows_the_inventory() {
    let mut inventory = Inventory::new();
    assert!(inventory.add_item(blade()).is_ok());
    inventory.select_next();
    assert_eq!(
        update_inventory_ui_system(&inventory, InventorySlot { slot: 0 }, false),
        SlotDisplay { highlighted: false, image: ImageChange::Spawn }
    );
    assert_eq!(
        update_inventory_ui_system(&inventory, InventorySlot { slot: 0 }, true),
        SlotDisplay { highlighted: false, image: ImageChange::Keep }
    );
    assert_eq!(
        update_inventory_ui_system(&inventory, InventorySlot { slot: 1 }, true),
        SlotDisplay { highlighted: true, image: ImageChange::Remove }
    );
    assert_eq!(
        update_inventory_ui_system(&inventory, InventorySlot { slot: 1 }, false),
        SlotDisplay { highlighted: true, image: ImageChange::Keep }
    );
    assert_eq!(
        update_inventory_ui_system(&inventory, InventorySlot { slot: 9 }, true),
        SlotDisplay { highlighted: false, image: ImageChange::Remove }
    );
}

#[test]
fn weapon_slot_follows_the_equipped_weapon() {
    let mut inventory = Inventory::new();
    assert_eq!(weapon_slot_change(&inventory, false), ImageChange::Keep);
    assert_eq!(weapon_slot_change(&inventory, true), ImageChange::Remove);
    assert_eq!(update_durability_text_system(&inventory), None);
    assert!(inventory.add_item(blade()).is_ok());
    let mut stats = PlayerStats::default();
    inventory.use_item(&mut stats, None, None, 0);
    assert_eq!(weapon_slot_change(&inventory, false), ImageChange::Spawn);
    assert_eq!(weapon_slot_change(&inventory, true), ImageChange::Keep);
    assert_eq!(update_durability_text_system(&inventory), Some(12));
}

#[test]
fn walls_stand_on_the_edges_of_the_field() {
    let world = WorldAttribute::default();
    assert_eq!(world.width, 100_000);
    assert_eq!(world.wall_position(WallSide::Front), Vec3::new(0, 12_500, 50_000));
    assert_eq!(world.wall_position(WallSide::Back), Vec3::new(0, 12_500, -50_000));
    assert_eq!(world.wall_position(WallSide::Right), Vec3::new(50_000, 12_500, 0));
    assert_eq!(world.wall_position(WallSide::Left), Vec3::new(-50_000, 12_500, 0));
    assert_eq!(world.wall_size(WallSide::Front), Vec3::new(100_000, 25_000, 5_000));
    assert_eq!(world.wall_size(WallSide::Back), Vec3::new(100_000, 25_000, 5_000));
    assert_eq!(world.wall_size(WallSide::Left), Vec3::new(5_000, 25_000, 100_000));
    assert_eq!(half_extents_of(Vec3::new(6000, 2000, 6001)), Vec3::new(3000, 1000, 3000));
    assert_eq!(halve(-3), -2);
    assert_eq!(halve(i32::MIN), -1_073_741_824);
}

#[test]
fn stock_items() {
    let boost = Item::increase_speed();
    assert_eq!(boost.name, "Increase Speed");
    assert_eq!(boost.type_, ItemType::Passive);
    assert!(matches!(boost.effect, ItemEffect::IncreaseSpeed { amount: 10_000, duration: 10_000 }));
    let rock = Item::rock(3, 4);
    assert_eq!(rock.name, "Rock");
    assert_eq!(rock.description, "Batu buat lu lempar");
    assert_eq!(rock.type_, ItemType::Active);
    assert!(matches!(rock.effect, ItemEffect::Throw(3, 4)));
}
