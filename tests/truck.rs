use unlight::settings::{CameraControls, CharacterControls, DevCheatMode, GameplaySettings, MovementStyle};
use unlight::repellent::RepellentCraftTracker;
use unlight::truck_ui::{Interaction, TabContents, TabState, TruckTab};

#[test]
fn craft_until_limit() {
    let mut t = RepellentCraftTracker::default();
    t.reset(2);
    assert_eq!(t.remaining_crafts(), 2);
    assert!(t.can_craft());
    t.craft();
    t.craft();
    assert_eq!(t.crafted_count, 2);
    assert!(!t.can_craft());
    t.craft();
    assert_eq!(t.crafted_count, 2);
    assert_eq!(t.remaining_crafts(), 0);
}

#[test]
fn refund_never_goes_negative() {
    let mut t = RepellentCraftTracker { crafted_count: 1, max_crafts: 3 };
    t.refund();
    assert_eq!(t.crafted_count, 0);
    t.refund();
    assert_eq!(t.crafted_count, 0);
    assert_eq!(t.remaining_crafts(), 3);
}

#[test]
fn remaining_saturates() {
    let t = RepellentCraftTracker { crafted_count: 5, max_crafts: 2 };
    assert_eq!(t.remaining_crafts(), 0);
    assert!(!t.can_craft());
}

#[test]
fn tab_names_and_defaults() {
    assert_eq!(TabContents::Loadout.name(), "Loadout");
    assert_eq!(TabContents::LocationMap.name(), "Location Map");
    assert_eq!(TabContents::CameraFeed.name(), "Camera Feed");
    assert_eq!(TabContents::Journal.name(), "Journal");
    assert_eq!(TabContents::Loadout.default_state(), TabState::Default);
    assert_eq!(TabContents::CameraFeed.default_state(), TabState::Disabled);
    assert_eq!(TabState::default(), TabState::Default);
}

#[test]
fn tab_follows_pointer_unless_fixed() {
    let mut tab = TruckTab {
        tabname: "Journal".to_string(),
        state: TabState::Default,
        contents: TabContents::Journal,
    };
    tab.update_from_interaction(&Interaction::Hovered);
    assert_eq!(tab.state, TabState::Hover);
    tab.update_from_interaction(&Interaction::Pressed);
    assert_eq!(tab.state, TabState::Pressed);
    tab.update_from_interaction(&Interaction::Idle);
    assert_eq!(tab.state, TabState::Default);
    tab.state = TabState::Selected;
    tab.update_from_interaction(&Interaction::Hovered);
    assert_eq!(tab.state, TabState::Selected);
    tab.state = TabState::Disabled;
    tab.update_from_interaction(&Interaction::Pressed);
    assert_eq!(tab.state, TabState::Disabled);
}

#[test]
fn gameplay_settings_defaults_and_switches() {
    let s = GameplaySettings::default();
    assert_eq!(s.movement_style, MovementStyle::Isometric);
    assert_eq!(s.character_controls, CharacterControls::WASD);
    assert!(s.camera_controls.on());
    assert!(!CameraControls::Off.on());
    assert!(!s.dev_cheat_mode.is_enabled());
    assert!(DevCheatMode::Enabled.is_enabled());
}
