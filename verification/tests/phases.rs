use game::game_phase::{
    phase_after_customize, respond_to_key, should_capture, ControlKey, GameMode, GamePhase,
    KeyCommand,
};

#[test]
fn game_starts_on_main_menu() {
    assert_eq!(GamePhase::default(), GamePhase::MainMenu);
}

#[test]
fn escape_pauses_and_resumes() {
    let r = respond_to_key(&GamePhase::Playing, true, ControlKey::Escape);
    assert_eq!(r.next_phase, Some(GamePhase::Paused));
    assert!(!r.inventory_open);
    assert_eq!(r.capture, Some(false));
    let r2 = respond_to_key(&GamePhase::Paused, r.inventory_open, ControlKey::Escape);
    assert_eq!(r2.next_phase, Some(GamePhase::Playing));
    assert_eq!(r2.capture, Some(true));
}

#[test]
fn tab_toggles_inventory() {
    let r = respond_to_key(&GamePhase::Playing, false, ControlKey::Tab);
    assert!(r.inventory_open);
    assert_eq!(r.capture, Some(false));
    let r2 = respond_to_key(&GamePhase::Playing, r.inventory_open, ControlKey::Tab);
    assert!(!r2.inventory_open);
    assert_eq!(r2.capture, Some(true));
    assert_eq!(r2.next_phase, None);
}

#[test]
fn play_keys_give_commands() {
    let p = GamePhase::Playing;
    assert_eq!(respond_to_key(&p, false, ControlKey::Interact).command, KeyCommand::Interact);
    assert_eq!(respond_to_key(&p, true, ControlKey::UseSelected).command, KeyCommand::UseSelected);
    assert_eq!(respond_to_key(&p, false, ControlKey::Slot1).command, KeyCommand::SelectSlot(0));
    assert_eq!(respond_to_key(&p, false, ControlKey::Slot5).command, KeyCommand::SelectSlot(4));
    assert_eq!(respond_to_key(&p, false, ControlKey::Other).command, KeyCommand::Nothing);
}

#[test]
fn menus_ignore_keys() {
    let menu = GamePhase::Settings { return_to: Box::new(GamePhase::MainMenu) };
    let r = respond_to_key(&menu, false, ControlKey::Escape);
    assert_eq!(r.next_phase, None);
    assert_eq!(r.capture, None);
    assert_eq!(r.command, KeyCommand::Nothing);
    let r = respond_to_key(&GamePhase::Paused, false, ControlKey::Interact);
    assert_eq!(r.command, KeyCommand::Nothing);
}

#[test]
fn capture_only_while_playing_without_inventory() {
    assert!(should_capture(&GamePhase::Playing, false));
    assert!(!should_capture(&GamePhase::Playing, true));
    assert!(!should_capture(&GamePhase::Paused, false));
}

#[test]
fn customize_leads_to_game_or_lobby() {
    assert_eq!(phase_after_customize(GameMode::Story), GamePhase::Playing);
    assert_eq!(phase_after_customize(GameMode::Multiplayer), GamePhase::MultiplayerLobby);
}

#[test]
fn phase_clone_is_equal() {
    let p = GamePhase::Settings {
        return_to: Box::new(GamePhase::CharacterCustomize { mode: GameMode::Story }),
    };
    assert_eq!(p.clone(), p);
}
