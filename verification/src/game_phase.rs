use vstd::prelude::*;

verus! {

/// Which screen the game is on.
#[derive(Debug, PartialEq, Eq)]
pub enum GamePhase {
    MainMenu,
    CharacterCustomize { mode: GameMode },
    MultiplayerLobby,
    Playing,
    Paused,
    Settings { return_to: Box<GamePhase> },
}

/// Single player story or a networked session.
#[derive(Clone, Copy, Debug, PartialEq, Eq, Structural)]
pub enum GameMode {
    Story,
    Multiplayer,
}

/// A copy of `phase`.
fn copy_phase(phase: &GamePhase) -> (r: GamePhase)
    ensures
        r == *phase,
    decreases phase,
{
    match phase {
        GamePhase::MainMenu => GamePhase::MainMenu,
        GamePhase::CharacterCustomize { mode } => GamePhase::CharacterCustomize { mode: *mode },
        GamePhase::MultiplayerLobby => GamePhase::MultiplayerLobby,
        GamePhase::Playing => GamePhase::Playing,
        GamePhase::Paused => GamePhase::Paused,
        GamePhase::Settings { return_to } => GamePhase::Settings {
            return_to: Box::new(copy_phase(return_to)),
        },
    }
}

impl Clone for GamePhase {
    fn clone(&self) -> (r: Self)
        ensures
            r == *self,
    {
        copy_phase(self)
    }
}

impl Default for GamePhase {
    /// The game starts on the main menu.
    fn default() -> (r: Self)
        ensures
            r == GamePhase::MainMenu,
    {
        GamePhase::MainMenu
    }
}

/// The keys that steer the game; every other key is `Other`.
#[derive(Clone, Copy, Debug, PartialEq, Eq, Structural)]
pub enum ControlKey {
    Escape,
    Tab,
    Interact,
    UseSelected,
    Slot1,
    Slot2,
    Slot3,
    Slot4,
    Slot5,
    Other,
}

/// What a key asks the running game to do.
#[derive(Clone, Copy, Debug, PartialEq, Eq, Structural)]
pub enum KeyCommand {
    Nothing,
    Interact,
    UseSelected,
    SelectSlot(usize),
}

/// The answer to a key press: the phase to switch to (`None`: stay), whether
/// the inventory panel is open afterwards, whether to grab (`Some(true)`) or
/// release (`Some(false)`) the mouse, and the command for the running game.
#[derive(Debug, PartialEq, Eq)]
pub struct KeyResponse {
    pub next_phase: Option<GamePhase>,
    pub inventory_open: bool,
    pub capture: Option<bool>,
    pub command: KeyCommand,
}

/// The response to `key` in phase `phase` with the inventory panel open or not.
pub open spec fn key_response(phase: GamePhase, inventory_open: bool, key: ControlKey) -> KeyResponse {
    let stay = KeyResponse {
        next_phase: None,
        inventory_open,
        capture: None,
        command: KeyCommand::Nothing,
    };
    match phase {
        GamePhase::Playing => match key {
            ControlKey::Escape => KeyResponse {
                next_phase: Some(GamePhase::Paused),
                inventory_open: false,
                capture: Some(false),
                command: KeyCommand::Nothing,
            },
            ControlKey::Tab => KeyResponse {
                next_phase: None,
                inventory_open: !inventory_open,
                capture: Some(inventory_open),
                command: KeyCommand::Nothing,
            },
            ControlKey::Interact => KeyResponse { command: KeyCommand::Interact, ..stay },
            ControlKey::UseSelected => KeyResponse { command: KeyCommand::UseSelected, ..stay },
            ControlKey::Slot1 => KeyResponse { command: KeyCommand::SelectSlot(0), ..stay },
            ControlKey::Slot2 => KeyResponse { command: KeyCommand::SelectSlot(1), ..stay },
            ControlKey::Slot3 => KeyResponse { command: KeyCommand::SelectSlot(2), ..stay },
            ControlKey::Slot4 => KeyResponse { command: KeyCommand::SelectSlot(3), ..stay },
            ControlKey::Slot5 => KeyResponse { command: KeyCommand::SelectSlot(4), ..stay },
            ControlKey::Other => stay,
        },
        GamePhase::Paused => match key {
            ControlKey::Escape => KeyResponse {
                next_phase: Some(GamePhase::Playing),
                inventory_open,
                capture: Some(true),
                command: KeyCommand::Nothing,
            },
            _ => stay,
        },
        _ => stay,
    }
}

/// Handles a key press: Escape pauses and resumes, Tab opens and closes the
/// inventory (releasing the mouse while it is open), E interacts, F uses the
/// selected item and 1 to 5 select a hotbar slot.
pub fn respond_to_key(phase: &GamePhase, inventory_open: bool, key: ControlKey) -> (r: KeyResponse)
    ensures
        r == key_response(*phase, inventory_open, key),
{
    let stay = KeyResponse {
        next_phase: None,
        inventory_open,
        capture: None,
        command: KeyCommand::Nothing,
    };
    match phase {
        GamePhase::Playing => match key {
            ControlKey::Escape => KeyResponse {
                next_phase: Some(GamePhase::Paused),
                inventory_open: false,
                capture: Some(false),
                command: KeyCommand::Nothing,
            },
            ControlKey::Tab => KeyResponse {
                next_phase: None,
                inventory_open: !inventory_open,
                capture: Some(inventory_open),
                command: KeyCommand::Nothing,
            },
            ControlKey::Interact => KeyResponse { command: KeyCommand::Interact, ..stay },
            ControlKey::UseSelected => KeyResponse { command: KeyCommand::UseSelected, ..stay },
            ControlKey::Slot1 => KeyResponse { command: KeyCommand::SelectSlot(0), ..stay },
            ControlKey::Slot2 => KeyResponse { command: KeyCommand::SelectSlot(1), ..stay },
            ControlKey::Slot3 => KeyResponse { command: KeyCommand::SelectSlot(2), ..stay },
            ControlKey::Slot4 => KeyResponse { command: KeyCommand::SelectSlot(3), ..stay },
            ControlKey::Slot5 => KeyResponse { command: KeyCommand::SelectSlot(4), ..stay },
            ControlKey::Other => stay,
        },
        GamePhase::Paused => match key {
            ControlKey::Escape => KeyResponse {
                next_phase: Some(GamePhase::Playing),
                inventory_open,
                capture: Some(true),
                command: KeyCommand::Nothing,
            },
            _ => stay,
        },
        _ => stay,
    }
}

/// Whether focusing or clicking into the window grabs the mouse: only while
/// playing with the inventory panel closed.
pub fn should_capture(phase: &GamePhase, inventory_open: bool) -> (r: bool)
    ensures
        r == (*phase == GamePhase::Playing && !inventory_open),
{
    match phase {
        GamePhase::Playing => !inventory_open,
        _ => false,
    }
}

/// Where the character screen's confirm button leads: the story starts the
/// game, multiplayer goes to the lobby.
pub fn phase_after_customize(mode: GameMode) -> (r: GamePhase)
    ensures
        r == (match mode {
            GameMode::Story => GamePhase::Playing,
            GameMode::Multiplayer => GamePhase::MultiplayerLobby,
        }),
{
    match mode {
        GameMode::Story => GamePhase::Playing,
        GameMode::Multiplayer => GamePhase::MultiplayerLobby,
    }
}

/// While playing, slot key N selects hotbar slot N-1: the five keys select
/// the five slots 0..4 in order, without changing phase, panel or mouse.
pub proof fn slot_keys_select_their_slots(inventory_open: bool)
    ensures
        key_response(GamePhase::Playing, inventory_open, ControlKey::Slot1).command
            == KeyCommand::SelectSlot(0),
        key_response(GamePhase::Playing, inventory_open, ControlKey::Slot2).command
            == KeyCommand::SelectSlot(1),
        key_response(GamePhase::Playing, inventory_open, ControlKey::Slot3).command
            == KeyCommand::SelectSlot(2),
        key_response(GamePhase::Playing, inventory_open, ControlKey::Slot4).command
            == KeyCommand::SelectSlot(3),
        key_response(GamePhase::Playing, inventory_open, ControlKey::Slot5).command
            == KeyCommand::SelectSlot(4),
        forall|key: ControlKey|
            #![trigger key_response(GamePhase::Playing, inventory_open, key)]
            key_response(GamePhase::Playing, inventory_open, key).command is SelectSlot ==> {
                let r = key_response(GamePhase::Playing, inventory_open, key);
                &&& r.next_phase is None
                &&& r.inventory_open == inventory_open
                &&& r.capture is None
                &&& r.command->SelectSlot_0 < 5
            },
{
}

/// While playing, E interacts and F uses the selected item, and neither
/// changes phase, panel or mouse; keys that steer nothing do nothing.
pub proof fn play_keys_give_their_commands(inventory_open: bool)
    ensures
        ({
            let e = key_response(GamePhase::Playing, inventory_open, ControlKey::Interact);
            let f = key_response(GamePhase::Playing, inventory_open, ControlKey::UseSelected);
            let o = key_response(GamePhase::Playing, inventory_open, ControlKey::Other);
            &&& e.command == KeyCommand::Interact && e.next_phase is None && e.capture is None
                && e.inventory_open == inventory_open
            &&& f.command == KeyCommand::UseSelected && f.next_phase is None && f.capture is None
                && f.inventory_open == inventory_open
            &&& o.command == KeyCommand::Nothing && o.next_phase is None && o.capture is None
                && o.inventory_open == inventory_open
        }),
{
}

/// While paused only Escape does something (it resumes); no key gives the
/// running game a command.
pub proof fn paused_keys(inventory_open: bool, key: ControlKey)
    ensures
        key_response(GamePhase::Paused, inventory_open, key).command == KeyCommand::Nothing,
        key != ControlKey::Escape ==> key_response(GamePhase::Paused, inventory_open, key)
            .next_phase is None && key_response(GamePhase::Paused, inventory_open, key).capture
            is None,
{
}

/// Pausing with Escape and pressing Escape again returns to play with the
/// mouse grabbed, and the inventory panel closed on the way.
pub proof fn escape_twice_resumes(inventory_open: bool)
    ensures
        key_response(GamePhase::Playing, inventory_open, ControlKey::Escape).next_phase == Some(
            GamePhase::Paused,
        ),
        key_response(GamePhase::Playing, inventory_open, ControlKey::Escape).capture == Some(false),
        key_response(GamePhase::Playing, inventory_open, ControlKey::Escape).inventory_open
            == false,
        key_response(GamePhase::Paused, false, ControlKey::Escape).next_phase == Some(
            GamePhase::Playing,
        ),
        key_response(GamePhase::Paused, false, ControlKey::Escape).capture == Some(true),
        key_response(GamePhase::Paused, false, ControlKey::Escape).inventory_open == false,
{
}

/// Tab toggles the inventory panel: twice restores it, and the mouse is
/// released exactly while the panel is open.
pub proof fn tab_twice_restores(inventory_open: bool)
    ensures
        ({
            let first = key_response(GamePhase::Playing, inventory_open, ControlKey::Tab);
            let second = key_response(GamePhase::Playing, first.inventory_open, ControlKey::Tab);
            &&& second.inventory_open == inventory_open
            &&& first.capture == Some(!first.inventory_open)
            &&& second.capture == Some(!second.inventory_open)
            &&& first.next_phase is None && second.next_phase is None
        }),
{
}

/// Outside of play and pause no key does anything.
pub proof fn menus_ignore_keys(phase: GamePhase, inventory_open: bool, key: ControlKey)
    requires
        phase != GamePhase::Playing,
        phase != GamePhase::Paused,
    ensures
        key_response(phase, inventory_open, key) == (KeyResponse {
            next_phase: None,
            inventory_open,
            capture: None,
            command: KeyCommand::Nothing,
        }),
{
}

} // verus!
