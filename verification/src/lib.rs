//! Game rules of a first-person horror game set in a haunted hotel:
//! the inventory, the rooms and doors of the hotel, the phases of the
//! game and how keys move between them, and the small pieces of text and
//! layout arithmetic that the front end needs.
pub mod audio;
pub mod character;
pub mod devmode;
pub mod game_phase;
pub mod items;
pub mod network;
pub mod playing;
pub mod renderer;
pub mod text;
pub mod viewport;
pub mod world;
