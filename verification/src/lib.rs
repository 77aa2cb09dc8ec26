//! Core logic of a local multiplayer reaction game: each player is assigned a
//! random letter; pressing that letter advances the player toward a goal line;
//! every so often the game reassigns a player's key. This crate holds the
//! verified game state machine, the round timer, and the key-assignment
//! policy. Windowing, rendering and raw input stay outside; they talk to the
//! engine through plain key events, millisecond timestamps and state
//! snapshots.

pub mod config;
pub mod timer;
pub mod assigner;
pub mod player;
pub mod events;
pub mod engine;
pub mod laws;

pub use config::Config;
pub use timer::Timer;
pub use assigner::KeyAssigner;
pub use player::Player;
pub use events::{Key, KeyEvent};
pub use engine::{EngineModel, GameEngine, Snapshot, UiState};
