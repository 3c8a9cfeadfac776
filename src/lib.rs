//! Rules of a small taxi driving game: its dialog script and menus, choice
//! navigation, the taxi's rides with their fares and tips, the player's
//! earnings, and contact between cars. The game engine measures and draws;
//! these functions decide.
pub mod car;
pub mod chance;
pub mod fare;
pub mod menu;
pub mod player;
pub mod selection;
pub mod structured_dialog;
pub mod taxi;
pub mod text;
