//! Decision logic of a hotkey-driven webcam overlay: the configuration it
//! reads, the validation of its hotkeys, and the state machine that decides
//! what the overlay window shows as hotkeys are pressed and released.
pub mod config;
pub mod hotkey;
pub mod key;
pub mod laws;
pub mod overlay;
pub mod portal;
pub mod settings_window;
