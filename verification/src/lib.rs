//! Core of a scriptable status bar: the window-manager wire codec, the
//! request/response retry policy, the event stream state machine and the
//! worker message protocol, each with a machine-checked contract.

pub mod config;
pub mod error;
pub mod hyprland;
pub mod luaapi;
pub mod number;
pub mod text;
