//! Keyboard-driven pointer control: bindings, controller state machine, input routing,
//! helper wire protocol and session lifecycle, with their contracts proved by Verus.

pub mod action;
pub mod assistive;
pub mod audio;
pub mod bindings;
pub mod bindings_ui;
pub mod bytes;
pub mod config;
pub mod desktop;
pub mod hook;
pub mod hud;
pub mod injector;
pub mod keymap;
pub mod lifecycle;
pub mod linux;
pub mod linux_pointer;
pub mod motion;
pub mod normalize;
pub mod protocol;
pub mod runtime;
pub mod settings;
pub mod state;
pub mod system;
pub mod win_pointer;
