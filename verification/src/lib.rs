//! Immediate-mode UI state for firmware front ends: widgets, focus, layout, and
//! settings encoding, each with its contract proved by Verus.

pub mod focus;
pub mod menu;
pub mod input;
pub mod widgets;
pub mod geometry;
pub mod window;
pub mod scene;
pub mod pointer;
pub mod popover;
pub mod layout;
pub mod settings;
pub mod text;
pub mod editor_settings;
pub mod file_picker;
pub mod tree_view;
pub mod theme;
pub mod demo;
pub mod keyboard_layout;
pub mod png;
pub mod framebuffer;
pub mod bedrock_controls;
pub mod keymap;
pub mod apps;
