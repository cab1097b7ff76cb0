//! Decisions behind two editor widgets: a right-click context menu and a
//! file picker that loads a glTF scene.
//!
//! The host engine spawns nodes, dispatches pointer events, runs the file
//! dialog and loads assets; this library decides what each of those events
//! leads to.

pub mod context_menu;
pub mod gltf_picker;
