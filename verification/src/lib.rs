//! Editing core of a tile-map editor: a sparse grid document with floor and
//! wall layers, batch edits over rectangular ranges, a bounded linear
//! undo/redo history of document snapshots, and a mouse-driven rectangular
//! selection state machine that a pencil tool turns into document edits.
//!
//! Selection policy: while a tool is active, releasing the button ends the
//! gesture and the selection clears; with no tool, a released selection
//! persists — so it can still be rotated, deleted, cut or copied — until
//! the right button, or the edit that consumes it, clears it.

pub mod coord;
pub mod elements;
pub mod gridmap;
pub mod history;
pub mod keyboard;
pub mod mouse;
pub mod pencil;
pub mod scene;
pub mod scene_view;
pub mod selection;
pub mod tile;
pub mod tiles_view;
pub mod views;
