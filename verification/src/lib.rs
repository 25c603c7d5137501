//! A popup menu for terminal user interfaces: its layout, its selection
//! state and its event handling, with their contracts.

pub mod geometry;
pub mod text;
pub mod item;
pub mod style;
pub mod event;
pub mod state;
pub mod popup;
pub mod laws;
