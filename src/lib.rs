//! Runtime core of a small touchscreen device: touch decoding, coordinate
//! mapping, the touch queue, screen dispatch, navigation and the virtual
//! keyboard.

pub mod events;
pub mod geometry;
pub mod keyboard;
pub mod phone;
pub mod queue;
pub mod touch;
pub mod ui;
pub mod wifi;
