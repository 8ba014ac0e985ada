//! A small engine core for games and graphical tools.
//!
//! The crate keeps all engine state in one explicitly owned [`PixState`]: draw
//! settings, the input of the current frame, and the interaction state of an
//! immediate-mode user interface. Nothing here talks to a window or a graphics
//! device. Every drawing call appends a [`DrawCommand`] to a list that the host
//! program hands to its renderer once per frame.
//!
//! [`PixState`]: state::PixState
//! [`DrawCommand`]: draw::DrawCommand

pub mod color;
pub mod draw;
pub mod error;
pub mod event;
pub mod shape;
pub mod gui;
pub mod image;
pub mod state;
pub mod texture;
