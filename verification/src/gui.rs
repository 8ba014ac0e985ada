//! Immediate-mode user interface.
//!
//! Widgets are plain method calls made every frame. What has to outlive a frame
//! (which widget is pressed, which one has the keyboard, how far a region is
//! scrolled) is kept in [`state::UiState`], addressed by [`state::WidgetId`].

pub mod laws;
pub mod scroll;
pub mod state;
pub mod theme;
pub mod widgets;
