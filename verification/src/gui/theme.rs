//! Colors and spacing of the widgets.

use vstd::prelude::*;
use crate::color::Color;
use crate::shape::rect::Pos;

verus! {

/// Colors and spacing of the widgets.
#[derive(Clone, Copy, Debug, PartialEq, Eq, Structural, Hash)]
pub struct Theme {
    /// Behind everything.
    pub background: Color,
    /// Text on the background.
    pub on_background: Color,
    /// Widgets at rest.
    pub primary: Color,
    /// Text on widgets.
    pub on_primary: Color,
    /// Boxes and tracks under the pointer.
    pub secondary: Color,
    /// Tracks of scrollbars.
    pub on_secondary: Color,
    /// What is focused, pressed or selected.
    pub highlight: Color,
    /// Outlines at rest.
    pub muted: Color,
    /// Space between the edge of a frame and what is in it.
    pub frame_pad: Pos,
    /// Space between widgets, and between a widget's edge and its text.
    pub item_pad: Pos,
}

impl Theme {
    /// The dark theme with eight pixels of padding that an engine state starts
    /// with.
    pub open spec fn dark() -> Theme {
        Theme {
            background: Color::spec_rgba(18, 18, 18, 255),
            on_background: Color::spec_rgba(230, 230, 230, 255),
            primary: Color::spec_rgba(48, 63, 159, 255),
            on_primary: Color::spec_rgba(255, 255, 255, 255),
            secondary: Color::spec_rgba(69, 90, 100, 255),
            on_secondary: Color::spec_rgba(38, 50, 56, 255),
            highlight: Color::spec_rgba(255, 171, 64, 255),
            muted: Color::spec_rgba(117, 117, 117, 255),
            frame_pad: Pos { x: 8, y: 8 },
            item_pad: Pos { x: 8, y: 8 },
        }
    }
}

impl Default for Theme {
    /// A dark theme with eight pixels of padding.
    fn default() -> (theme: Self)
        ensures
            theme == Theme::dark(),
    {
        Theme {
            background: Color::rgb(18, 18, 18),
            on_background: Color::rgb(230, 230, 230),
            primary: Color::rgb(48, 63, 159),
            on_primary: Color::rgb(255, 255, 255),
            secondary: Color::rgb(69, 90, 100),
            on_secondary: Color::rgb(38, 50, 56),
            highlight: Color::rgb(255, 171, 64),
            muted: Color::rgb(117, 117, 117),
            frame_pad: Pos { x: 8, y: 8 },
            item_pad: Pos { x: 8, y: 8 },
        }
    }
}

} // verus!
