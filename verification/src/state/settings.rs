//! Draw settings.

use vstd::prelude::*;
use crate::color::{Color, Scalar};
use crate::draw::{DrawCommand, DrawOp};
use crate::shape::rect::Rect;
use crate::state::PixState;

verus! {

/// How the `(x, y)` of a shape is read.
#[derive(Clone, Copy, Debug, PartialEq, Eq, Structural, Hash)]
#[non_exhaustive]
pub enum DrawMode {
    /// `(x, y)` is the top-left corner.
    Corner,
    /// `(x, y)` is the center.
    Center,
}

/// How arcs are drawn.
#[derive(Clone, Copy, Debug, PartialEq, Eq, Structural, Hash)]
pub enum ArcMode {
    /// Filled as an open pie segment.
    OpenPie,
    /// Filled as a closed pie segment.
    Pie,
    /// Filled as an open semi-circle.
    Open,
    /// Filled as a closed semi-circle.
    Chord,
}

/// How textures are blended with what is under them.
#[derive(Clone, Copy, Debug, PartialEq, Eq, Structural, Hash)]
#[non_exhaustive]
pub enum BlendMode {
    /// No blending.
    Off,
    /// Alpha blending.
    Blend,
    /// Additive blending.
    Add,
    /// Color modulation.
    Mod,
}

/// The unit of angles.
#[derive(Clone, Copy, Debug, PartialEq, Eq, Structural, Hash)]
pub enum AngleMode {
    /// Radians.
    Radians,
    /// Degrees.
    Degrees,
}

/// How text is set.
#[derive(Clone, Copy, Debug, PartialEq, Eq, Structural, Hash)]
#[non_exhaustive]
pub enum TextStyle {
    /// Upright, regular weight.
    Normal,
    /// Italic.
    Italic,
    /// Bold.
    Bold,
    /// Bold and italic.
    BoldItalic,
}

/// Text size that a new engine state starts with.
pub const DEFAULT_TEXT_SIZE: u32 = 16;

/// The settings that drawing calls read.
#[derive(Debug)]
pub struct Settings {
    /// Color that `clear` fills the canvas with.
    pub background: Color,
    /// Color that shapes are filled with, if they are filled.
    pub fill: Option<Color>,
    /// Color that shapes are outlined with, if they are outlined.
    pub stroke: Option<Color>,
    /// Text size in points.
    pub text_size: u32,
    /// Text style.
    pub text_style: TextStyle,
    /// Font family.
    pub text_font: String,
    /// Whether the render loop is paused.
    pub paused: bool,
    /// Whether the window title shows the frame rate.
    pub show_frame_rate: bool,
    /// How the position of a rectangle is read.
    pub rect_mode: DrawMode,
    /// How the position of an ellipse is read.
    pub ellipse_mode: DrawMode,
    /// How textures are blended.
    pub blend_mode: BlendMode,
    /// How the position of an image is read.
    pub image_mode: DrawMode,
    /// Color that images are tinted with, if they are tinted.
    pub image_tint: Option<Color>,
}

impl Settings {
    /// A copy of the settings.
    pub fn duplicate(&self) -> (copy: Self)
        ensures
            copy == *self,
    {
        Settings {
            background: self.background,
            fill: self.fill,
            stroke: self.stroke,
            text_size: self.text_size,
            text_style: self.text_style,
            text_font: self.text_font.clone(),
            paused: self.paused,
            show_frame_rate: self.show_frame_rate,
            rect_mode: self.rect_mode,
            ellipse_mode: self.ellipse_mode,
            blend_mode: self.blend_mode,
            image_mode: self.image_mode,
            image_tint: self.image_tint,
        }
    }
}

impl Settings {
    /// Whether these are the settings that an engine state starts with: black
    /// background, nothing filled or outlined, 16-point regular text in the
    /// font "Emulogic", positions read as corners, no blending and no tint.
    pub open spec fn is_default(&self) -> bool {
        &&& self.background == Color::spec_rgba(0, 0, 0, 255)
        &&& self.fill is None
        &&& self.stroke is None
        &&& self.text_size == DEFAULT_TEXT_SIZE
        &&& self.text_style == TextStyle::Normal
        &&& self.text_font@ == "Emulogic"@
        &&& !self.paused
        &&& !self.show_frame_rate
        &&& self.rect_mode == DrawMode::Corner
        &&& self.ellipse_mode == DrawMode::Corner
        &&& self.blend_mode == BlendMode::Off
        &&& self.image_mode == DrawMode::Corner
        &&& self.image_tint is None
    }
}

impl Default for Settings {
    /// Black background, nothing filled or outlined, 16-point regular text in
    /// the font "Emulogic", positions read as corners, no blending.
    fn default() -> (s: Self)
        ensures
            s.is_default(),
            s.background == Color::spec_rgba(0, 0, 0, 255),
            s.fill is None,
            s.stroke is None,
            s.text_size == DEFAULT_TEXT_SIZE,
            s.text_style == TextStyle::Normal,
            s.text_font@ == "Emulogic"@,
            !s.paused,
            !s.show_frame_rate,
            s.rect_mode == DrawMode::Corner,
            s.ellipse_mode == DrawMode::Corner,
            s.blend_mode == BlendMode::Off,
            s.image_mode == DrawMode::Corner,
            s.image_tint is None,
    {
        Settings {
            background: Color::rgb(0, 0, 0),
            fill: None,
            stroke: None,
            text_size: DEFAULT_TEXT_SIZE,
            text_style: TextStyle::Normal,
            text_font: "Emulogic".to_string(),
            paused: false,
            show_frame_rate: false,
            rect_mode: DrawMode::Corner,
            ellipse_mode: DrawMode::Corner,
            blend_mode: BlendMode::Off,
            image_mode: DrawMode::Corner,
            image_tint: None,
        }
    }
}

impl PixState {
    /// Sets the color that `clear` fills the canvas with.
    pub fn background(&mut self, color: Color)
        ensures
            *final(self) == (PixState {
                settings: Settings { background: color, ..old(self).settings },
                ..*old(self)
            }),
    {
        self.settings.background = color;
    }

    /// Sets the color that shapes are filled with.
    pub fn fill(&mut self, color: Color)
        ensures
            *final(self) == (PixState {
                settings: Settings { fill: Some(color), ..old(self).settings },
                ..*old(self)
            }),
    {
        self.settings.fill = Some(color);
    }

    /// Stops filling shapes.
    pub fn no_fill(&mut self)
        ensures
            *final(self) == (PixState {
                settings: Settings { fill: None, ..old(self).settings },
                ..*old(self)
            }),
    {
        self.settings.fill = None;
    }

    /// Sets the color that shapes are outlined with.
    pub fn stroke(&mut self, color: Color)
        ensures
            *final(self) == (PixState {
                settings: Settings { stroke: Some(color), ..old(self).settings },
                ..*old(self)
            }),
    {
        self.settings.stroke = Some(color);
    }

    /// Stops outlining shapes.
    pub fn no_stroke(&mut self)
        ensures
            *final(self) == (PixState {
                settings: Settings { stroke: None, ..old(self).settings },
                ..*old(self)
            }),
    {
        self.settings.stroke = None;
    }

    /// Draws only inside `rect` from now on.
    pub fn clip(&mut self, rect: Rect)
        ensures
            final(self).ops() == old(self).ops().push(DrawOp::Clip(Some(rect))),
            final(self).ui == old(self).ui,
            final(self).same_setup(old(self)),
    {
        self.emit(DrawCommand::Clip(Some(rect)));
    }

    /// Draws everywhere again.
    pub fn no_clip(&mut self)
        ensures
            final(self).ops() == old(self).ops().push(DrawOp::Clip(None)),
            final(self).ui == old(self).ui,
            final(self).same_setup(old(self)),
    {
        self.emit(DrawCommand::Clip(None));
    }

    /// Whether the window is fullscreen.
    pub fn fullscreen(&self) -> (on: bool)
        ensures
            on == self.fullscreen,
    {
        self.fullscreen
    }

    /// Enters or leaves fullscreen.
    pub fn set_fullscreen(&mut self, val: bool)
        ensures
            final(self).fullscreen == val,
            final(self).ops() == old(self).ops().push(DrawOp::Fullscreen(val)),
            final(self).ui == old(self).ui,
            final(self).title == old(self).title,
            final(self).settings == old(self).settings,
            final(self).saved == old(self).saved,
            final(self).theme == old(self).theme,
            final(self).keys == old(self).keys,
            final(self).targets == old(self).targets,
            final(self).next_texture == old(self).next_texture,
            final(self).target == old(self).target,
            final(self).frame_rate == old(self).frame_rate,
            final(self).update_count == old(self).update_count,
    {
        self.fullscreen = val;
        self.emit(DrawCommand::Fullscreen(val));
    }

    /// Shows or hides the cursor.
    pub fn cursor(&mut self, show: bool)
        ensures
            final(self).ops() == old(self).ops().push(DrawOp::ShowCursor(show)),
            final(self).ui == old(self).ui,
            final(self).same_setup(old(self)),
    {
        self.emit(DrawCommand::ShowCursor(show));
    }

    /// Takes the cursor icon from the file at `path`.
    pub fn cursor_icon(&mut self, path: &str)
        ensures
            final(self).ops() == old(self).ops().push(DrawOp::CursorIcon(path@)),
            final(self).ui == old(self).ui,
            final(self).same_setup(old(self)),
    {
        self.emit(DrawCommand::CursorIcon(path.to_string()));
    }

    /// Whether the render loop is paused.
    pub fn paused(&self) -> (paused: bool)
        ensures
            paused == self.settings.paused,
    {
        self.settings.paused
    }

    /// Pauses the render loop, or lets it run again.
    pub fn pause(&mut self, paused: bool)
        ensures
            *final(self) == (PixState {
                settings: Settings { paused, ..old(self).settings },
                ..*old(self)
            }),
    {
        self.settings.paused = paused;
    }

    /// Shows the frame rate in the window title, or stops showing it.
    pub fn show_frame_rate(&mut self, show: bool)
        ensures
            *final(self) == (PixState {
                settings: Settings { show_frame_rate: show, ..old(self).settings },
                ..*old(self)
            }),
    {
        self.settings.show_frame_rate = show;
    }

    /// Sets the scale of the canvas.
    pub fn scale(&mut self, x: Scalar, y: Scalar)
        ensures
            final(self).ops() == old(self).ops().push(DrawOp::Scale { x, y }),
            final(self).ui == old(self).ui,
            final(self).same_setup(old(self)),
    {
        self.emit(DrawCommand::Scale { x, y });
    }

    /// Sets the text size, in points.
    pub fn text_size(&mut self, size: u32)
        ensures
            final(self).settings == (Settings { text_size: size, ..old(self).settings }),
            final(self).ops() == old(self).ops().push(DrawOp::TextSize(size)),
            final(self).ui == old(self).ui,
            final(self).same_surroundings(old(self)),
    {
        self.settings.text_size = size;
        self.emit(DrawCommand::TextSize(size));
    }

    /// Sets the text style.
    pub fn text_style(&mut self, style: TextStyle)
        ensures
            final(self).settings == (Settings { text_style: style, ..old(self).settings }),
            final(self).ops() == old(self).ops().push(DrawOp::TextStyle(style)),
            final(self).ui == old(self).ui,
            final(self).same_surroundings(old(self)),
    {
        self.settings.text_style = style;
        self.emit(DrawCommand::TextStyle(style));
    }

    /// Sets the font family.
    pub fn text_font(&mut self, font: &str)
        ensures
            final(self).settings.text_font@ == font@,
            final(self).settings.background == old(self).settings.background,
            final(self).settings.fill == old(self).settings.fill,
            final(self).settings.stroke == old(self).settings.stroke,
            final(self).settings.text_size == old(self).settings.text_size,
            final(self).settings.text_style == old(self).settings.text_style,
            final(self).settings.paused == old(self).settings.paused,
            final(self).settings.show_frame_rate == old(self).settings.show_frame_rate,
            final(self).settings.rect_mode == old(self).settings.rect_mode,
            final(self).settings.ellipse_mode == old(self).settings.ellipse_mode,
            final(self).settings.blend_mode == old(self).settings.blend_mode,
            final(self).settings.image_mode == old(self).settings.image_mode,
            final(self).settings.image_tint == old(self).settings.image_tint,
            final(self).ops() == old(self).ops().push(DrawOp::TextFont(font@)),
            final(self).ui == old(self).ui,
            final(self).same_surroundings(old(self)),
    {
        self.settings.text_font = font.to_string();
        self.emit(DrawCommand::TextFont(font.to_string()));
    }

    /// Sets how the position of a rectangle is read.
    pub fn rect_mode(&mut self, mode: DrawMode)
        ensures
            *final(self) == (PixState {
                settings: Settings { rect_mode: mode, ..old(self).settings },
                ..*old(self)
            }),
    {
        self.settings.rect_mode = mode;
    }

    /// Sets how the position of an ellipse is read.
    pub fn ellipse_mode(&mut self, mode: DrawMode)
        ensures
            *final(self) == (PixState {
                settings: Settings { ellipse_mode: mode, ..old(self).settings },
                ..*old(self)
            }),
    {
        self.settings.ellipse_mode = mode;
    }

    /// Sets how the position of an image is read.
    pub fn image_mode(&mut self, mode: DrawMode)
        ensures
            *final(self) == (PixState {
                settings: Settings { image_mode: mode, ..old(self).settings },
                ..*old(self)
            }),
    {
        self.settings.image_mode = mode;
    }

    /// Tints the images that follow with `color`, or stops tinting them.
    pub fn image_tint(&mut self, color: Option<Color>)
        ensures
            *final(self) == (PixState {
                settings: Settings { image_tint: color, ..old(self).settings },
                ..*old(self)
            }),
    {
        self.settings.image_tint = color;
    }

    /// Sets how textures are blended.
    pub fn blend_mode(&mut self, mode: BlendMode)
        ensures
            final(self).settings == (Settings { blend_mode: mode, ..old(self).settings }),
            final(self).ops() == old(self).ops().push(DrawOp::Blend(mode)),
            final(self).ui == old(self).ui,
            final(self).same_surroundings(old(self)),
    {
        self.settings.blend_mode = mode;
        self.emit(DrawCommand::Blend(mode));
    }

    /// Puts the current settings aside.
    pub fn push(&mut self)
        ensures
            final(self).saved@ == old(self).saved@.push(old(self).settings),
            final(self).settings == old(self).settings,
            final(self).ops() == old(self).ops(),
            final(self).ui == old(self).ui,
            final(self).same_surroundings(old(self)),
    {
        let copy = self.settings.duplicate();
        self.saved.push(copy);
    }

    /// Takes back the settings that were put aside last. Without any, nothing
    /// changes.
    pub fn pop(&mut self)
        ensures
            old(self).saved@.len() > 0 ==> {
                &&& final(self).settings == old(self).saved@.last()
                &&& final(self).saved@ == old(self).saved@.drop_last()
            },
            old(self).saved@.len() == 0 ==> {
                &&& final(self).settings == old(self).settings
                &&& final(self).saved@ == old(self).saved@
            },
            final(self).ops() == old(self).ops(),
            final(self).ui == old(self).ui,
            final(self).same_surroundings(old(self)),
    {
        match self.saved.pop() {
            Some(settings) => {
                self.settings = settings;
            },
            None => {},
        }
    }
}

} // verus!
