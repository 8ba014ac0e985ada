//! What the engine asks the renderer to do.
//!
//! Drawing calls do not touch a window. Each appends a [`DrawCommand`] to the
//! list of the engine state, and the host program carries the list out once
//! per frame, in order.

use vstd::prelude::*;
use crate::color::Color;
use crate::error::PixResult;
use crate::image::PixelFormat;
use crate::shape::line::Line;
use crate::shape::rect::{Pos, Rect};
use crate::shape::triangle::Tri;
use crate::state::settings::{BlendMode, TextStyle};
use crate::state::PixState;
use crate::texture::TextureId;

verus! {

/// One request to the renderer.
#[derive(Debug)]
pub enum DrawCommand {
    /// Fill the whole target with a color.
    Clear(Color),
    /// Draw a rectangle.
    Rect { rect: Rect, fill: Option<Color>, stroke: Option<Color> },
    /// Draw the ellipse that fills a rectangle.
    Ellipse { rect: Rect, fill: Option<Color>, stroke: Option<Color> },
    /// Draw a single pixel.
    Pixel { pos: Pos, stroke: Option<Color> },
    /// Draw a line.
    Line { start: Pos, end: Pos, stroke: Option<Color>, weight: u32 },
    /// Draw a triangle.
    Triangle { p1: Pos, p2: Pos, p3: Pos, fill: Option<Color>, stroke: Option<Color> },
    /// Draw text with its top-left corner at a position.
    Text { pos: Pos, text: String, fill: Option<Color>, stroke: Option<Color> },
    /// Draw only inside a rectangle from now on, or everywhere again.
    Clip(Option<Rect>),
    /// Show the hand cursor until the end of the frame.
    HandCursor,
    /// Show or hide the cursor.
    ShowCursor(bool),
    /// Load the cursor icon from a file.
    CursorIcon(String),
    /// Set the window title. With a frame rate, show it behind the title.
    Title { title: String, frame_rate: Option<usize> },
    /// Enter or leave fullscreen.
    Fullscreen(bool),
    /// Blend textures in the given way from now on.
    Blend(BlendMode),
    /// Set the text size, in points.
    TextSize(u32),
    /// Set the text style.
    TextStyle(TextStyle),
    /// Set the font family.
    TextFont(String),
    /// Set the scale of the canvas, in millionths.
    Scale { x: i64, y: i64 },
    /// Make a texture of the given size and know it by `id` from now on. A
    /// texture that was known by `id` before is dropped.
    CreateTexture { id: TextureId, width: u32, height: u32, format: Option<PixelFormat> },
    /// Copy pixels into a texture, or into a part of it.
    UpdateTexture { id: TextureId, part: Option<Rect>, pixels: Vec<u8>, pitch: usize },
    /// Draw a texture, or a part of it, to the target, turned by `angle`
    /// millionths of a degree about `center` and mirrored as `flipped` says.
    Texture {
        id: TextureId,
        src: Option<Rect>,
        dst: Option<Rect>,
        angle: i64,
        center: Option<Pos>,
        flipped: Option<Flipped>,
        tint: Option<Color>,
    },
    /// Draw to a texture from now on, or to the window again.
    Target(Option<TextureId>),
}

/// The axis about which an image is mirrored.
#[derive(Clone, Copy, Debug, PartialEq, Eq, Structural, Hash)]
pub enum Flipped {
    /// Left and right change places.
    Horizontal,
    /// Top and bottom change places.
    Vertical,
    /// Both.
    Both,
}

/// A [`DrawCommand`] as plain values.
pub enum DrawOp {
    Clear(Color),
    Rect { rect: Rect, fill: Option<Color>, stroke: Option<Color> },
    Ellipse { rect: Rect, fill: Option<Color>, stroke: Option<Color> },
    Pixel { pos: Pos, stroke: Option<Color> },
    Line { start: Pos, end: Pos, stroke: Option<Color>, weight: u32 },
    Triangle { p1: Pos, p2: Pos, p3: Pos, fill: Option<Color>, stroke: Option<Color> },
    Text { pos: Pos, text: Seq<char>, fill: Option<Color>, stroke: Option<Color> },
    Clip(Option<Rect>),
    HandCursor,
    ShowCursor(bool),
    CursorIcon(Seq<char>),
    Title { title: Seq<char>, frame_rate: Option<usize> },
    Fullscreen(bool),
    Blend(BlendMode),
    TextSize(u32),
    TextStyle(TextStyle),
    TextFont(Seq<char>),
    Scale { x: i64, y: i64 },
    CreateTexture { id: TextureId, width: u32, height: u32, format: Option<PixelFormat> },
    UpdateTexture { id: TextureId, part: Option<Rect>, pixels: Seq<u8>, pitch: usize },
    Texture {
        id: TextureId,
        src: Option<Rect>,
        dst: Option<Rect>,
        angle: i64,
        center: Option<Pos>,
        flipped: Option<Flipped>,
        tint: Option<Color>,
    },
    Target(Option<TextureId>),
}

impl View for DrawCommand {
    type V = DrawOp;

    open spec fn view(&self) -> DrawOp {
        match *self {
            DrawCommand::Clear(color) => DrawOp::Clear(color),
            DrawCommand::Rect { rect, fill, stroke } => DrawOp::Rect { rect, fill, stroke },
            DrawCommand::Ellipse { rect, fill, stroke } => DrawOp::Ellipse { rect, fill, stroke },
            DrawCommand::Pixel { pos, stroke } => DrawOp::Pixel { pos, stroke },
            DrawCommand::Line { start, end, stroke, weight } => DrawOp::Line {
                start,
                end,
                stroke,
                weight,
            },
            DrawCommand::Triangle { p1, p2, p3, fill, stroke } => DrawOp::Triangle {
                p1,
                p2,
                p3,
                fill,
                stroke,
            },
            DrawCommand::Text { pos, text, fill, stroke } => DrawOp::Text {
                pos,
                text: text@,
                fill,
                stroke,
            },
            DrawCommand::Clip(rect) => DrawOp::Clip(rect),
            DrawCommand::HandCursor => DrawOp::HandCursor,
            DrawCommand::ShowCursor(show) => DrawOp::ShowCursor(show),
            DrawCommand::CursorIcon(path) => DrawOp::CursorIcon(path@),
            DrawCommand::Title { title, frame_rate } => DrawOp::Title { title: title@, frame_rate },
            DrawCommand::Fullscreen(on) => DrawOp::Fullscreen(on),
            DrawCommand::Blend(mode) => DrawOp::Blend(mode),
            DrawCommand::TextSize(size) => DrawOp::TextSize(size),
            DrawCommand::TextStyle(style) => DrawOp::TextStyle(style),
            DrawCommand::TextFont(font) => DrawOp::TextFont(font@),
            DrawCommand::Scale { x, y } => DrawOp::Scale { x, y },
            DrawCommand::CreateTexture { id, width, height, format } => DrawOp::CreateTexture {
                id,
                width,
                height,
                format,
            },
            DrawCommand::UpdateTexture { id, part, pixels, pitch } => DrawOp::UpdateTexture {
                id,
                part,
                pixels: pixels@,
                pitch,
            },
            DrawCommand::Texture { id, src, dst, angle, center, flipped, tint } => DrawOp::Texture {
                id,
                src,
                dst,
                angle,
                center,
                flipped,
                tint,
            },
            DrawCommand::Target(target) => DrawOp::Target(target),
        }
    }
}

impl PixState {
    /// Fills the whole target with the background color of the settings.
    pub fn clear(&mut self)
        ensures
            final(self).ops() == old(self).ops().push(DrawOp::Clear(old(self).settings.background)),
            final(self).ui == old(self).ui,
            final(self).same_setup(old(self)),
    {
        self.emit(DrawCommand::Clear(self.settings.background));
    }

    /// The commands after `rect` was drawn behind those of `self`.
    pub open spec fn rect_drawn(&self, rect: Rect) -> Seq<DrawOp> {
        self.ops().push(
            DrawOp::Rect { rect, fill: self.settings.fill, stroke: self.settings.stroke },
        )
    }

    /// The commands after `line` was drawn behind those of `self`.
    pub open spec fn line_drawn(&self, line: Line<i32, 2>) -> Seq<DrawOp> {
        self.ops().push(
            DrawOp::Line {
                start: Pos { x: line.0@[0].0@[0], y: line.0@[0].0@[1] },
                end: Pos { x: line.0@[1].0@[0], y: line.0@[1].0@[1] },
                stroke: self.settings.stroke,
                weight: 1,
            },
        )
    }

    /// The commands after `tri` was drawn behind those of `self`.
    pub open spec fn triangle_drawn(&self, tri: Tri<i32, 2>) -> Seq<DrawOp> {
        self.ops().push(
            DrawOp::Triangle {
                p1: Pos { x: tri.0@[0].0@[0], y: tri.0@[0].0@[1] },
                p2: Pos { x: tri.0@[1].0@[0], y: tri.0@[1].0@[1] },
                p3: Pos { x: tri.0@[2].0@[0], y: tri.0@[2].0@[1] },
                fill: self.settings.fill,
                stroke: self.settings.stroke,
            },
        )
    }

    /// Draws the pixel at `pos` with the stroke of the settings.
    pub fn point(&mut self, pos: Pos)
        ensures
            final(self).ops() == old(self).ops().push(
                DrawOp::Pixel { pos, stroke: old(self).settings.stroke },
            ),
            final(self).ui == old(self).ui,
            final(self).same_setup(old(self)),
    {
        self.emit(DrawCommand::Pixel { pos, stroke: self.settings.stroke });
    }

    /// Draws a rectangle with the fill and the stroke of the settings.
    pub fn rect(&mut self, rect: Rect)
        ensures
            final(self).ops() == old(self).rect_drawn(rect),
            final(self).ui == old(self).ui,
            final(self).same_setup(old(self)),
    {
        self.emit(
            DrawCommand::Rect { rect, fill: self.settings.fill, stroke: self.settings.stroke },
        );
    }

    /// Draws a line, one pixel wide, with the stroke of the settings.
    pub fn line(&mut self, line: Line<i32, 2>)
        ensures
            final(self).ops() == old(self).line_drawn(line),
            final(self).ui == old(self).ui,
            final(self).same_setup(old(self)),
    {
        self.emit(
            DrawCommand::Line {
                start: line.start().pos(),
                end: line.end().pos(),
                stroke: self.settings.stroke,
                weight: 1,
            },
        );
    }

    /// Draws a triangle with the fill and the stroke of the settings.
    pub fn triangle(&mut self, tri: Tri<i32, 2>)
        ensures
            final(self).ops() == old(self).triangle_drawn(tri),
            final(self).ui == old(self).ui,
            final(self).same_setup(old(self)),
    {
        self.emit(
            DrawCommand::Triangle {
                p1: tri.p1().pos(),
                p2: tri.p2().pos(),
                p3: tri.p3().pos(),
                fill: self.settings.fill,
                stroke: self.settings.stroke,
            },
        );
    }
}

/// Something that can draw itself.
pub trait Draw {
    /// What drawing does: whether `after` and `r` can be what `draw` leaves
    /// and returns when it is called with the engine state `before`. Unless
    /// a type says more, anything can be.
    open spec fn drawn(&self, before: &PixState, after: &PixState, r: PixResult<()>) -> bool {
        true
    }

    /// Draws to the canvas of `s`.
    fn draw(&self, s: &mut PixState) -> (r: PixResult<()>)
        ensures
            self.drawn(old(s), final(s), r),
    ;
}

} // verus!
