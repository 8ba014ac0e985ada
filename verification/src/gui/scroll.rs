//! Scrollbars and scrollable regions.
//!
//! A scrollable region shows a window of `viewport` size onto content that may
//! be larger. How far the content is scrolled is kept per region in the
//! interaction state. Each axis on which the content is larger than the
//! viewport gets a scrollbar, whose thumb shows which part of the content is
//! in view.

use vstd::prelude::*;
use vstd::arithmetic::div_mod::lemma_div_is_ordered_by_denominator;
use vstd::string::StrSliceExecFns;
use crate::color::Color;
use crate::draw::{Draw, DrawCommand, DrawOp};
use crate::error::{PixError, PixResult};
use crate::event::Key;
use crate::gui::state::{label_id, rect_id, visible, visible_label, Layout, UiView, WidgetId};
use crate::gui::theme::Theme;
use crate::shape::rect::{clamp, clamp_to, sat, saturate, Pos, Rect};
use crate::state::PixState;
use crate::texture::{side, to_side, Texture, TextureId};

verus! {

/// The shortest thumb, in pixels, that a scrollbar shows if its track has room
/// for it.
pub const THUMB_MIN: i32 = 10;

/// Thickness of a scrollbar in pixels.
pub const SCROLL_SIZE: i32 = 12;

/// Pixels scrolled by one key press or one notch of the wheel.
pub const SCROLL_SPEED: i32 = 3;

/// The axis of a scrollbar.
#[derive(Clone, Copy, Debug, PartialEq, Eq, Structural, Hash)]
pub enum Direction {
    /// Left to right.
    Horizontal,
    /// Top to bottom.
    Vertical,
}

/// Length of the track of a scrollbar that occupies `rect`.
pub open spec fn track_len(rect: Rect, dir: Direction) -> int {
    let len = match dir {
        Direction::Horizontal => rect.w,
        Direction::Vertical => rect.h,
    };
    if len < 0 {
        0
    } else {
        len as int
    }
}

/// Where the track of a scrollbar that occupies `rect` starts.
pub open spec fn track_start(rect: Rect, dir: Direction) -> int {
    match dir {
        Direction::Horizontal => rect.x as int,
        Direction::Vertical => rect.y as int,
    }
}

/// The coordinate of `p` along `dir`.
pub open spec fn along(p: Pos, dir: Direction) -> int {
    match dir {
        Direction::Horizontal => p.x as int,
        Direction::Vertical => p.y as int,
    }
}

/// Length of the thumb on a track of length `track` when `max` pixels can be
/// scrolled: the share of the track that the viewport has of the content,
/// rounded down, but not less than [`THUMB_MIN`], and in no case more than the
/// track.
pub open spec fn thumb_len(track: int, max: int) -> int {
    let share = track * track / (track + max);
    let shown = if share < THUMB_MIN {
        THUMB_MIN as int
    } else {
        share
    };
    if shown > track {
        track
    } else {
        shown
    }
}

/// How far the thumb is from the start of the track when `value` of `max`
/// pixels are scrolled.
pub open spec fn thumb_pos(track: int, max: int, value: int) -> int {
    (track - thumb_len(track, max)) * value / max
}

/// The scroll value that belongs to a pointer `offset` pixels into the track:
/// the start of the track is zero, its end is `max`.
pub open spec fn dragged_to(track: int, max: int, offset: int) -> int {
    clamp(clamp(offset, 0, track) * max / track, 0, max)
}

/// By how much `key` scrolls along `dir`.
pub open spec fn key_step(key: Option<Key>, dir: Direction) -> int {
    match (key, dir) {
        (Some(Key::Up), Direction::Vertical) => -SCROLL_SPEED,
        (Some(Key::Left), Direction::Horizontal) => -SCROLL_SPEED,
        (Some(Key::Down), Direction::Vertical) => SCROLL_SPEED as int,
        (Some(Key::Right), Direction::Horizontal) => SCROLL_SPEED as int,
        _ => 0,
    }
}

/// The rectangle of the thumb of a scrollbar that occupies `rect`.
pub open spec fn thumb_rect(rect: Rect, max: int, value: int, dir: Direction) -> Rect {
    let track = track_len(rect, dir);
    let len = thumb_len(track, max) as i32;
    let pos = thumb_pos(track, max, value);
    match dir {
        Direction::Horizontal => Rect { x: sat(rect.x + pos) as i32, y: rect.y, w: len, h: rect.h },
        Direction::Vertical => Rect { x: rect.x, y: sat(rect.y + pos) as i32, w: rect.w, h: len },
    }
}

/// The value that a scrollbar commits. `asked` is the interaction state after
/// the scrollbar asked for hover and focus. A drag of the thumb decides before
/// the keyboard; without either the value stays. Whatever decides, the result
/// is limited to `0..=max`.
pub open spec fn scrollbar_value(
    asked: UiView,
    id: WidgetId,
    rect: Rect,
    max: int,
    value: int,
    dir: Direction,
) -> int {
    let track = track_len(rect, dir);
    let held = clamp(value, 0, max);
    if asked.active == Some(id) && track > 0 {
        dragged_to(track, max, along(asked.pointer(), dir) - track_start(rect, dir))
    } else if asked.focused == Some(id) {
        clamp(held + key_step(asked.key, dir), 0, max)
    } else {
        held
    }
}

/// The commands after a scrollbar was drawn behind `ops`: the hand cursor if
/// the pointer is on it, the track, and the thumb.
pub open spec fn scrollbar_drawn(
    ops: Seq<DrawOp>,
    asked: UiView,
    theme: Theme,
    id: WidgetId,
    rect: Rect,
    max: int,
    value: int,
    dir: Direction,
) -> Seq<DrawOp> {
    let hovered = asked.hovered == Some(id);
    let ops = if hovered {
        ops.push(DrawOp::HandCursor)
    } else {
        ops
    };
    ops.push(DrawOp::Rect { rect, fill: Some(theme.on_secondary), stroke: None }).push(
        DrawOp::Rect {
            rect: thumb_rect(rect, max, value, dir),
            fill: Some(
                if hovered || asked.active == Some(id) {
                    theme.highlight
                } else {
                    theme.secondary
                },
            ),
            stroke: None,
        },
    )
}

/// How far content of length `content` can be scrolled in a viewport of length
/// `viewport`: by what it is longer, and not at all if it is not.
pub open spec fn scroll_range(content: int, viewport: int) -> int {
    if content - viewport < 0 {
        0
    } else {
        sat(content - viewport)
    }
}

/// How far the wheel moved along `dir` since the frame before.
pub open spec fn wheel(ui: UiView, dir: Direction) -> int {
    match dir {
        Direction::Horizontal => ui.mouse.xrel as int,
        Direction::Vertical => ui.mouse.yrel as int,
    }
}

/// The scroll value that the region `id`, which occupies `rect`, asks for
/// before its scrollbar has its say: an arrow key of the axis counts while the
/// region has the keyboard focus, else the wheel counts while the pointer is
/// over the region.
pub open spec fn region_value(
    ui: UiView,
    id: WidgetId,
    rect: Rect,
    max: int,
    value: int,
    dir: Direction,
) -> int {
    if ui.focused == Some(id) && key_step(ui.key, dir) != 0 {
        clamp(value + key_step(ui.key, dir), 0, max)
    } else if ui.hovers(id, rect) {
        clamp(value + SCROLL_SPEED * wheel(ui, dir), 0, max)
    } else {
        value
    }
}

/// Where the scrollbar of a region that occupies `rect` goes: the vertical one
/// to the right of the region, the horizontal one below it.
pub open spec fn track_of(rect: Rect, dir: Direction) -> Rect {
    match dir {
        Direction::Horizontal => Rect {
            x: rect.x,
            y: rect.spec_bottom() as i32,
            w: rect.w,
            h: SCROLL_SIZE,
        },
        Direction::Vertical => Rect {
            x: rect.spec_right() as i32,
            y: rect.y,
            w: SCROLL_SIZE,
            h: rect.h,
        },
    }
}

/// What one axis of a scrollable region leaves behind.
pub struct AxisStep {
    /// The interaction state.
    pub ui: UiView,
    /// The commands.
    pub ops: Seq<DrawOp>,
    /// How far the axis is scrolled.
    pub value: int,
}

/// One axis of the region `id`, which occupies `rect` and can be scrolled by
/// `max > 0` along `dir`: the region's own input is applied to `value`, then
/// the scrollbar is drawn and has its say.
pub open spec fn axis_step(
    ui: UiView,
    ops: Seq<DrawOp>,
    theme: Theme,
    id: WidgetId,
    rect: Rect,
    max: int,
    value: int,
    dir: Direction,
) -> AxisStep {
    let wanted = region_value(ui, id, rect, max, value, dir);
    let track = track_of(rect, dir);
    let bar = rect_id(track);
    let asked = ui.after_hover(bar, track).after_focus(bar);
    AxisStep {
        ui: asked.after_events(bar),
        ops: scrollbar_drawn(ops, asked, theme, bar, track, max, clamp(wanted, 0, max), dir),
        value: scrollbar_value(asked, bar, track, max, wanted, dir),
    }
}

/// What both axes of a scrollable region leave behind, the vertical one
/// first. An axis along which the content fits is left alone.
pub open spec fn scroll_steps(
    ui: UiView,
    ops: Seq<DrawOp>,
    theme: Theme,
    id: WidgetId,
    rect: Rect,
    width: int,
    height: int,
) -> (AxisStep, AxisStep) {
    let at = ui.scroll_of(id);
    let ymax = scroll_range(height, rect.h as int);
    let xmax = scroll_range(width, rect.w as int);
    let down = if ymax > 0 {
        axis_step(ui, ops, theme, id, rect, ymax, at.y as int, Direction::Vertical)
    } else {
        AxisStep { ui, ops, value: at.y as int }
    };
    let across = if xmax > 0 {
        axis_step(down.ui, down.ops, theme, id, rect, xmax, at.x as int, Direction::Horizontal)
    } else {
        AxisStep { ui: down.ui, ops: down.ops, value: at.x as int }
    };
    (down, across)
}

/// What [`PixState::scroll`] leaves behind.
pub struct Scrolled {
    /// The interaction state.
    pub ui: UiView,
    /// The commands.
    pub ops: Seq<DrawOp>,
    /// The viewport grown by the scrollbars that were drawn.
    pub outer: Rect,
}

/// The region `id`, which shows content of `width` by `height` pixels in the
/// viewport `rect`, after the user had the chance to scroll it: both axes have
/// taken their steps, and the offset that they give is recorded if it differs
/// from the one before.
pub open spec fn after_scroll(
    ui: UiView,
    ops: Seq<DrawOp>,
    theme: Theme,
    id: WidgetId,
    rect: Rect,
    width: int,
    height: int,
) -> Scrolled {
    let ymax = scroll_range(height, rect.h as int);
    let xmax = scroll_range(width, rect.w as int);
    let (down, across) = scroll_steps(ui, ops, theme, id, rect, width, height);
    let offset = Pos { x: across.value as i32, y: down.value as i32 };
    Scrolled {
        ui: UiView {
            scroll: if offset == ui.scroll_of(id) {
                across.ui.scroll
            } else {
                across.ui.scroll.insert(id.0, offset)
            },
            ..across.ui
        },
        ops: across.ops,
        outer: rect.grown(
            if ymax > 0 {
                SCROLL_SIZE as int
            } else {
                0
            },
            if xmax > 0 {
                SCROLL_SIZE as int
            } else {
                0
            },
        ),
    }
}

/// A scrollable region between its opening and its closing.
#[derive(Clone, Copy, Debug)]
pub struct ScrollArea {
    /// The region.
    pub id: WidgetId,
    /// Top-left corner of the region, its label included.
    pub pos: Pos,
    /// The viewport.
    pub rect: Rect,
    /// How far the content was scrolled when the region was opened.
    pub scroll: Pos,
    /// Width of the label; zero without one.
    pub label_width: i32,
    /// The texture that the content is drawn to.
    pub texture: Texture,
    /// What was taken off the pointer position outside the region.
    pub mouse_offset: Pos,
    /// What was drawn to outside the region.
    pub outer_target: Option<TextureId>,
}

/// The viewport of a region of `width` by `height` pixels that is opened with
/// the layout cursor at `cursor`: it starts at the cursor, or below the label
/// if one is shown.
pub open spec fn viewport_of(
    cursor: Pos,
    width: u32,
    height: u32,
    label: Seq<char>,
    label_size: (u32, u32),
    theme: Theme,
) -> Rect {
    Rect {
        x: cursor.x,
        y: if visible(label).len() > 0 {
            sat(cursor.y + side(label_size.1) + theme.item_pad.y) as i32
        } else {
            cursor.y
        },
        w: side(width),
        h: side(height),
    }
}

/// The four bars that hide what the content drew over the edge of a viewport
/// of `w` by `h` pixels, top, left, right and bottom, and the outline.
pub open spec fn masked(ops: Seq<DrawOp>, w: i32, h: i32, theme: Theme, outline: Color) -> Seq<
    DrawOp,
> {
    let pad = theme.frame_pad;
    let fill = Some(theme.background);
    ops.push(DrawOp::Rect { rect: Rect { x: 0, y: 0, w, h: pad.y }, fill, stroke: None }).push(
        DrawOp::Rect { rect: Rect { x: 0, y: 0, w: pad.x, h }, fill, stroke: None },
    ).push(
        DrawOp::Rect {
            rect: Rect { x: sat(w - pad.x) as i32, y: 0, w: pad.x, h },
            fill,
            stroke: None,
        },
    ).push(
        DrawOp::Rect {
            rect: Rect { x: 0, y: sat(h - pad.y) as i32, w, h: pad.y },
            fill,
            stroke: None,
        },
    ).push(DrawOp::Rect { rect: Rect { x: 0, y: 0, w, h }, fill: None, stroke: Some(outline) })
}

impl PixState {
    /// Whether the region `id` has an offscreen target of the given size.
    pub open spec fn has_target(&self, id: WidgetId, width: u32, height: u32) -> bool {
        &&& self.targets@.contains_key(id.0)
        &&& self.targets@[id.0].width == width
        &&& self.targets@[id.0].height == height
    }

    /// Whether the region `id` has no offscreen target and no number is left
    /// for a new one.
    pub open spec fn out_of_textures(&self, id: WidgetId) -> bool {
        !self.targets@.contains_key(id.0) && self.next_texture == usize::MAX
    }

    /// The offscreen target that the region `id` draws to at the given size:
    /// the one it has if that has the size, else a new one under the number of
    /// the one it has, else a new one under a new number.
    pub open spec fn target_for(&self, id: WidgetId, width: u32, height: u32) -> Texture {
        if self.has_target(id, width, height) {
            self.targets@[id.0]
        } else if self.targets@.contains_key(id.0) {
            Texture { inner: self.targets@[id.0].inner, width, height, format: None }
        } else {
            Texture { inner: self.next_texture, width, height, format: None }
        }
    }

    /// Whether `self` and `other` agree in all but the interaction state, the
    /// commands, the offscreen targets and what is drawn to.
    pub open spec fn same_fixtures(&self, other: &PixState) -> bool {
        &&& self.title == other.title
        &&& self.settings == other.settings
        &&& self.saved == other.saved
        &&& self.theme == other.theme
        &&& self.keys == other.keys
        &&& self.fullscreen == other.fullscreen
        &&& self.frame_rate == other.frame_rate
        &&& self.update_count == other.update_count
    }

    /// Whether `after` and `area` are what opening a region in `before` gives.
    ///
    /// The region asks for hover and focus with its viewport. Its label is
    /// drawn, its offscreen target is made if it has none of the right size,
    /// and becomes what is drawn to. The layout is put aside and starts again
    /// inside the viewport, moved up and left by how far the region is
    /// scrolled, so that what is scrolled out of view lands outside the
    /// target.
    pub open spec fn region_opened(
        before: &PixState,
        label: Seq<char>,
        width: u32,
        height: u32,
        label_size: (u32, u32),
        area: ScrollArea,
        after: &PixState,
    ) -> bool {
        let theme = before.theme;
        let id = label_id(label);
        let text = visible(label);
        let cursor = before.ui@.layout.cursor;
        let rect = viewport_of(cursor, width, height, label, label_size, theme);
        let asked = before.ui@.after_hover(id, rect).after_focus(id);
        let scroll = asked.scroll_of(id);
        let texture = before.target_for(id, width, height);
        let inside = Pos {
            x: sat(theme.frame_pad.x - scroll.x) as i32,
            y: sat(theme.frame_pad.y - scroll.y) as i32,
        };
        let labelled = if text.len() > 0 {
            before.ops().push(
                DrawOp::Text { pos: cursor, text, fill: Some(theme.on_background), stroke: None },
            )
        } else {
            before.ops()
        };
        let made = if before.has_target(id, width, height) {
            labelled
        } else {
            labelled.push(
                DrawOp::CreateTexture { id: texture.inner, width, height, format: None },
            )
        };
        &&& area == (ScrollArea {
            id,
            pos: cursor,
            rect,
            scroll,
            label_width: if text.len() > 0 {
                side(label_size.0)
            } else {
                0
            },
            texture,
            mouse_offset: asked.mouse_offset,
            outer_target: before.target,
        })
        &&& after.ui@ == (UiView {
            layout: Layout::starting_at(inside),
            saved: asked.saved.push(asked.layout),
            mouse_offset: asked.mouse_offset.moved(rect.x as int, rect.y as int),
            ..asked
        })
        &&& after.ops() == made.push(DrawOp::Target(Some(texture.inner))).push(
            DrawOp::Clear(theme.background),
        )
        &&& after.targets@ == before.targets@.insert(id.0, texture)
        &&& after.next_texture == if before.targets@.contains_key(id.0) {
            before.next_texture as int
        } else {
            before.next_texture + 1
        }
        &&& after.target == Some(texture.inner)
        &&& after.same_fixtures(before)
    }

    /// Whether `after` and `outer` are what closing the region `area` in
    /// `before` gives.
    ///
    /// Where the content left the layout cursor tells how large the content
    /// is. The edges of the viewport are painted over, the target is shown in
    /// the viewport, and drawing goes where it went before the region was
    /// opened. The layout that was put aside comes back, the region commits
    /// its mouse handling, the user scrolls, and the cursor moves below the
    /// region, its label and scrollbars included, which is `outer`.
    pub open spec fn region_closed(
        before: &PixState,
        area: ScrollArea,
        after: &PixState,
        outer: Rect,
    ) -> bool {
        let theme = before.theme;
        let left = before.ui@;
        let width = sat(
            left.layout.cursor.x + area.scroll.x + left.layout.last_width + theme.frame_pad.x,
        );
        let height = sat(left.layout.cursor.y + area.scroll.y);
        let outline = if left.focused == Some(area.id) {
            theme.highlight
        } else {
            theme.muted
        };
        let shown = masked(before.ops(), area.rect.w, area.rect.h, theme, outline).push(
            DrawOp::Target(area.outer_target),
        ).push(
            DrawOp::Texture {
                id: area.texture.inner,
                src: None,
                dst: Some(area.rect),
                angle: 0,
                center: None,
                flipped: None,
                tint: None,
            },
        );
        let restored = if left.saved.len() > 0 {
            UiView {
                layout: left.saved.last(),
                saved: left.saved.drop_last(),
                mouse_offset: area.mouse_offset,
                ..left
            }
        } else {
            UiView { mouse_offset: area.mouse_offset, ..left }
        };
        let scrolled = after_scroll(
            restored.after_events(area.id),
            shown,
            theme,
            area.id,
            area.rect,
            width,
            height,
        );
        &&& outer == (Rect {
            x: area.pos.x,
            y: area.pos.y,
            w: if scrolled.outer.w > area.label_width {
                scrolled.outer.w
            } else {
                area.label_width
            },
            h: sat(scrolled.outer.spec_bottom() - area.pos.y) as i32,
        })
        &&& after.ops() == scrolled.ops
        &&& after.ui@ == scrolled.ui.placed(outer, theme.item_pad.y as int)
        &&& after.target == area.outer_target
        &&& after.targets == before.targets
        &&& after.next_texture == before.next_texture
        &&& after.same_fixtures(before)
    }
}

/// The thumb is never longer than the track, and never negative.
pub proof fn lemma_thumb_fits(track: int, max: int)
    requires
        0 <= track,
        0 < max,
    ensures
        0 <= thumb_len(track, max) <= track,
{
    let share = track * track / (track + max);
    assert(0 <= share) by (nonlinear_arith)
        requires
            share == track * track / (track + max),
            0 <= track,
            0 < max,
    ;
}

/// The thumb stays on the track: its distance from the start is at least zero
/// and at most what the track has left beside the thumb.
pub proof fn lemma_thumb_stays(track: int, max: int, value: int)
    requires
        0 <= track,
        0 < max,
        0 <= value <= max,
    ensures
        0 <= thumb_pos(track, max, value) <= track - thumb_len(track, max),
{
    lemma_thumb_fits(track, max);
    let room = track - thumb_len(track, max);
    assert(0 <= room * value / max <= room) by (nonlinear_arith)
        requires
            0 <= room,
            0 < max,
            0 <= value <= max,
    ;
}

/// The longer the way that can be scrolled, the shorter the thumb: on a track
/// of one length, the thumb for a larger `max` is not longer than the thumb
/// for a smaller one.
pub proof fn law_thumb_shrinks(track: int, less: int, more: int)
    requires
        0 <= track,
        0 < less <= more,
    ensures
        thumb_len(track, more) <= thumb_len(track, less),
{
    assert(0 <= track * track) by (nonlinear_arith)
        requires
            0 <= track,
    ;
    lemma_div_is_ordered_by_denominator(track * track, track + less, track + more);
}

/// On a track that has room for it, the thumb is never shorter than
/// [`THUMB_MIN`].
pub proof fn law_thumb_at_least_min(track: int, max: int)
    requires
        THUMB_MIN <= track,
        0 < max,
    ensures
        THUMB_MIN <= thumb_len(track, max) <= track,
{
    lemma_thumb_fits(track, max);
}

/// Whatever value a scrollbar is given, in range or not, the value that it
/// commits lies in `0..=max`.
pub proof fn law_scroll_value_in_range(
    asked: UiView,
    id: WidgetId,
    rect: Rect,
    max: int,
    value: int,
    dir: Direction,
)
    requires
        0 < max,
    ensures
        0 <= scrollbar_value(asked, id, rect, max, value, dir) <= max,
{
}

/// Whatever offset a region had and whatever the input is, after the user had
/// the chance to scroll it the offset along each axis on which the content is
/// larger than the viewport lies between zero and what the content is larger
/// by.
pub proof fn law_scroll_offset_in_range(
    ui: UiView,
    ops: Seq<DrawOp>,
    theme: Theme,
    id: WidgetId,
    rect: Rect,
    width: int,
    height: int,
)
    ensures
        ({
            let ymax = scroll_range(height, rect.h as int);
            let xmax = scroll_range(width, rect.w as int);
            let offset = after_scroll(ui, ops, theme, id, rect, width, height).ui.scroll_of(id);
            &&& ymax > 0 ==> 0 <= offset.y <= ymax
            &&& xmax > 0 ==> 0 <= offset.x <= xmax
            &&& ymax == 0 ==> offset.y == ui.scroll_of(id).y
            &&& xmax == 0 ==> offset.x == ui.scroll_of(id).x
        }),
{
    let (down, across) = scroll_steps(ui, ops, theme, id, rect, width, height);
    assert(down.ui.scroll == ui.scroll);
    assert(across.ui.scroll == ui.scroll);
}

/// Length of the thumb on a track of length `track` when `max` pixels can be
/// scrolled.
pub fn thumb_length(track: i32, max: i32) -> (len: i32)
    requires
        0 <= track,
        0 < max,
    ensures
        len == thumb_len(track as int, max as int),
        0 <= len <= track,
{
    proof {
        lemma_thumb_fits(track as int, max as int);
        assert(0 <= track * track <= 0x4000_0000_0000_0000) by (nonlinear_arith)
            requires
                0 <= track <= 0x7fff_ffff,
        ;
    }
    let t = track as i64;
    let share = t * t / (t + max as i64);
    let shown = if share < THUMB_MIN as i64 {
        THUMB_MIN as i64
    } else {
        share
    };
    if shown > t {
        track
    } else {
        shown as i32
    }
}

/// How far the thumb is from the start of the track when `value` of `max`
/// pixels are scrolled.
pub fn thumb_position(track: i32, max: i32, value: i32) -> (pos: i32)
    requires
        0 <= track,
        0 < max,
        0 <= value <= max,
    ensures
        pos == thumb_pos(track as int, max as int, value as int),
        0 <= pos <= track,
{
    let len = thumb_length(track, max);
    let room = (track - len) as i64;
    proof {
        lemma_thumb_stays(track as int, max as int, value as int);
        assert(0 <= room * value <= 0x4000_0000_0000_0000) by (nonlinear_arith)
            requires
                0 <= room <= 0x7fff_ffff,
                0 <= value <= 0x7fff_ffff,
        ;
    }
    (room * value as i64 / max as i64) as i32
}

/// The scroll value that belongs to a pointer `offset` pixels into a track of
/// length `track`.
pub fn drag_value(track: i32, max: i32, offset: i64) -> (value: i32)
    requires
        0 < track,
        0 < max,
    ensures
        value == dragged_to(track as int, max as int, offset as int),
        0 <= value <= max,
{
    let along = clamp_to(offset, 0, track as i64);
    proof {
        assert(0 <= along * max <= 0x4000_0000_0000_0000) by (nonlinear_arith)
            requires
                0 <= along <= 0x7fff_ffff,
                0 <= max <= 0x7fff_ffff,
        ;
    }
    let value = clamp_to(along * max as i64 / track as i64, 0, max as i64);
    value as i32
}

/// By how much `key` scrolls along `dir`.
pub fn step_of(key: Option<Key>, dir: Direction) -> (step: i32)
    ensures
        step == key_step(key, dir),
{
    match (key, dir) {
        (Some(Key::Up), Direction::Vertical) => -SCROLL_SPEED,
        (Some(Key::Left), Direction::Horizontal) => -SCROLL_SPEED,
        (Some(Key::Down), Direction::Vertical) => SCROLL_SPEED,
        (Some(Key::Right), Direction::Horizontal) => SCROLL_SPEED,
        _ => 0,
    }
}

/// How far content of length `content` can be scrolled in a viewport of length
/// `viewport`.
pub fn range_of(content: i32, viewport: i32) -> (max: i32)
    ensures
        max == scroll_range(content as int, viewport as int),
        max >= 0,
{
    let over = content as i64 - viewport as i64;
    if over < 0 {
        0
    } else {
        saturate(over)
    }
}

impl PixState {
    /// One axis of a scrollable region: applies the region's own input to
    /// `value`, draws the scrollbar, and returns the value to commit.
    fn scroll_axis(&mut self, id: WidgetId, rect: Rect, max: i32, value: i32, dir: Direction) -> (out:
        i32)
        requires
            max > 0,
        ensures
            final(self).same_setup(old(self)),
            ({
                let step = axis_step(
                    old(self).ui@,
                    old(self).ops(),
                    old(self).theme,
                    id,
                    rect,
                    max as int,
                    value as int,
                    dir,
                );
                &&& final(self).ui@ == step.ui
                &&& final(self).ops() == step.ops
                &&& out == step.value
                &&& 0 <= out <= max
            }),
    {
        let mut wanted = value;
        let step = step_of(self.ui.key_entered(), dir);
        if self.ui.is_focused(id) && step != 0 {
            wanted = clamp_to(value as i64 + step as i64, 0, max as i64) as i32;
        } else if self.ui.would_hover(id, rect) {
            let mouse = self.ui.mouse();
            let moved = match dir {
                Direction::Horizontal => mouse.xrel,
                Direction::Vertical => mouse.yrel,
            };
            wanted = clamp_to(value as i64 + SCROLL_SPEED as i64 * moved as i64, 0, max as i64) as i32;
        }
        let track = match dir {
            Direction::Horizontal => Rect { x: rect.x, y: rect.bottom(), w: rect.w, h: SCROLL_SIZE },
            Direction::Vertical => Rect { x: rect.right(), y: rect.y, w: SCROLL_SIZE, h: rect.h },
        };
        self.scrollbar(track, max, &mut wanted, dir);
        wanted
    }

    /// Lets the user scroll the region `id`, which shows content of `width` by
    /// `height` pixels in the viewport `rect`, and draws a scrollbar for each
    /// axis along which the content is larger than the viewport. Returns the
    /// viewport grown by the scrollbars that were drawn.
    ///
    /// Along such an axis the offset that is committed lies between zero and
    /// what the content is larger by. Along an axis on which the content fits,
    /// the offset is left as it is.
    pub fn scroll(&mut self, id: WidgetId, rect: Rect, width: i32, height: i32) -> (outer: Rect)
        ensures
            final(self).same_setup(old(self)),
            ({
                let ymax = scroll_range(height as int, rect.h as int);
                let xmax = scroll_range(width as int, rect.w as int);
                let (down, across) = scroll_steps(
                    old(self).ui@,
                    old(self).ops(),
                    old(self).theme,
                    id,
                    rect,
                    width as int,
                    height as int,
                );
                let offset = Pos { x: across.value as i32, y: down.value as i32 };
                let scrolled = after_scroll(
                    old(self).ui@,
                    old(self).ops(),
                    old(self).theme,
                    id,
                    rect,
                    width as int,
                    height as int,
                );
                &&& final(self).ops() == scrolled.ops
                &&& final(self).ui@ == scrolled.ui
                &&& outer == scrolled.outer
                &&& final(self).ui@.scroll_of(id) == offset
                &&& ymax > 0 ==> 0 <= final(self).ui@.scroll_of(id).y <= ymax
                &&& xmax > 0 ==> 0 <= final(self).ui@.scroll_of(id).x <= xmax
                &&& outer == rect.grown(
                    if ymax > 0 {
                        SCROLL_SIZE as int
                    } else {
                        0
                    },
                    if xmax > 0 {
                        SCROLL_SIZE as int
                    } else {
                        0
                    },
                )
            }),
    {
        let at = self.ui.scroll(id);
        let ymax = range_of(height, rect.h);
        let xmax = range_of(width, rect.w);
        let mut offset = at;
        let mut grow_w: i32 = 0;
        let mut grow_h: i32 = 0;
        if ymax > 0 {
            offset.y = self.scroll_axis(id, rect, ymax, at.y, Direction::Vertical);
            grow_w = SCROLL_SIZE;
        }
        if xmax > 0 {
            offset.x = self.scroll_axis(id, rect, xmax, at.x, Direction::Horizontal);
            grow_h = SCROLL_SIZE;
        }
        if offset.x != at.x || offset.y != at.y {
            self.ui.set_scroll(id, offset);
        }
        rect.resized(grow_w, grow_h)
    }

    /// Opens the scrollable region `label`, which shows its content in a
    /// viewport of `width` by `height` pixels. `label_size` is the size of the
    /// visible part of the label as the renderer measures it. What is drawn
    /// from now on, until the region is closed, is content of the region.
    ///
    /// Fails, and changes nothing, if the region needs a new texture and no
    /// number is left for one.
    pub fn begin_scroll_area(
        &mut self,
        label: &str,
        width: u32,
        height: u32,
        label_size: (u32, u32),
    ) -> (r: PixResult<ScrollArea>)
        ensures
            r is Err <==> old(self).out_of_textures(label_id(label@)),
            r matches Err(e) ==> {
                &&& e is TextureLimit
                &&& final(self).ui@ == old(self).ui@
                &&& final(self).ops() == old(self).ops()
                &&& final(self).same_setup(old(self))
            },
            r matches Ok(area) ==> PixState::region_opened(
                old(self),
                label@,
                width,
                height,
                label_size,
                area,
                final(self),
            ),
    {
        let id = self.ui.get_id(label);
        let known = match self.targets.get(&id.0) {
            Some(texture) => Some(*texture),
            None => None,
        };
        if known.is_none() && self.next_texture == usize::MAX {
            return Err(PixError::TextureLimit);
        }
        let text = visible_label(label);
        let theme = self.theme;
        let cursor = self.ui.cursor_pos();
        let shown = text.as_str().unicode_len() > 0;
        let top = if shown {
            saturate(cursor.y as i64 + to_side(label_size.1) as i64 + theme.item_pad.y as i64)
        } else {
            cursor.y
        };
        let rect = Rect { x: cursor.x, y: top, w: to_side(width), h: to_side(height) };
        self.ui.try_hover(id, rect);
        self.ui.try_focus(id);
        let scroll = self.ui.scroll(id);
        let mouse_offset = self.ui.mouse_offset();
        let outer_target = self.target;
        if shown {
            self.emit(
                DrawCommand::Text {
                    pos: cursor,
                    text,
                    fill: Some(theme.on_background),
                    stroke: None,
                },
            );
        }
        let texture = match known {
            Some(texture) => {
                if texture.width == width && texture.height == height {
                    assert(self.targets@.insert(id.0, texture) =~= self.targets@);
                    texture
                } else {
                    let texture = Texture { inner: texture.inner, width, height, format: None };
                    self.emit(
                        DrawCommand::CreateTexture { id: texture.inner, width, height, format: None },
                    );
                    self.targets.insert(id.0, texture);
                    texture
                }
            },
            None => {
                let texture = Texture { inner: self.next_texture, width, height, format: None };
                self.emit(
                    DrawCommand::CreateTexture { id: texture.inner, width, height, format: None },
                );
                self.targets.insert(id.0, texture);
                self.next_texture = self.next_texture + 1;
                texture
            },
        };
        self.emit(DrawCommand::Target(Some(texture.inner)));
        self.target = Some(texture.inner);
        self.emit(DrawCommand::Clear(theme.background));
        self.ui.push_cursor();
        self.ui.set_mouse_offset(mouse_offset.offset(rect.x, rect.y));
        let inside = Pos {
            x: saturate(theme.frame_pad.x as i64 - scroll.x as i64),
            y: saturate(theme.frame_pad.y as i64 - scroll.y as i64),
        };
        self.ui.set_layout(
            Layout {
                cursor: inside,
                pcursor: inside,
                line_start: inside.x,
                line_height: 0,
                pline_height: 0,
                last_width: 0,
                last_height: 0,
            },
        );
        Ok(
            ScrollArea {
                id,
                pos: cursor,
                rect,
                scroll,
                label_width: if shown {
                    to_side(label_size.0)
                } else {
                    0
                },
                texture,
                mouse_offset,
                outer_target,
            },
        )
    }

    /// Hides what was drawn over the edge of a viewport of `w` by `h` pixels
    /// whose top-left corner is the origin of the target, and outlines the
    /// viewport. The renderer cannot clip what is drawn to a texture, so the
    /// frame padding on each of the four sides is painted over with the
    /// background color.
    pub fn mask_edges(&mut self, w: i32, h: i32, outline: Color)
        ensures
            final(self).ops() == masked(old(self).ops(), w, h, old(self).theme, outline),
            final(self).ui == old(self).ui,
            final(self).same_setup(old(self)),
    {
        let pad = self.theme.frame_pad;
        let fill = Some(self.theme.background);
        self.emit(DrawCommand::Rect { rect: Rect { x: 0, y: 0, w, h: pad.y }, fill, stroke: None });
        self.emit(DrawCommand::Rect { rect: Rect { x: 0, y: 0, w: pad.x, h }, fill, stroke: None });
        self.emit(
            DrawCommand::Rect {
                rect: Rect { x: saturate(w as i64 - pad.x as i64), y: 0, w: pad.x, h },
                fill,
                stroke: None,
            },
        );
        self.emit(
            DrawCommand::Rect {
                rect: Rect { x: 0, y: saturate(h as i64 - pad.y as i64), w, h: pad.y },
                fill,
                stroke: None,
            },
        );
        self.emit(
            DrawCommand::Rect { rect: Rect { x: 0, y: 0, w, h }, fill: None, stroke: Some(outline) },
        );
    }

    /// Closes the scrollable region `area`, and returns the rectangle that the
    /// region takes in the layout, its label and scrollbars included.
    pub fn end_scroll_area(&mut self, area: ScrollArea) -> (outer: Rect)
        ensures
            PixState::region_closed(old(self), area, final(self), outer),
    {
        let theme = self.theme;
        let pad = theme.frame_pad;
        let left = self.ui.layout();
        let width = saturate(
            left.cursor.x as i64 + area.scroll.x as i64 + left.last_width as i64 + pad.x as i64,
        );
        let height = saturate(left.cursor.y as i64 + area.scroll.y as i64);
        let outline = if self.ui.is_focused(area.id) {
            theme.highlight
        } else {
            theme.muted
        };
        self.mask_edges(area.rect.w, area.rect.h, outline);
        self.emit(DrawCommand::Target(area.outer_target));
        self.target = area.outer_target;
        self.emit(
            DrawCommand::Texture {
                id: area.texture.inner,
                src: None,
                dst: Some(area.rect),
                angle: 0,
                center: None,
                flipped: None,
                tint: None,
            },
        );
        self.ui.pop_cursor();
        self.ui.set_mouse_offset(area.mouse_offset);
        self.ui.handle_events(area.id);
        let grown = self.scroll(area.id, area.rect, width, height);
        let outer = Rect {
            x: area.pos.x,
            y: area.pos.y,
            w: if grown.w > area.label_width {
                grown.w
            } else {
                area.label_width
            },
            h: saturate(grown.bottom() as i64 - area.pos.y as i64),
        };
        self.ui.advance_cursor(outer, theme.item_pad.y);
        outer
    }

    /// Draws a scrollable region: `content` draws into a viewport of `width` by
    /// `height` pixels, scrolled by as much as the user has scrolled the
    /// region. `label_size` is the size of the visible part of the label as
    /// the renderer measures it.
    ///
    /// Fails, and changes nothing, if the region needs a new texture and no
    /// number is left for one. Else the region is opened, `content` draws, and
    /// the region is closed, whether `content` fails or not; what `content`
    /// returns is handed on.
    pub fn scroll_area<D: Draw>(
        &mut self,
        label: &str,
        width: u32,
        height: u32,
        label_size: (u32, u32),
        content: &D,
    ) -> (r: PixResult<()>)
        ensures
            old(self).out_of_textures(label_id(label@)) ==> {
                &&& r matches Err(PixError::TextureLimit)
                &&& final(self).ui@ == old(self).ui@
                &&& final(self).ops() == old(self).ops()
                &&& final(self).same_setup(old(self))
            },
            !old(self).out_of_textures(label_id(label@)) ==> exists|
                opened: PixState,
                area: ScrollArea,
                drawn: PixState,
                outer: Rect,
            |
                #![trigger
                    PixState::region_opened(old(self), label@, width, height, label_size, area, &opened),
                    PixState::region_closed(&drawn, area, final(self), outer),
                ]
                {
                    &&& PixState::region_opened(
                        old(self),
                        label@,
                        width,
                        height,
                        label_size,
                        area,
                        &opened,
                    )
                    &&& content.drawn(&opened, &drawn, r)
                    &&& PixState::region_closed(&drawn, area, final(self), outer)
                },
    {
        let area = match self.begin_scroll_area(label, width, height, label_size) {
            Ok(area) => area,
            Err(e) => {
                return Err(e);
            },
        };
        let ghost opened = *self;
        let result = content.draw(self);
        let ghost drawn = *self;
        let outer = self.end_scroll_area(area);
        proof {
            assert(PixState::region_opened(
                old(self),
                label@,
                width,
                height,
                label_size,
                area,
                &opened,
            ));
            assert(PixState::region_closed(&drawn, area, self, outer));
            assert(content.drawn(&opened, &drawn, result));
        }
        result
    }

    /// Draws a scrollbar into `rect` and lets the user move it. `max` is how far
    /// the content can be scrolled, `value` how far it is scrolled. Says
    /// whether the user changed the value.
    ///
    /// The value is first limited to `0..=max`. Then a drag of the thumb
    /// decides, before the arrow keys of the bar's axis, which count while the
    /// bar has the keyboard focus. With `max` of zero or less there is nothing
    /// to scroll: nothing is drawn and nothing changes.
    pub fn scrollbar(&mut self, rect: Rect, max: i32, value: &mut i32, dir: Direction) -> (changed:
        bool)
        ensures
            final(self).same_setup(old(self)),
            max <= 0 ==> {
                &&& !changed
                &&& *final(value) == *old(value)
                &&& final(self).ui@ == old(self).ui@
                &&& final(self).ops() == old(self).ops()
            },
            max > 0 ==> ({
                let id = rect_id(rect);
                let asked = old(self).ui@.after_hover(id, rect).after_focus(id);
                let held = clamp(*old(value) as int, 0, max as int);
                &&& *final(value) == scrollbar_value(
                    asked,
                    id,
                    rect,
                    max as int,
                    *old(value) as int,
                    dir,
                )
                &&& 0 <= *final(value) <= max
                &&& changed == (*final(value) != held)
                &&& final(self).ui@ == asked.after_events(id)
                &&& final(self).ops() == scrollbar_drawn(
                    old(self).ops(),
                    asked,
                    old(self).theme,
                    id,
                    rect,
                    max as int,
                    held,
                    dir,
                )
            }),
    {
        if max <= 0 {
            return false;
        }
        let id = self.ui.get_rect_id(rect);
        let hovered = self.ui.try_hover(id, rect);
        let focused = self.ui.try_focus(id);
        let active = self.ui.is_active(id);
        let held = clamp_to(*value as i64, 0, max as i64) as i32;

        let track = match dir {
            Direction::Horizontal => if rect.w < 0 {
                0
            } else {
                rect.w
            },
            Direction::Vertical => if rect.h < 0 {
                0
            } else {
                rect.h
            },
        };
        let len = thumb_length(track, max);
        let pos = thumb_position(track, max, held);
        let thumb = match dir {
            Direction::Horizontal => Rect {
                x: saturate(rect.x as i64 + pos as i64),
                y: rect.y,
                w: len,
                h: rect.h,
            },
            Direction::Vertical => Rect {
                x: rect.x,
                y: saturate(rect.y as i64 + pos as i64),
                w: rect.w,
                h: len,
            },
        };
        if hovered {
            self.emit(DrawCommand::HandCursor);
        }
        self.emit(DrawCommand::Rect { rect, fill: Some(self.theme.on_secondary), stroke: None });
        let fill = if hovered || active {
            self.theme.highlight
        } else {
            self.theme.secondary
        };
        self.emit(DrawCommand::Rect { rect: thumb, fill: Some(fill), stroke: None });

        let pointer = self.ui.mouse_pos();
        let new_value = if active && track > 0 {
            let offset = match dir {
                Direction::Horizontal => pointer.x as i64 - rect.x as i64,
                Direction::Vertical => pointer.y as i64 - rect.y as i64,
            };
            drag_value(track, max, offset)
        } else if focused {
            let step = step_of(self.ui.key_entered(), dir);
            clamp_to(held as i64 + step as i64, 0, max as i64) as i32
        } else {
            held
        };
        self.ui.handle_events(id);
        *value = new_value;
        new_value != held
    }
}

} // verus!
