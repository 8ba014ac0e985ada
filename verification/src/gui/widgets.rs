//! Buttons, checkboxes and radio buttons.
//!
//! Each widget is one method call per frame. The call lays the widget out at
//! the layout cursor, asks for hover and focus, draws the widget as its state
//! demands, commits its mouse handling, moves the cursor on, and says whether
//! the widget was clicked.
//!
//! A label may hold a `#`. What stands before it is shown; all of it tells
//! widgets apart, so that two widgets can show the same text.
//!
//! Widgets do not measure text. Each call takes the size of the shown part of
//! its label as the renderer measures it.

use vstd::prelude::*;
use crate::color::Color;
use crate::draw::{DrawCommand, DrawOp};
use crate::gui::state::{label_id, visible, visible_label, Layout, UiView, WidgetId};
use crate::gui::theme::Theme;
use crate::shape::rect::{half, sat, saturate, Pos, Rect};
use crate::state::settings::DrawMode;
use crate::state::PixState;
use crate::texture::{side, to_side};

verus! {

/// Width and height of a checkbox in pixels.
pub const CHECKBOX_SIZE: i32 = 16;

/// Radius of a radio button in pixels.
pub const RADIO_SIZE: i32 = 8;

/// The rectangle of a button at the layout cursor whose label measures
/// `size`: the label with the item padding of the theme on all four sides. A
/// width that was asked for the next widget takes the place of the width of
/// the label.
pub open spec fn button_rect(ui: UiView, theme: Theme, size: (u32, u32)) -> Rect {
    let width = match ui.next_width {
        Some(width) => width,
        None => side(size.0),
    };
    Rect {
        x: ui.layout.cursor.x,
        y: ui.layout.cursor.y,
        w: sat(width + 2 * theme.item_pad.x) as i32,
        h: sat(side(size.1) + 2 * theme.item_pad.y) as i32,
    }
}

/// The rectangle of a checkbox or of a radio button at `cursor`.
pub open spec fn box_rect(cursor: Pos) -> Rect {
    Rect { x: cursor.x, y: cursor.y, w: CHECKBOX_SIZE, h: CHECKBOX_SIZE }
}

/// The rectangle of text that measures `size` and starts at `pos`.
pub open spec fn text_rect(pos: Pos, size: (u32, u32)) -> Rect {
    Rect { x: pos.x, y: pos.y, w: side(size.0), h: side(size.1) }
}

/// Where text that measures `size` starts so that it has its middle at `mid`.
pub open spec fn centered(mid: Pos, size: (u32, u32)) -> Pos {
    mid.moved(-(side(size.0) / 2), -(side(size.1) / 2))
}

/// The interaction state after the widget `id`, which occupies `rect`, took
/// its steps, with `layout` as the layout that it leaves. A width that was
/// asked for the next widget is used up.
pub open spec fn widget_done(ui: UiView, id: WidgetId, rect: Rect, layout: Layout) -> UiView {
    UiView { layout, next_width: None, ..ui.after_widget(id, rect) }
}

/// The layout after a widget that is a box with a label to its right: the box
/// takes its line, the label continues that line, and the cursor goes below.
pub open spec fn labelled_layout(layout: Layout, theme: Theme, size: (u32, u32)) -> Layout {
    let boxed = layout.advanced(box_rect(layout.cursor), theme.item_pad.y as int).continued(
        theme.item_pad.x as int,
    );
    boxed.advanced(text_rect(boxed.cursor, size), theme.item_pad.y as int)
}

/// Where the label of a box at `cursor` starts.
pub open spec fn label_pos(layout: Layout, theme: Theme) -> Pos {
    layout.advanced(box_rect(layout.cursor), theme.item_pad.y as int).continued(
        theme.item_pad.x as int,
    ).cursor
}

/// The fill of a widget at rest: the primary color, at half its brightness
/// while widgets are disabled.
pub open spec fn rest_fill(asked: UiView, theme: Theme) -> Color {
    if asked.disabled {
        theme.primary.spec_dimmed()
    } else {
        theme.primary
    }
}

/// The color of what marks a box as checked or selected: the highlight, at
/// half its brightness while widgets are disabled.
pub open spec fn mark_color(asked: UiView, theme: Theme) -> Color {
    if asked.disabled {
        theme.highlight.spec_dimmed()
    } else {
        theme.highlight
    }
}

/// The commands after a button was drawn behind `ops`. `asked` is the
/// interaction state after the button asked for hover and focus.
///
/// Under the pointer the button is highlighted and the hand cursor is shown,
/// and while it is pressed it is drawn one pixel down and right. Its outline
/// is highlighted while it has the keyboard focus. Its label is centered and
/// cut off at its edge.
pub open spec fn button_drawn(
    ops: Seq<DrawOp>,
    asked: UiView,
    theme: Theme,
    id: WidgetId,
    rect: Rect,
    text: Seq<char>,
    size: (u32, u32),
) -> Seq<DrawOp> {
    let hovered = asked.hovered == Some(id);
    let drawn = if hovered && asked.active == Some(id) {
        rect.shifted(1, 1)
    } else {
        rect
    };
    let ops = if hovered {
        ops.push(DrawOp::HandCursor)
    } else {
        ops
    };
    ops.push(
        DrawOp::Rect {
            rect: drawn,
            fill: Some(
                if hovered {
                    theme.highlight
                } else {
                    rest_fill(asked, theme)
                },
            ),
            stroke: Some(
                if asked.focused == Some(id) {
                    theme.highlight
                } else {
                    theme.muted
                },
            ),
        },
    ).push(DrawOp::Clip(Some(drawn))).push(
        DrawOp::Text {
            pos: centered(drawn.spec_center(), size),
            text,
            fill: Some(theme.on_primary),
            stroke: None,
        },
    ).push(DrawOp::Clip(None))
}

/// The fill and the outline of a checkbox or radio button. Under the pointer
/// the box takes the secondary color; its outline is highlighted while it has
/// the keyboard focus or is pressed.
pub open spec fn box_colors(asked: UiView, theme: Theme, id: WidgetId) -> (Color, Color) {
    (
        if asked.hovered == Some(id) {
            theme.secondary
        } else {
            rest_fill(asked, theme)
        },
        if asked.focused == Some(id) || asked.active == Some(id) {
            theme.highlight
        } else {
            theme.muted
        },
    )
}

/// The commands after a checkbox was drawn behind `ops`: the hand cursor if
/// the pointer is on the box, the box, the two strokes of the check mark if
/// it is checked, and the label to the right of the box.
pub open spec fn checkbox_drawn(
    ops: Seq<DrawOp>,
    asked: UiView,
    theme: Theme,
    id: WidgetId,
    text: Seq<char>,
    checked: bool,
) -> Seq<DrawOp> {
    let rect = box_rect(asked.layout.cursor);
    let (fill, stroke) = box_colors(asked, theme, id);
    let ops = if asked.hovered == Some(id) {
        ops.push(DrawOp::HandCursor)
    } else {
        ops
    };
    let ops = ops.push(DrawOp::Rect { rect, fill: Some(fill), stroke: Some(stroke) });
    let bend = Pos { x: rect.x, y: rect.y }.moved(CHECKBOX_SIZE / 2 - 1, CHECKBOX_SIZE - CHECKBOX_SIZE / 3);
    let ops = if checked {
        ops.push(
            DrawOp::Line {
                start: bend.moved(2 - CHECKBOX_SIZE / 3, 2 - CHECKBOX_SIZE / 3),
                end: bend,
                stroke: Some(mark_color(asked, theme)),
                weight: 2,
            },
        ).push(
            DrawOp::Line {
                start: bend,
                end: bend.moved(CHECKBOX_SIZE / 3 + 1, 2 - CHECKBOX_SIZE / 2),
                stroke: Some(mark_color(asked, theme)),
                weight: 2,
            },
        )
    } else {
        ops
    };
    ops.push(
        DrawOp::Text {
            pos: label_pos(asked.layout, theme),
            text,
            fill: Some(theme.on_background),
            stroke: None,
        },
    )
}

/// The commands after a radio button was drawn behind `ops`: the hand cursor
/// if the pointer is on it, the circle, a smaller filled circle in it if it is
/// the selected one, and the label to the right.
pub open spec fn radio_drawn(
    ops: Seq<DrawOp>,
    asked: UiView,
    theme: Theme,
    id: WidgetId,
    text: Seq<char>,
    selected: bool,
) -> Seq<DrawOp> {
    let rect = box_rect(asked.layout.cursor);
    let (fill, stroke) = box_colors(asked, theme, id);
    let ops = if asked.hovered == Some(id) {
        ops.push(DrawOp::HandCursor)
    } else {
        ops
    };
    let ops = ops.push(DrawOp::Ellipse { rect, fill: Some(fill), stroke: Some(stroke) });
    let ops = if selected {
        ops.push(
            DrawOp::Ellipse {
                rect: Rect {
                    x: sat(rect.x + 2) as i32,
                    y: sat(rect.y + 2) as i32,
                    w: (CHECKBOX_SIZE - 4) as i32,
                    h: (CHECKBOX_SIZE - 4) as i32,
                },
                fill: Some(mark_color(asked, theme)),
                stroke: None,
            },
        )
    } else {
        ops
    };
    ops.push(
        DrawOp::Text {
            pos: label_pos(asked.layout, theme),
            text,
            fill: Some(theme.on_background),
            stroke: None,
        },
    )
}

impl PixState {
    /// Draws text that measures `size` at `p`; with its middle at `p` if
    /// rectangles are placed by their center. The text takes the fill and the
    /// stroke of the settings.
    pub fn text(&mut self, p: Pos, text: &str, size: (u32, u32))
        ensures
            final(self).ops() == old(self).ops().push(
                DrawOp::Text {
                    pos: if old(self).settings.rect_mode == DrawMode::Center {
                        centered(p, size)
                    } else {
                        p
                    },
                    text: text@,
                    fill: old(self).settings.fill,
                    stroke: old(self).settings.stroke,
                },
            ),
            final(self).ui == old(self).ui,
            final(self).same_setup(old(self)),
    {
        let pos = match self.settings.rect_mode {
            DrawMode::Center => p.offset(-(to_side(size.0) / 2), -(to_side(size.1) / 2)),
            DrawMode::Corner => p,
        };
        self.emit(
            DrawCommand::Text {
                pos,
                text: text.to_string(),
                fill: self.settings.fill,
                stroke: self.settings.stroke,
            },
        );
    }

    /// Draws a button at the layout cursor and says whether it was clicked.
    /// `size` is the size of the shown part of `label`.
    ///
    /// The button is clicked at the frame at which the primary mouse button
    /// goes up on it, if it went down on it before. While widgets are disabled
    /// the button is drawn and takes its place, and is never clicked.
    pub fn button(&mut self, label: &str, size: (u32, u32)) -> (clicked: bool)
        ensures
            final(self).same_setup(old(self)),
            ({
                let theme = old(self).theme;
                let id = label_id(label@);
                let rect = button_rect(old(self).ui@, theme, size);
                let asked = old(self).ui@.after_hover(id, rect).after_focus(id);
                &&& clicked == old(self).ui@.after_widget(id, rect).was_clicked(id)
                &&& final(self).ui@ == widget_done(
                    old(self).ui@,
                    id,
                    rect,
                    old(self).ui@.layout.advanced(rect, theme.item_pad.y as int),
                )
                &&& final(self).ops() == button_drawn(
                    old(self).ops(),
                    asked,
                    theme,
                    id,
                    rect,
                    visible(label@),
                    size,
                )
            }),
    {
        let theme = self.theme;
        let id = self.ui.get_id(label);
        let text = visible_label(label);
        let cursor = self.ui.cursor_pos();
        let width = match self.ui.next_width() {
            Some(width) => width,
            None => to_side(size.0),
        };
        let rect = Rect {
            x: cursor.x,
            y: cursor.y,
            w: saturate(width as i64 + 2 * theme.item_pad.x as i64),
            h: saturate(to_side(size.1) as i64 + 2 * theme.item_pad.y as i64),
        };

        let hovered = self.ui.try_hover(id, rect);
        let focused = self.ui.try_focus(id);
        let disabled = self.ui.is_disabled();
        let active = self.ui.is_active(id);

        let drawn = if hovered && active {
            rect.offset(1, 1)
        } else {
            rect
        };
        if hovered {
            self.emit(DrawCommand::HandCursor);
        }
        let fill = if hovered {
            theme.highlight
        } else if disabled {
            theme.primary.dimmed()
        } else {
            theme.primary
        };
        let stroke = if focused {
            theme.highlight
        } else {
            theme.muted
        };
        self.emit(DrawCommand::Rect { rect: drawn, fill: Some(fill), stroke: Some(stroke) });
        self.emit(DrawCommand::Clip(Some(drawn)));
        let pos = drawn.center().offset(-(to_side(size.0) / 2), -(to_side(size.1) / 2));
        self.emit(DrawCommand::Text { pos, text, fill: Some(theme.on_primary), stroke: None });
        self.emit(DrawCommand::Clip(None));

        self.ui.handle_events(id);
        self.ui.advance_cursor(rect, theme.item_pad.y);
        self.ui.was_clicked(id)
    }

    /// Lays out a box of [`CHECKBOX_SIZE`] at the layout cursor and the label
    /// to its right, and returns the rectangle of the box and the position of
    /// the label.
    fn place_box(&mut self, size: (u32, u32)) -> (placed: (Rect, Pos))
        ensures
            placed.0 == box_rect(old(self).ui@.layout.cursor),
            placed.1 == label_pos(old(self).ui@.layout, old(self).theme),
            final(self).ui@ == (UiView {
                layout: labelled_layout(old(self).ui@.layout, old(self).theme, size),
                next_width: None,
                ..old(self).ui@
            }),
            final(self).ops() == old(self).ops(),
            final(self).same_setup(old(self)),
    {
        let theme = self.theme;
        let cursor = self.ui.cursor_pos();
        let rect = Rect { x: cursor.x, y: cursor.y, w: CHECKBOX_SIZE, h: CHECKBOX_SIZE };
        self.ui.advance_cursor(rect, theme.item_pad.y);
        self.ui.same_line(theme.item_pad.x);
        let pos = self.ui.cursor_pos();
        self.ui.advance_cursor(
            Rect { x: pos.x, y: pos.y, w: to_side(size.0), h: to_side(size.1) },
            theme.item_pad.y,
        );
        (rect, pos)
    }

    /// Draws a checkbox at the layout cursor, with its label to its right, and
    /// says whether it was clicked. A click turns `checked` over. `size` is
    /// the size of the shown part of `label`.
    pub fn checkbox(&mut self, label: &str, checked: &mut bool, size: (u32, u32)) -> (toggled: bool)
        ensures
            final(self).same_setup(old(self)),
            ({
                let theme = old(self).theme;
                let id = label_id(label@);
                let rect = box_rect(old(self).ui@.layout.cursor);
                let asked = old(self).ui@.after_hover(id, rect).after_focus(id);
                &&& toggled == old(self).ui@.after_widget(id, rect).was_clicked(id)
                &&& *final(checked) == (*old(checked) != toggled)
                &&& final(self).ui@ == widget_done(
                    old(self).ui@,
                    id,
                    rect,
                    labelled_layout(old(self).ui@.layout, theme, size),
                )
                &&& final(self).ops() == checkbox_drawn(
                    old(self).ops(),
                    asked,
                    theme,
                    id,
                    visible(label@),
                    *old(checked),
                )
            }),
    {
        let theme = self.theme;
        let id = self.ui.get_id(label);
        let text = visible_label(label);
        let (rect, label_at) = self.place_box(size);

        let hovered = self.ui.try_hover(id, rect);
        let focused = self.ui.try_focus(id);
        let disabled = self.ui.is_disabled();
        let active = self.ui.is_active(id);

        if hovered {
            self.emit(DrawCommand::HandCursor);
        }
        let fill = if hovered {
            theme.secondary
        } else if disabled {
            theme.primary.dimmed()
        } else {
            theme.primary
        };
        let stroke = if focused || active {
            theme.highlight
        } else {
            theme.muted
        };
        self.emit(DrawCommand::Rect { rect, fill: Some(fill), stroke: Some(stroke) });
        if *checked {
            let mark = if disabled {
                theme.highlight.dimmed()
            } else {
                theme.highlight
            };
            let bend = rect.top_left().offset(
                CHECKBOX_SIZE / 2 - 1,
                CHECKBOX_SIZE - CHECKBOX_SIZE / 3,
            );
            self.emit(
                DrawCommand::Line {
                    start: bend.offset(2 - CHECKBOX_SIZE / 3, 2 - CHECKBOX_SIZE / 3),
                    end: bend,
                    stroke: Some(mark),
                    weight: 2,
                },
            );
            self.emit(
                DrawCommand::Line {
                    start: bend,
                    end: bend.offset(CHECKBOX_SIZE / 3 + 1, 2 - CHECKBOX_SIZE / 2),
                    stroke: Some(mark),
                    weight: 2,
                },
            );
        }
        self.emit(
            DrawCommand::Text {
                pos: label_at,
                text,
                fill: Some(theme.on_background),
                stroke: None,
            },
        );

        self.ui.handle_events(id);
        let clicked = self.ui.was_clicked(id);
        if clicked {
            *checked = !*checked;
        }
        clicked
    }

    /// Draws a radio button at the layout cursor, with its label to its right,
    /// and says whether it was clicked. The button is drawn selected if
    /// `selected` is `index`; a click makes it so. `size` is the size of the
    /// shown part of `label`.
    pub fn radio(&mut self, label: &str, selected: &mut usize, index: usize, size: (u32, u32)) -> (clicked:
        bool)
        ensures
            final(self).same_setup(old(self)),
            ({
                let theme = old(self).theme;
                let id = label_id(label@);
                let rect = box_rect(old(self).ui@.layout.cursor);
                let asked = old(self).ui@.after_hover(id, rect).after_focus(id);
                &&& clicked == old(self).ui@.after_widget(id, rect).was_clicked(id)
                &&& *final(selected) == if clicked {
                    index
                } else {
                    *old(selected)
                }
                &&& final(self).ui@ == widget_done(
                    old(self).ui@,
                    id,
                    rect,
                    labelled_layout(old(self).ui@.layout, theme, size),
                )
                &&& final(self).ops() == radio_drawn(
                    old(self).ops(),
                    asked,
                    theme,
                    id,
                    visible(label@),
                    *old(selected) == index,
                )
            }),
    {
        let theme = self.theme;
        let id = self.ui.get_id(label);
        let text = visible_label(label);
        let (rect, label_at) = self.place_box(size);

        let hovered = self.ui.try_hover(id, rect);
        let focused = self.ui.try_focus(id);
        let disabled = self.ui.is_disabled();
        let active = self.ui.is_active(id);

        if hovered {
            self.emit(DrawCommand::HandCursor);
        }
        let fill = if hovered {
            theme.secondary
        } else if disabled {
            theme.primary.dimmed()
        } else {
            theme.primary
        };
        let stroke = if focused || active {
            theme.highlight
        } else {
            theme.muted
        };
        self.emit(DrawCommand::Ellipse { rect, fill: Some(fill), stroke: Some(stroke) });
        if *selected == index {
            let mark = if disabled {
                theme.highlight.dimmed()
            } else {
                theme.highlight
            };
            self.emit(
                DrawCommand::Ellipse {
                    rect: Rect {
                        x: saturate(rect.x as i64 + 2),
                        y: saturate(rect.y as i64 + 2),
                        w: CHECKBOX_SIZE - 4,
                        h: CHECKBOX_SIZE - 4,
                    },
                    fill: Some(mark),
                    stroke: None,
                },
            );
        }
        self.emit(
            DrawCommand::Text {
                pos: label_at,
                text,
                fill: Some(theme.on_background),
                stroke: None,
            },
        );

        self.ui.handle_events(id);
        let clicked = self.ui.was_clicked(id);
        if clicked {
            *selected = index;
        }
        clicked
    }
}

} // verus!
