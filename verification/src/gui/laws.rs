//! What holds of the interaction state whatever the widgets and the input are.

use vstd::prelude::*;
use crate::event::{Key, MouseState};
use crate::gui::state::{UiView, WidgetId};
use crate::shape::rect::{Pos, Rect};

verus! {

/// At most one widget is active: two identifiers that are both active are one
/// and the same.
pub proof fn law_one_active(ui: UiView, a: WidgetId, b: WidgetId)
    requires
        ui.active == Some(a),
        ui.active == Some(b),
    ensures
        a == b,
{
}

/// At most one widget is hovered, and at most one has the keyboard focus.
pub proof fn law_one_hovered_one_focused(ui: UiView, a: WidgetId, b: WidgetId)
    ensures
        ui.hovered == Some(a) && ui.hovered == Some(b) ==> a == b,
        ui.focused == Some(a) && ui.focused == Some(b) ==> a == b,
{
}

/// Asking for the hover twice in a row, for the same widget with the same
/// rectangle, gives the same answer both times and the same state as asking
/// once.
pub proof fn law_hover_idempotent(ui: UiView, id: WidgetId, rect: Rect)
    ensures
        ui.after_hover(id, rect).hovers(id, rect) == ui.hovers(id, rect),
        ui.after_hover(id, rect).after_hover(id, rect) == ui.after_hover(id, rect),
{
}

/// Asking for the keyboard focus twice in a row for the same widget gives the
/// same answer both times and the same state as asking once: the second call
/// neither takes the focus away nor hands it on.
pub proof fn law_focus_idempotent(ui: UiView, id: WidgetId)
    ensures
        ui.after_focus(id).after_focus(id) == ui.after_focus(id),
        (ui.after_focus(id).after_focus(id).focused == Some(id)) == (ui.after_focus(id).focused
            == Some(id)),
{
}

/// Asking for hover and focus leaves the active widget alone.
pub proof fn law_queries_keep_active(ui: UiView, id: WidgetId, rect: Rect)
    ensures
        ui.after_hover(id, rect).active == ui.active,
        ui.after_focus(id).active == ui.active,
        ui.after_hover(id, rect).clicked == ui.clicked,
        ui.after_focus(id).clicked == ui.clicked,
{
}

/// A widget is active after its three steps exactly if the primary button went
/// down on it at this frame, or it was active before and the button did not go
/// up.
pub proof fn law_active_after_widget(ui: UiView, id: WidgetId, rect: Rect)
    ensures
        ui.after_widget(id, rect).active == Some(id) <==> {
            ||| ui.pressed() && !ui.disabled && rect.covers(ui.pointer())
            ||| ui.active == Some(id) && !ui.released()
        },
{
}

/// A widget stays active while another one is drawn, unless the primary button
/// goes down on that other one; and it does not become active by it.
pub proof fn law_active_kept(ui: UiView, id: WidgetId, other: WidgetId, rect: Rect)
    requires
        other != id,
    ensures
        ui.after_widget(other, rect).active == Some(id) <==> {
            &&& ui.active == Some(id)
            &&& !(ui.pressed() && !ui.disabled && rect.covers(ui.pointer()))
        },
{
}

/// In a frame in which no click has been counted yet, a widget is clicked after
/// its three steps exactly if the primary button went up at this frame, the
/// widget was the active one, and the pointer is in its rectangle.
pub proof fn law_click_on_release(ui: UiView, id: WidgetId, rect: Rect)
    requires
        ui.clicked is None,
    ensures
        ui.after_widget(id, rect).was_clicked(id) <==> {
            &&& ui.released()
            &&& ui.active == Some(id)
            &&& !ui.disabled
            &&& rect.covers(ui.pointer())
        },
{
}

/// Drawing a widget never counts a click for another one.
pub proof fn law_click_is_own(ui: UiView, id: WidgetId, other: WidgetId, rect: Rect)
    requires
        other != id,
        !ui.was_clicked(id),
    ensures
        !ui.after_widget(other, rect).was_clicked(id),
{
}

/// The state of a widget that is drawn alone, frame after frame: `ui` at the
/// start of a frame with the input `mouse`, through the three steps of the
/// widget, to the end of the frame.
pub open spec fn frame_with(
    ui: UiView,
    mouse: MouseState,
    key: Option<Key>,
    origin: Pos,
    id: WidgetId,
    rect: Rect,
) -> UiView {
    ui.next_frame(mouse, key, origin).after_widget(id, rect)
}

/// Press and release make a click exactly if both happen on the widget.
///
/// A widget with the rectangle `rect` is drawn at two frames that follow each
/// other. Before the first no button is held and nothing is active. At the
/// first the primary button is down, at the second it is up. Then the widget
/// is clicked at the second frame exactly if the pointer was in `rect` at both
/// frames. In either case nothing is active afterwards.
pub proof fn law_click(
    ui: UiView,
    down: MouseState,
    up: MouseState,
    key: Option<Key>,
    origin: Pos,
    id: WidgetId,
    rect: Rect,
)
    requires
        !ui.disabled,
        !ui.mouse.left,
        ui.active is None,
        down.left,
        !up.left,
    ensures
        ({
            let pressed = frame_with(ui, down, key, origin, id, rect).frame_ended();
            let released = frame_with(pressed, up, key, origin, id, rect);
            &&& pressed.active == Some(id) <==> rect.covers(down.pos)
            &&& released.was_clicked(id) <==> rect.covers(down.pos) && rect.covers(up.pos)
            &&& released.active is None
        }),
{
    let first = ui.next_frame(down, key, origin);
    assert(first.pointer() == down.pos);
    let pressed = frame_with(ui, down, key, origin, id, rect).frame_ended();
    let second = pressed.next_frame(up, key, origin);
    assert(second.pointer() == up.pos);
}

/// A press on one widget that is released on another clicks neither.
///
/// Two widgets with different identifiers are drawn, `a` before `b`, at two
/// frames that follow each other; the button goes down at the first and up at
/// the second. If the pointer is in the rectangle of `a` alone at the press,
/// and in that of `b` alone at the release, no click is counted.
pub proof fn law_click_needs_same_widget(
    ui: UiView,
    down: MouseState,
    up: MouseState,
    key: Option<Key>,
    origin: Pos,
    a: WidgetId,
    rect_a: Rect,
    b: WidgetId,
    rect_b: Rect,
)
    requires
        a != b,
        !ui.disabled,
        !ui.mouse.left,
        ui.active is None,
        down.left,
        !up.left,
        rect_a.covers(down.pos) && !rect_b.covers(down.pos),
        rect_b.covers(up.pos) && !rect_a.covers(up.pos),
    ensures
        ({
            let pressed = frame_with(ui, down, key, origin, a, rect_a).after_widget(
                b,
                rect_b,
            ).frame_ended();
            let released = frame_with(pressed, up, key, origin, a, rect_a).after_widget(b, rect_b);
            &&& pressed.active == Some(a)
            &&& !released.was_clicked(a)
            &&& !released.was_clicked(b)
            &&& released.active is None
        }),
{
    let first = ui.next_frame(down, key, origin);
    assert(first.pointer() == down.pos);
    let pressed = frame_with(ui, down, key, origin, a, rect_a).after_widget(b, rect_b).frame_ended();
    let second = pressed.next_frame(up, key, origin);
    assert(second.pointer() == up.pos);
}

/// Of two widgets under the pointer, the one drawn last takes the press, and
/// with it the click.
pub proof fn law_last_drawn_wins(
    ui: UiView,
    down: MouseState,
    up: MouseState,
    key: Option<Key>,
    origin: Pos,
    a: WidgetId,
    rect_a: Rect,
    b: WidgetId,
    rect_b: Rect,
)
    requires
        a != b,
        !ui.disabled,
        !ui.mouse.left,
        ui.active is None,
        down.left,
        !up.left,
        rect_a.covers(down.pos) && rect_b.covers(down.pos),
        rect_a.covers(up.pos) && rect_b.covers(up.pos),
    ensures
        ({
            let pressed = frame_with(ui, down, key, origin, a, rect_a).after_widget(
                b,
                rect_b,
            ).frame_ended();
            let released = frame_with(pressed, up, key, origin, a, rect_a).after_widget(b, rect_b);
            &&& pressed.active == Some(b)
            &&& pressed.hovered == Some(b)
            &&& !released.was_clicked(a)
            &&& released.was_clicked(b)
        }),
{
    let first = ui.next_frame(down, key, origin);
    assert(first.pointer() == down.pos);
    let pressed = frame_with(ui, down, key, origin, a, rect_a).after_widget(b, rect_b).frame_ended();
    let second = pressed.next_frame(up, key, origin);
    assert(second.pointer() == up.pos);
}

/// A drag that leaves the widget cancels the click.
///
/// The widget is drawn at three frames that follow each other: the primary
/// button goes down with the pointer in `rect`, is held while the pointer is
/// outside, and goes up outside. The widget stays active while the button is
/// held, although the pointer has left it. At the release it is not clicked,
/// and nothing is active any more.
pub proof fn law_drag_cancel(
    ui: UiView,
    down: MouseState,
    held: MouseState,
    up: MouseState,
    key: Option<Key>,
    origin: Pos,
    id: WidgetId,
    rect: Rect,
)
    requires
        !ui.disabled,
        !ui.mouse.left,
        ui.active is None,
        down.left && rect.covers(down.pos),
        held.left && !rect.covers(held.pos),
        !up.left && !rect.covers(up.pos),
    ensures
        ({
            let pressed = frame_with(ui, down, key, origin, id, rect).frame_ended();
            let dragged = frame_with(pressed, held, key, origin, id, rect).frame_ended();
            let released = frame_with(dragged, up, key, origin, id, rect);
            &&& pressed.active == Some(id) && pressed.hovered == Some(id)
            &&& dragged.active == Some(id) && dragged.hovered is None
            &&& !released.was_clicked(id)
            &&& released.active is None
        }),
{
    let first = ui.next_frame(down, key, origin);
    assert(first.pointer() == down.pos);
    let pressed = frame_with(ui, down, key, origin, id, rect).frame_ended();
    let second = pressed.next_frame(held, key, origin);
    assert(second.pointer() == held.pos);
    let dragged = frame_with(pressed, held, key, origin, id, rect).frame_ended();
    let third = dragged.next_frame(up, key, origin);
    assert(third.pointer() == up.pos);
}

/// The state after the widgets `drawn` took their steps, one after the other.
/// Each is given by its identifier and the rectangle that it occupies.
pub open spec fn after_widgets(ui: UiView, drawn: Seq<(WidgetId, Rect)>) -> UiView
    decreases drawn.len(),
{
    if drawn.len() == 0 {
        ui
    } else {
        after_widgets(ui, drawn.drop_last()).after_widget(drawn.last().0, drawn.last().1)
    }
}

/// The widget that was drawn last of those of `drawn` whose rectangle covers
/// `p`.
pub open spec fn last_under(drawn: Seq<(WidgetId, Rect)>, p: Pos) -> Option<WidgetId>
    decreases drawn.len(),
{
    if drawn.len() == 0 {
        None
    } else if drawn.last().1.covers(p) {
        Some(drawn.last().0)
    } else {
        last_under(drawn.drop_last(), p)
    }
}

/// Whether a widget with the identifier `id` is among `drawn`.
pub open spec fn is_drawn(drawn: Seq<(WidgetId, Rect)>, id: WidgetId) -> bool
    decreases drawn.len(),
{
    if drawn.len() == 0 {
        false
    } else {
        drawn.last().0 == id || is_drawn(drawn.drop_last(), id)
    }
}

/// Whether the first widget of `drawn` that has the identifier `id` covers `p`
/// with its rectangle.
pub open spec fn first_covers(drawn: Seq<(WidgetId, Rect)>, id: WidgetId, p: Pos) -> bool
    decreases drawn.len(),
{
    if drawn.len() == 0 {
        false
    } else if is_drawn(drawn.drop_last(), id) {
        first_covers(drawn.drop_last(), id, p)
    } else {
        drawn.last().0 == id && drawn.last().1.covers(p)
    }
}

/// Drawing widgets changes neither the input nor whether widgets are
/// disabled, so that all of them see the same pointer and the same edges of
/// the primary button.
pub proof fn law_widgets_keep_input(ui: UiView, drawn: Seq<(WidgetId, Rect)>)
    ensures
        after_widgets(ui, drawn).mouse == ui.mouse,
        after_widgets(ui, drawn).pmouse == ui.pmouse,
        after_widgets(ui, drawn).key == ui.key,
        after_widgets(ui, drawn).disabled == ui.disabled,
        after_widgets(ui, drawn).mouse_offset == ui.mouse_offset,
        after_widgets(ui, drawn).pointer() == ui.pointer(),
        after_widgets(ui, drawn).scroll == ui.scroll,
        after_widgets(ui, drawn).layout == ui.layout,
        after_widgets(ui, drawn).next_width == ui.next_width,
    decreases drawn.len(),
{
    if drawn.len() > 0 {
        law_widgets_keep_input(ui, drawn.drop_last());
    }
}

/// At the frame at which the primary button goes down, the widget that is
/// active after any number of widgets were drawn is the one drawn last of
/// those under the pointer; none if the pointer is on none of them.
pub proof fn law_press_activates_last_under(ui: UiView, drawn: Seq<(WidgetId, Rect)>)
    requires
        ui.pressed(),
        !ui.disabled,
        ui.active is None,
    ensures
        after_widgets(ui, drawn).active == last_under(drawn, ui.pointer()),
    decreases drawn.len(),
{
    if drawn.len() > 0 {
        law_press_activates_last_under(ui, drawn.drop_last());
        law_widgets_keep_input(ui, drawn.drop_last());
    }
}

/// At a frame at which the primary button neither goes down nor up, drawing
/// widgets changes neither the active widget nor the click.
pub proof fn law_hold_keeps_active(ui: UiView, drawn: Seq<(WidgetId, Rect)>)
    requires
        !ui.pressed(),
        !ui.released(),
    ensures
        after_widgets(ui, drawn).active == ui.active,
        after_widgets(ui, drawn).clicked == ui.clicked,
    decreases drawn.len(),
{
    if drawn.len() > 0 {
        law_hold_keeps_active(ui, drawn.drop_last());
        law_widgets_keep_input(ui, drawn.drop_last());
    }
}

/// At the frame at which the primary button goes up, only the active widget
/// can be clicked, and it is clicked exactly if the pointer is in its
/// rectangle when it is drawn. It stops being active when it is drawn; no
/// other widget becomes active.
pub proof fn law_release_clicks_active(ui: UiView, id: WidgetId, drawn: Seq<(WidgetId, Rect)>)
    requires
        ui.released(),
        ui.clicked is None,
        ui.active == Some(id),
    ensures
        after_widgets(ui, drawn).was_clicked(id) <==> !ui.disabled && first_covers(
            drawn,
            id,
            ui.pointer(),
        ),
        forall|other: WidgetId| other != id ==> !after_widgets(ui, drawn).was_clicked(other),
        after_widgets(ui, drawn).active == if is_drawn(drawn, id) {
            None
        } else {
            Some(id)
        },
        after_widgets(ui, drawn).clicked == if !ui.disabled && first_covers(
            drawn,
            id,
            ui.pointer(),
        ) {
            Some(id)
        } else {
            None
        },
    decreases drawn.len(),
{
    if drawn.len() > 0 {
        law_release_clicks_active(ui, id, drawn.drop_last());
        law_widgets_keep_input(ui, drawn.drop_last());
    }
}

/// The state at the end of a frame with the input `mouse` at which the widgets
/// `drawn` were drawn.
pub open spec fn frame_of(
    ui: UiView,
    mouse: MouseState,
    key: Option<Key>,
    origin: Pos,
    drawn: Seq<(WidgetId, Rect)>,
) -> UiView {
    after_widgets(ui.next_frame(mouse, key, origin), drawn).frame_ended()
}

/// A widget is clicked exactly if the primary button went down on it and went
/// up on it, and no other widget took the press.
///
/// Any widgets are drawn at two frames that follow each other. Before the
/// first no button is held and nothing is active. At the first the primary
/// button is down, at the second it is up. A widget is clicked at the second
/// frame exactly if, at the first, it was the last drawn of the widgets under
/// the pointer, and, at the second, the pointer is in the rectangle with which
/// it is drawn first. At the end nothing is active.
pub proof fn law_click_among_widgets(
    ui: UiView,
    down: MouseState,
    up: MouseState,
    key: Option<Key>,
    origin: Pos,
    at_press: Seq<(WidgetId, Rect)>,
    at_release: Seq<(WidgetId, Rect)>,
    id: WidgetId,
)
    requires
        !ui.disabled,
        !ui.mouse.left,
        ui.active is None,
        down.left,
        !up.left,
    ensures
        ({
            let pressed = frame_of(ui, down, key, origin, at_press);
            let released = after_widgets(pressed.next_frame(up, key, origin), at_release);
            &&& pressed.active == last_under(at_press, down.pos)
            &&& released.was_clicked(id) <==> {
                &&& last_under(at_press, down.pos) == Some(id)
                &&& first_covers(at_release, id, up.pos)
            }
            &&& released.frame_ended().active is None
        }),
{
    let first = ui.next_frame(down, key, origin);
    assert(first.pointer() == down.pos);
    law_press_activates_last_under(first, at_press);
    law_widgets_keep_input(first, at_press);
    let pressed = frame_of(ui, down, key, origin, at_press);
    let second = pressed.next_frame(up, key, origin);
    assert(second.pointer() == up.pos);
    law_widgets_keep_input(second, at_release);
    match pressed.active {
        Some(active) => {
            law_release_clicks_active(second, active, at_release);
        },
        None => {
            law_no_click_without_active(second, at_release);
        },
    }
}

/// At the frame at which the primary button goes up with no widget active, no
/// widget is clicked and none becomes active.
pub proof fn law_no_click_without_active(ui: UiView, drawn: Seq<(WidgetId, Rect)>)
    requires
        ui.released(),
        ui.clicked is None,
        ui.active is None,
    ensures
        after_widgets(ui, drawn).clicked is None,
        after_widgets(ui, drawn).active is None,
    decreases drawn.len(),
{
    if drawn.len() > 0 {
        law_no_click_without_active(ui, drawn.drop_last());
        law_widgets_keep_input(ui, drawn.drop_last());
    }
}

/// The state after the frames `frames`, each given by its mouse input and the
/// widgets that are drawn at it.
pub open spec fn after_frames(
    ui: UiView,
    frames: Seq<(MouseState, Seq<(WidgetId, Rect)>)>,
    key: Option<Key>,
    origin: Pos,
) -> UiView
    decreases frames.len(),
{
    if frames.len() == 0 {
        ui
    } else {
        frame_of(
            after_frames(ui, frames.drop_last(), key, origin),
            frames.last().0,
            key,
            origin,
            frames.last().1,
        )
    }
}

/// While the primary button stays down, the active widget stays active,
/// whatever is drawn and wherever the pointer goes.
pub proof fn law_drag_keeps_active(
    ui: UiView,
    frames: Seq<(MouseState, Seq<(WidgetId, Rect)>)>,
    key: Option<Key>,
    origin: Pos,
)
    requires
        ui.mouse.left,
        forall|i: int| 0 <= i < frames.len() ==> (#[trigger] frames[i]).0.left,
    ensures
        after_frames(ui, frames, key, origin).active == ui.active,
        after_frames(ui, frames, key, origin).mouse.left,
        after_frames(ui, frames, key, origin).disabled == ui.disabled,
    decreases frames.len(),
{
    if frames.len() > 0 {
        let earlier = frames.drop_last();
        assert forall|i: int| 0 <= i < earlier.len() implies (#[trigger] earlier[i]).0.left by {
            assert(earlier[i] == frames[i]);
        }
        law_drag_keeps_active(ui, earlier, key, origin);
        let before = after_frames(ui, earlier, key, origin);
        let start = before.next_frame(frames.last().0, key, origin);
        assert(frames.last() == frames[frames.len() - 1]);
        law_hold_keeps_active(start, frames.last().1);
        law_widgets_keep_input(start, frames.last().1);
    }
}

/// A click is a press and a release on the same widget, however long the
/// button is held between them and wherever the pointer goes meanwhile.
///
/// Before the first frame no button is held and nothing is active. At the
/// first frame the primary button goes down; it stays down for any number of
/// frames, and goes up at the last. A widget is clicked at the last frame
/// exactly if, at the first, it was the last drawn of the widgets under the
/// pointer, and, at the last, the pointer is in the rectangle with which it is
/// drawn first.
pub proof fn law_click_after_drag(
    ui: UiView,
    down: MouseState,
    held: Seq<(MouseState, Seq<(WidgetId, Rect)>)>,
    up: MouseState,
    key: Option<Key>,
    origin: Pos,
    at_press: Seq<(WidgetId, Rect)>,
    at_release: Seq<(WidgetId, Rect)>,
    id: WidgetId,
)
    requires
        !ui.disabled,
        !ui.mouse.left,
        ui.active is None,
        down.left,
        forall|i: int| 0 <= i < held.len() ==> (#[trigger] held[i]).0.left,
        !up.left,
    ensures
        ({
            let pressed = frame_of(ui, down, key, origin, at_press);
            let dragged = after_frames(pressed, held, key, origin);
            let released = after_widgets(dragged.next_frame(up, key, origin), at_release);
            &&& dragged.active == last_under(at_press, down.pos)
            &&& released.was_clicked(id) <==> {
                &&& last_under(at_press, down.pos) == Some(id)
                &&& first_covers(at_release, id, up.pos)
            }
            &&& released.frame_ended().active is None
        }),
{
    let first = ui.next_frame(down, key, origin);
    assert(first.pointer() == down.pos);
    law_press_activates_last_under(first, at_press);
    law_widgets_keep_input(first, at_press);
    let pressed = frame_of(ui, down, key, origin, at_press);
    law_drag_keeps_active(pressed, held, key, origin);
    let dragged = after_frames(pressed, held, key, origin);
    let last = dragged.next_frame(up, key, origin);
    assert(last.pointer() == up.pos);
    law_widgets_keep_input(last, at_release);
    match dragged.active {
        Some(active) => {
            law_release_clicks_active(last, active, at_release);
        },
        None => {
            law_no_click_without_active(last, at_release);
        },
    }
}

/// Once the primary button is up at the end of a frame, no widget is active,
/// whether the active one was drawn at that frame or not.
pub proof fn law_release_clears_active(ui: UiView)
    requires
        !ui.mouse.left,
    ensures
        ui.frame_ended().active is None,
{
}

/// A click is counted for one frame only: the next frame starts without one.
pub proof fn law_click_lasts_one_frame(
    ui: UiView,
    mouse: MouseState,
    key: Option<Key>,
    origin: Pos,
    id: WidgetId,
)
    ensures
        !ui.next_frame(mouse, key, origin).was_clicked(id),
{
}

} // verus!
