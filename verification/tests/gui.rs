use pix_engine::draw::DrawCommand;
use pix_engine::event::{Key, Mouse, MouseState};
use pix_engine::gui::state::{visible_label, UiState, WidgetId};
use pix_engine::shape::rect::{Pos, Rect};
use pix_engine::state::PixState;

fn mouse(x: i32, y: i32, left: bool) -> MouseState {
    MouseState::at(x, y).with_button(Mouse::Left, left)
}

/// One frame in which a single widget with the given rectangle is drawn.
/// Returns hover, focus, active and click as the widget sees them.
fn frame(ui: &mut UiState, input: MouseState, id: WidgetId, rect: Rect) -> (bool, bool, bool, bool) {
    ui.begin_frame(input, None, Pos::new(0, 0));
    let hovered = ui.try_hover(id, rect);
    let focused = ui.try_focus(id);
    ui.handle_events(id);
    let active = ui.is_active(id);
    let clicked = ui.was_clicked(id);
    ui.end_frame();
    (hovered, focused, active, clicked)
}

/// An engine state whose first widget is a button with the rectangle
/// (10, 10, 80, 30) if its label measures 64 by 14.
fn state_with_button_at_10_10() -> PixState {
    let mut s = PixState::init("test");
    s.theme.frame_pad = Pos::new(10, 10);
    s.theme.item_pad = Pos::new(8, 8);
    s
}

const LABEL_SIZE: (u32, u32) = (64, 14);

fn button_frame(s: &mut PixState, input: MouseState) -> bool {
    s.begin_frame(input, None, Vec::new());
    let clicked = s.button("Click me", LABEL_SIZE);
    s.end_frame();
    clicked
}

#[test]
fn ids_are_stable_and_tell_labels_apart() {
    let ui = UiState::new();
    assert_eq!(ui.get_id("Save"), ui.get_id("Save"));
    assert_eq!(UiState::new().get_id("Save"), ui.get_id("Save"));
    assert_ne!(ui.get_id("Save"), ui.get_id("Save#2"));
    assert_ne!(ui.get_id("Save#1"), ui.get_id("Save#2"));
    assert_ne!(ui.get_id(""), ui.get_id("#"));
    // The hash is the 64-bit FNV-1a of the label's bytes.
    assert_eq!(ui.get_id(""), WidgetId(0xcbf29ce484222325));
    assert_eq!(ui.get_id("a"), WidgetId(0xaf63dc4c8601ec8c));
    assert_eq!(ui.get_id("foobar"), WidgetId(0x85944171f73967e8));
}

#[test]
fn ids_of_a_large_corpus_do_not_collide() {
    let ui = UiState::new();
    let mut seen = std::collections::HashSet::new();
    for i in 0..20_000u32 {
        for label in [
            format!("Button {}", i),
            format!("Button#{}", i),
            format!("{}", i),
            format!("row {} / column {}", i % 200, i / 200),
        ] {
            assert!(seen.insert(ui.get_id(&label)), "collision at {:?}", label);
        }
    }
    assert_eq!(seen.len(), 80_000);
}

#[test]
fn rect_ids_depend_on_every_coordinate() {
    let ui = UiState::new();
    let base = ui.get_rect_id(Rect::new(1, 2, 3, 4));
    assert_eq!(base, ui.get_rect_id(Rect::new(1, 2, 3, 4)));
    assert_ne!(base, ui.get_rect_id(Rect::new(0, 2, 3, 4)));
    assert_ne!(base, ui.get_rect_id(Rect::new(1, 0, 3, 4)));
    assert_ne!(base, ui.get_rect_id(Rect::new(1, 2, 0, 4)));
    assert_ne!(base, ui.get_rect_id(Rect::new(1, 2, 3, 0)));
    assert_ne!(base, ui.get_rect_id(Rect::new(2, 1, 3, 4)));
    let _ = ui.get_rect_id(Rect::new(i32::MIN, i32::MAX, i32::MIN, i32::MAX));
}

#[test]
fn visible_label_stops_at_the_first_hash() {
    assert_eq!(visible_label("Save"), "Save");
    assert_eq!(visible_label("Save#2"), "Save");
    assert_eq!(visible_label("Save#2#3"), "Save");
    assert_eq!(visible_label("#hidden"), "");
    assert_eq!(visible_label(""), "");
    assert_eq!(visible_label("Grüße#1"), "Grüße");
}

#[test]
fn drag_out_of_a_button_cancels_the_click() {
    let rect = Rect::new(10, 10, 80, 30);
    let mut ui = UiState::new();
    let id = ui.get_id("button");

    // The pointer moves onto the button.
    let (hovered, _, active, clicked) = frame(&mut ui, mouse(50, 20, false), id, rect);
    assert!(hovered);
    assert!(!active);
    assert!(!clicked);

    // Press.
    let (hovered, focused, active, clicked) = frame(&mut ui, mouse(50, 20, true), id, rect);
    assert!(hovered);
    assert!(focused);
    assert!(active);
    assert!(!clicked);
    assert_eq!(ui.active_id(), Some(id));

    // The pointer leaves the button while the button is held.
    let (hovered, focused, active, clicked) = frame(&mut ui, mouse(200, 200, true), id, rect);
    assert!(!hovered);
    assert!(focused);
    assert!(active);
    assert!(!clicked);

    // Release outside.
    let (hovered, _, active, clicked) = frame(&mut ui, mouse(200, 200, false), id, rect);
    assert!(!hovered);
    assert!(!active);
    assert!(!clicked);
    assert_eq!(ui.active_id(), None);
}

#[test]
fn drag_out_of_a_drawn_button_cancels_the_click() {
    let mut s = state_with_button_at_10_10();
    assert!(!button_frame(&mut s, mouse(50, 20, false)));
    let id = s.ui.get_id("Click me");
    assert!(s.ui.is_hovered(id));
    // The rectangle of the button is (10, 10, 80, 30).
    let commands = s.take_commands();
    assert!(commands.iter().any(|c| matches!(
        c,
        DrawCommand::Rect { rect, .. } if *rect == Rect::new(10, 10, 80, 30)
    )));
    assert!(matches!(commands[0], DrawCommand::HandCursor));

    assert!(!button_frame(&mut s, mouse(50, 20, true)));
    assert!(s.ui.is_active(id));
    assert!(!button_frame(&mut s, mouse(200, 200, true)));
    assert!(s.ui.is_active(id));
    assert!(!s.ui.is_hovered(id));
    assert!(!button_frame(&mut s, mouse(200, 200, false)));
    assert_eq!(s.ui.active_id(), None);
}

#[test]
fn press_and_release_inside_is_a_click() {
    let mut s = state_with_button_at_10_10();
    assert!(!button_frame(&mut s, mouse(50, 20, false)));
    assert!(!button_frame(&mut s, mouse(50, 20, true)));
    // Held for a frame, moved within the button.
    assert!(!button_frame(&mut s, mouse(60, 30, true)));
    assert!(button_frame(&mut s, mouse(60, 30, false)));
    // The click is reported once.
    assert!(!button_frame(&mut s, mouse(60, 30, false)));
    assert_eq!(s.ui.active_id(), None);
}

#[test]
fn release_inside_after_press_outside_is_no_click() {
    let mut s = state_with_button_at_10_10();
    assert!(!button_frame(&mut s, mouse(200, 200, true)));
    assert!(!button_frame(&mut s, mouse(50, 20, true)));
    assert!(!button_frame(&mut s, mouse(50, 20, false)));
}

#[test]
fn pressed_button_is_drawn_moved_by_one_pixel() {
    let mut s = state_with_button_at_10_10();
    button_frame(&mut s, mouse(50, 20, true));
    s.take_commands();
    // At the next frame the button knows that it is pressed.
    button_frame(&mut s, mouse(50, 20, true));
    let commands = s.take_commands();
    assert!(commands.iter().any(|c| matches!(
        c,
        DrawCommand::Rect { rect, .. } if *rect == Rect::new(11, 11, 80, 30)
    )));
    assert!(commands.iter().any(|c| matches!(
        c,
        DrawCommand::Clip(Some(rect)) if *rect == Rect::new(11, 11, 80, 30)
    )));
}

#[test]
fn button_draws_rect_clip_text_and_unclip() {
    let mut s = state_with_button_at_10_10();
    button_frame(&mut s, mouse(500, 500, false));
    let commands = s.take_commands();
    assert_eq!(commands.len(), 4);
    match &commands[0] {
        DrawCommand::Rect { rect, fill, stroke } => {
            assert_eq!(*rect, Rect::new(10, 10, 80, 30));
            assert_eq!(*fill, Some(s.theme.primary));
            assert_eq!(*stroke, Some(s.theme.muted));
        }
        other => panic!("unexpected command {:?}", other),
    }
    assert!(matches!(commands[1], DrawCommand::Clip(Some(_))));
    match &commands[2] {
        DrawCommand::Text { pos, text, fill, stroke } => {
            // The middle of the button is (50, 25); the label measures 64 by 14.
            assert_eq!(*pos, Pos::new(50 - 32, 25 - 7));
            assert_eq!(text, "Click me");
            assert_eq!(*fill, Some(s.theme.on_primary));
            assert_eq!(*stroke, None);
        }
        other => panic!("unexpected command {:?}", other),
    }
    assert!(matches!(commands[3], DrawCommand::Clip(None)));
}

#[test]
fn button_advances_the_cursor_below_itself() {
    let mut s = state_with_button_at_10_10();
    s.begin_frame(mouse(0, 0, false), None, Vec::new());
    assert_eq!(s.ui.cursor_pos(), Pos::new(10, 10));
    s.button("One", LABEL_SIZE);
    // Height 30 and the item padding of 8.
    assert_eq!(s.ui.cursor_pos(), Pos::new(10, 48));
    s.button("Two", LABEL_SIZE);
    assert_eq!(s.ui.cursor_pos(), Pos::new(10, 86));
    assert_eq!(s.ui.layout().last_width, 80);
    assert_eq!(s.ui.layout().last_height, 30);
}

#[test]
fn disabled_button_takes_its_place_and_is_never_clicked() {
    let mut s = state_with_button_at_10_10();
    s.ui.set_disabled(true);
    assert!(s.ui.is_disabled());
    for input in [mouse(50, 20, false), mouse(50, 20, true), mouse(50, 20, false)] {
        s.begin_frame(input, None, Vec::new());
        assert!(!s.button("Click me", LABEL_SIZE));
        assert_eq!(s.ui.cursor_pos(), Pos::new(10, 48));
        let id = s.ui.get_id("Click me");
        assert!(!s.ui.is_hovered(id));
        assert!(!s.ui.is_active(id));
        s.end_frame();
        let commands = s.take_commands();
        match &commands[0] {
            DrawCommand::Rect { rect, fill, .. } => {
                assert_eq!(*rect, Rect::new(10, 10, 80, 30));
                assert_eq!(*fill, Some(s.theme.primary.dimmed()));
            }
            other => panic!("unexpected command {:?}", other),
        }
    }
}

#[test]
fn checkbox_click_toggles_once() {
    let mut s = state_with_button_at_10_10();
    let mut checked = false;
    let mut toggles = 0;
    // The box is (10, 10, 16, 16).
    for input in [
        mouse(15, 15, false),
        mouse(15, 15, true),
        mouse(15, 15, false),
        mouse(15, 15, false),
    ] {
        s.begin_frame(input, None, Vec::new());
        if s.checkbox("Enabled", &mut checked, (56, 14)) {
            toggles += 1;
        }
        s.end_frame();
    }
    assert!(checked);
    assert_eq!(toggles, 1);

    // A second click turns it off again.
    for input in [mouse(15, 15, true), mouse(15, 15, false)] {
        s.begin_frame(input, None, Vec::new());
        s.checkbox("Enabled", &mut checked, (56, 14));
        s.end_frame();
    }
    assert!(!checked);
}

#[test]
fn checkbox_draws_box_mark_and_label() {
    let mut s = state_with_button_at_10_10();
    let mut checked = true;
    s.begin_frame(mouse(500, 500, false), None, Vec::new());
    assert!(!s.checkbox("Enabled#1", &mut checked, (56, 14)));
    assert!(checked);
    let commands = s.take_commands();
    assert_eq!(commands.len(), 4);
    assert!(matches!(
        &commands[0],
        DrawCommand::Rect { rect, .. } if *rect == Rect::new(10, 10, 16, 16)
    ));
    match (&commands[1], &commands[2]) {
        (
            DrawCommand::Line { start, end, weight, .. },
            DrawCommand::Line { start: start2, end: end2, .. },
        ) => {
            // The bend of the mark is at (10 + 7, 10 + 11).
            assert_eq!(*end, Pos::new(17, 21));
            assert_eq!(*start, Pos::new(14, 18));
            assert_eq!(*start2, Pos::new(17, 21));
            assert_eq!(*end2, Pos::new(23, 15));
            assert_eq!(*weight, 2);
        }
        other => panic!("unexpected commands {:?}", other),
    }
    match &commands[3] {
        DrawCommand::Text { pos, text, .. } => {
            // Right of the box, with the item padding between.
            assert_eq!(*pos, Pos::new(10 + 16 + 8, 10));
            assert_eq!(text, "Enabled");
        }
        other => panic!("unexpected command {:?}", other),
    }
    // Below the line of box and label.
    assert_eq!(s.ui.cursor_pos(), Pos::new(10, 10 + 16 + 8));
}

#[test]
fn radio_selects_its_index_on_click() {
    let mut s = state_with_button_at_10_10();
    let mut selected = 0usize;
    let mut reported = Vec::new();
    // The second of three radio buttons is at (10, 34, 16, 16).
    for input in [mouse(15, 40, false), mouse(15, 40, true), mouse(15, 40, false)] {
        s.begin_frame(input, None, Vec::new());
        let a = s.radio("Radio 1", &mut selected, 0, (56, 14));
        let b = s.radio("Radio 2", &mut selected, 1, (56, 14));
        let c = s.radio("Radio 3", &mut selected, 2, (56, 14));
        reported.push((a, b, c));
        s.end_frame();
    }
    assert_eq!(selected, 1);
    assert_eq!(
        reported,
        vec![(false, false, false), (false, false, false), (false, true, false)]
    );
    let commands = s.take_commands();
    let ellipses = commands.iter().filter(|c| matches!(c, DrawCommand::Ellipse { .. })).count();
    // Three circles per frame, and the filled one in the selected button.
    assert_eq!(ellipses, 3 * 3 + 3);
}

#[test]
fn at_most_one_widget_is_active() {
    let mut ui = UiState::new();
    let a = ui.get_id("a");
    let b = ui.get_id("b");
    let c = ui.get_id("c");
    let rects = [
        (a, Rect::new(0, 0, 50, 50)),
        (b, Rect::new(25, 25, 50, 50)),
        (c, Rect::new(100, 100, 50, 50)),
    ];
    let inputs = [
        mouse(30, 30, false),
        mouse(30, 30, true),
        mouse(110, 110, true),
        mouse(110, 110, false),
        mouse(110, 110, true),
        mouse(10, 10, true),
        mouse(10, 10, false),
        mouse(10, 10, true),
    ];
    for input in inputs {
        ui.begin_frame(input, None, Pos::new(0, 0));
        for (id, rect) in rects {
            ui.try_hover(id, rect);
            ui.try_focus(id);
            ui.handle_events(id);
            let active = [a, b, c].iter().filter(|id| ui.is_active(**id)).count();
            assert!(active <= 1);
            let hovered = [a, b, c].iter().filter(|id| ui.is_hovered(**id)).count();
            assert!(hovered <= 1);
            let focused = [a, b, c].iter().filter(|id| ui.is_focused(**id)).count();
            assert!(focused <= 1);
        }
        ui.end_frame();
    }
    assert_eq!(ui.active_id(), Some(a));
}

#[test]
fn of_two_overlapping_widgets_the_last_drawn_takes_press_and_click() {
    let mut ui = UiState::new();
    let a = ui.get_id("below");
    let b = ui.get_id("above");
    let rect_a = Rect::new(0, 0, 50, 50);
    let rect_b = Rect::new(25, 25, 50, 50);
    let mut clicks = Vec::new();
    for input in [mouse(30, 30, true), mouse(30, 30, false)] {
        ui.begin_frame(input, None, Pos::new(0, 0));
        ui.try_hover(a, rect_a);
        ui.try_focus(a);
        ui.handle_events(a);
        ui.try_hover(b, rect_b);
        ui.try_focus(b);
        ui.handle_events(b);
        clicks.push((ui.was_clicked(a), ui.was_clicked(b)));
        if input.left {
            assert!(ui.is_active(b));
            assert!(ui.is_hovered(b));
            assert!(ui.is_focused(b));
        }
        ui.end_frame();
    }
    assert_eq!(clicks, vec![(false, false), (false, true)]);
}

#[test]
fn a_dragged_widget_keeps_others_from_hovering() {
    let mut ui = UiState::new();
    let a = ui.get_id("a");
    let b = ui.get_id("b");
    let rect_a = Rect::new(0, 0, 50, 50);
    let rect_b = Rect::new(100, 0, 50, 50);
    frame(&mut ui, mouse(10, 10, true), a, rect_a);
    assert!(ui.is_active(a));
    // The pointer is dragged onto the other widget.
    ui.begin_frame(mouse(110, 10, true), None, Pos::new(0, 0));
    assert!(!ui.would_hover(b, rect_b));
    assert!(!ui.try_hover(b, rect_b));
    assert!(!ui.try_focus(b));
    ui.handle_events(b);
    assert!(ui.is_active(a));
    ui.end_frame();
    // Released there: neither is clicked.
    ui.begin_frame(mouse(110, 10, false), None, Pos::new(0, 0));
    ui.try_hover(a, rect_a);
    ui.handle_events(a);
    ui.try_hover(b, rect_b);
    ui.handle_events(b);
    assert!(!ui.was_clicked(a));
    assert!(!ui.was_clicked(b));
    assert_eq!(ui.active_id(), None);
}

#[test]
fn active_is_cleared_at_release_even_if_the_widget_is_not_drawn() {
    let mut ui = UiState::new();
    let a = ui.get_id("a");
    frame(&mut ui, mouse(10, 10, true), a, Rect::new(0, 0, 50, 50));
    assert_eq!(ui.active_id(), Some(a));
    ui.begin_frame(mouse(10, 10, false), None, Pos::new(0, 0));
    ui.end_frame();
    assert_eq!(ui.active_id(), None);
}

#[test]
fn hover_and_focus_are_idempotent() {
    let rect = Rect::new(10, 10, 80, 30);
    for input in [mouse(50, 20, false), mouse(50, 20, true), mouse(0, 0, true)] {
        let mut ui = UiState::new();
        let id = ui.get_id("button");
        ui.begin_frame(input, None, Pos::new(0, 0));
        let h1 = ui.try_hover(id, rect);
        let h2 = ui.try_hover(id, rect);
        assert_eq!(h1, h2);
        assert_eq!(ui.is_hovered(id), h1);
        let f1 = ui.try_focus(id);
        let f2 = ui.try_focus(id);
        assert_eq!(f1, f2);
        assert_eq!(ui.is_focused(id), f1);
        assert_eq!(h1, input.pos == Pos::new(50, 20));
        assert_eq!(f1, input.pos == Pos::new(50, 20) && input.left);
    }
}

#[test]
fn focus_is_sticky_until_another_widget_takes_it() {
    let mut ui = UiState::new();
    let a = ui.get_id("a");
    let b = ui.get_id("b");
    let rect_a = Rect::new(0, 0, 50, 50);
    let rect_b = Rect::new(100, 0, 50, 50);
    let draw = |ui: &mut UiState, input: MouseState| {
        ui.begin_frame(input, None, Pos::new(0, 0));
        ui.try_hover(a, rect_a);
        let fa = ui.try_focus(a);
        ui.handle_events(a);
        ui.try_hover(b, rect_b);
        let fb = ui.try_focus(b);
        ui.handle_events(b);
        ui.end_frame();
        (fa, fb)
    };
    assert_eq!(draw(&mut ui, mouse(10, 10, false)), (false, false));
    assert_eq!(draw(&mut ui, mouse(10, 10, true)), (true, false));
    assert_eq!(draw(&mut ui, mouse(10, 10, false)), (true, false));
    // The pointer is elsewhere: the focus stays.
    assert_eq!(draw(&mut ui, mouse(300, 300, false)), (true, false));
    // A press on empty space moves no focus.
    assert_eq!(draw(&mut ui, mouse(300, 300, true)), (true, false));
    assert_eq!(draw(&mut ui, mouse(110, 10, false)), (true, false));
    // A press on the other widget moves the focus there. The first widget
    // still had it when it asked.
    assert_eq!(draw(&mut ui, mouse(110, 10, true)), (true, true));
    assert_eq!(draw(&mut ui, mouse(110, 10, true)), (false, true));
    assert!(ui.is_focused(b));
    assert!(!ui.is_focused(a));
}

#[test]
fn hover_is_forgotten_at_the_start_of_a_frame() {
    let mut ui = UiState::new();
    let a = ui.get_id("a");
    frame(&mut ui, mouse(10, 10, false), a, Rect::new(0, 0, 50, 50));
    assert!(ui.is_hovered(a));
    ui.begin_frame(mouse(10, 10, false), None, Pos::new(0, 0));
    assert!(!ui.is_hovered(a));
}

#[test]
fn rectangles_cover_their_left_and_top_edge_only() {
    let rect = Rect::new(10, 10, 80, 30);
    assert!(rect.contains_point(Pos::new(10, 10)));
    assert!(rect.contains_point(Pos::new(89, 39)));
    assert!(!rect.contains_point(Pos::new(90, 39)));
    assert!(!rect.contains_point(Pos::new(89, 40)));
    assert!(!rect.contains_point(Pos::new(9, 10)));
    assert!(!Rect::new(10, 10, 0, 30).contains_point(Pos::new(10, 10)));
    assert!(!Rect::new(10, 10, -5, 30).contains_point(Pos::new(8, 10)));
    // No overflow at the ends of the range.
    let far = Rect::new(i32::MAX - 1, i32::MAX - 1, i32::MAX, i32::MAX);
    assert!(far.contains_point(Pos::new(i32::MAX, i32::MAX)));
    assert_eq!(far.right(), i32::MAX);
    assert_eq!(far.bottom(), i32::MAX);
    assert_eq!(rect.right(), 90);
    assert_eq!(rect.bottom(), 40);
    assert_eq!(rect.left(), 10);
    assert_eq!(rect.top(), 10);
    assert_eq!(rect.center(), Pos::new(50, 25));
    assert_eq!(Rect::new(0, 0, -3, -3).center(), Pos::new(-1, -1));
    assert_eq!(rect.top_left(), Pos::new(10, 10));
    assert_eq!(rect.offset(1, -1), Rect::new(11, 9, 80, 30));
    assert_eq!(rect.resized(12, 0), Rect::new(10, 10, 92, 30));
    assert_eq!(rect.offset(i32::MAX, i32::MIN), Rect::new(i32::MAX, i32::MIN + 10, 80, 30));
    assert_eq!(Pos::new(5, 5).offset(i32::MIN, i32::MAX), Pos::new(i32::MIN + 5, i32::MAX));
}

#[test]
fn layout_cursor_moves_by_lines() {
    let mut ui = UiState::new();
    ui.begin_frame(mouse(0, 0, false), None, Pos::new(8, 8));
    assert_eq!(ui.cursor_pos(), Pos::new(8, 8));
    ui.advance_cursor(Rect::new(8, 8, 40, 20), 4);
    assert_eq!(ui.cursor_pos(), Pos::new(8, 32));
    ui.same_line(4);
    assert_eq!(ui.cursor_pos(), Pos::new(52, 8));
    // A lower widget on the same line: the line keeps the greater height.
    ui.advance_cursor(Rect::new(52, 8, 10, 10), 4);
    assert_eq!(ui.cursor_pos(), Pos::new(8, 32));
    ui.push_cursor();
    ui.set_cursor_pos(Pos::new(100, 100));
    assert_eq!(ui.cursor_pos(), Pos::new(100, 100));
    ui.pop_cursor();
    assert_eq!(ui.cursor_pos(), Pos::new(8, 32));
    // Nothing was put aside: nothing changes.
    ui.pop_cursor();
    assert_eq!(ui.cursor_pos(), Pos::new(8, 32));
    // At the end of the range the cursor stops.
    ui.advance_cursor(Rect::new(0, 0, i32::MAX, i32::MAX), i32::MAX);
    assert_eq!(ui.cursor_pos(), Pos::new(8, i32::MAX));
}

#[test]
fn pointer_is_seen_relative_to_the_mouse_offset() {
    let mut ui = UiState::new();
    ui.begin_frame(mouse(120, 70, false), None, Pos::new(0, 0));
    assert_eq!(ui.mouse_pos(), Pos::new(120, 70));
    ui.set_mouse_offset(Pos::new(100, 50));
    assert_eq!(ui.mouse_offset(), Pos::new(100, 50));
    assert_eq!(ui.mouse_pos(), Pos::new(20, 20));
    let id = ui.get_id("inside");
    assert!(ui.try_hover(id, Rect::new(10, 10, 20, 20)));
    assert_eq!(ui.mouse().pos, Pos::new(120, 70));
}

#[test]
fn key_and_edges_of_the_frame() {
    let mut ui = UiState::new();
    ui.begin_frame(mouse(0, 0, true), Some(Key::Down), Pos::new(0, 0));
    assert_eq!(ui.key_entered(), Some(Key::Down));
    assert!(ui.mouse_pressed());
    assert!(!ui.mouse_released());
    ui.end_frame();
    ui.begin_frame(mouse(1, 1, false), None, Pos::new(0, 0));
    assert_eq!(ui.key_entered(), None);
    assert!(!ui.mouse_pressed());
    assert!(ui.mouse_released());
    assert_eq!(ui.pmouse().pos, Pos::new(0, 0));
    assert!(ui.pmouse().left);
}

#[test]
fn record_of_a_widget() {
    let mut ui = UiState::new();
    let id = ui.get_id("region");
    let other = ui.get_id("other");
    let rest = ui.record(id);
    assert!(!rest.is_hovered && !rest.is_focused && !rest.is_active);
    assert_eq!(rest.scroll_offset, Pos::new(0, 0));
    ui.set_scroll(id, Pos::new(3, 4));
    frame(&mut ui, mouse(10, 10, true), id, Rect::new(0, 0, 50, 50));
    let pressed = ui.record(id);
    assert!(pressed.is_hovered && pressed.is_focused && pressed.is_active);
    assert_eq!(pressed.scroll_offset, Pos::new(3, 4));
    assert_eq!(ui.record(other), rest);
}

#[test]
fn a_width_asked_for_applies_to_the_next_button_only() {
    let mut s = state_with_button_at_10_10();
    s.begin_frame(mouse(0, 0, false), None, Vec::new());
    s.ui.set_next_width(200);
    assert_eq!(s.ui.next_width(), Some(200));
    s.button("Wide", LABEL_SIZE);
    assert_eq!(s.ui.next_width(), None);
    s.button("Plain", LABEL_SIZE);
    let rects: Vec<Rect> = s
        .take_commands()
        .iter()
        .filter_map(|c| match c {
            DrawCommand::Rect { rect, .. } => Some(*rect),
            _ => None,
        })
        .collect();
    assert_eq!(rects, vec![Rect::new(10, 10, 216, 30), Rect::new(10, 48, 80, 30)]);
    s.ui.set_next_width(u32::MAX);
    assert_eq!(s.ui.next_width(), Some(i32::MAX));
    s.begin_frame(mouse(0, 0, false), None, Vec::new());
    assert_eq!(s.ui.next_width(), None);
}
