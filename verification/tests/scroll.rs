use pix_engine::draw::{Draw, DrawCommand};
use pix_engine::error::{PixError, PixResult};
use pix_engine::event::{Key, Mouse, MouseState};
use pix_engine::gui::scroll::{
    drag_value, range_of, step_of, thumb_length, thumb_position, Direction, SCROLL_SIZE,
    SCROLL_SPEED, THUMB_MIN,
};
use pix_engine::shape::rect::{Pos, Rect};
use pix_engine::state::PixState;

fn mouse(x: i32, y: i32, left: bool) -> MouseState {
    MouseState::at(x, y).with_button(Mouse::Left, left)
}

fn wheel(x: i32, y: i32, xrel: i32, yrel: i32) -> MouseState {
    let mut m = MouseState::at(x, y);
    m.xrel = xrel;
    m.yrel = yrel;
    m
}

const TRACK: Rect = Rect { x: 200, y: 10, w: 12, h: 100 };

/// Content of a scrollable region: a column of buttons.
struct Rows(usize);

impl Draw for Rows {
    fn draw(&self, s: &mut PixState) -> PixResult<()> {
        for i in 0..self.0 {
            s.button(&format!("Row {}", i), (64, 14));
        }
        Ok(())
    }
}

/// Content that fails after its first row.
struct Broken;

impl Draw for Broken {
    fn draw(&self, s: &mut PixState) -> PixResult<()> {
        s.button("Row", (64, 14));
        Err(PixError::Other("broken".to_string()))
    }
}

#[test]
fn thumb_of_a_track_of_a_hundred_pixels() {
    // Track length 100, 50 pixels to scroll: 100 * 100 / 150, rounded down.
    assert_eq!(thumb_length(100, 50), 66);
    assert_eq!(thumb_position(100, 50, 0), 0);
    // At the end the thumb touches the end of the track.
    assert_eq!(thumb_position(100, 50, 50), 34);
    assert_eq!(thumb_position(100, 50, 25), 17);
}

#[test]
fn thumb_is_drawn_at_its_position() {
    let mut s = PixState::init("test");
    s.begin_frame(mouse(0, 0, false), None, Vec::new());
    let mut value = 0;
    assert!(!s.scrollbar(TRACK, 50, &mut value, Direction::Vertical));
    assert_eq!(value, 0);
    let commands = s.take_commands();
    assert_eq!(commands.len(), 2);
    assert!(matches!(&commands[0], DrawCommand::Rect { rect, .. } if *rect == TRACK));
    assert!(matches!(
        &commands[1],
        DrawCommand::Rect { rect, .. } if *rect == Rect::new(200, 10, 12, 66)
    ));

    let mut value = 50;
    s.scrollbar(TRACK, 50, &mut value, Direction::Vertical);
    let commands = s.take_commands();
    assert!(matches!(
        &commands[1],
        DrawCommand::Rect { rect, .. } if *rect == Rect::new(200, 44, 12, 66)
    ));

    let across = Rect::new(10, 200, 100, 12);
    let mut value = 25;
    s.scrollbar(across, 50, &mut value, Direction::Horizontal);
    let commands = s.take_commands();
    assert!(matches!(
        &commands[1],
        DrawCommand::Rect { rect, .. } if *rect == Rect::new(27, 200, 66, 12)
    ));
}

#[test]
fn thumb_shrinks_as_the_range_grows() {
    for track in [0, 1, 9, 10, 11, 100, 1_000, i32::MAX] {
        let mut last = thumb_length(track, 1);
        assert!(last <= track);
        for max in (2..5_000).chain([100_000, i32::MAX - 1, i32::MAX]) {
            let len = thumb_length(track, max);
            assert!(len <= last, "track {} max {}", track, max);
            assert!(len <= track);
            if track >= THUMB_MIN {
                assert!(len >= THUMB_MIN);
            } else {
                assert_eq!(len, track);
            }
            last = len;
        }
    }
    assert_eq!(thumb_length(100, 1), 99);
    assert_eq!(thumb_length(100, 100), 50);
    assert_eq!(thumb_length(100, 900), 10);
    assert_eq!(thumb_length(100, 100_000), 10);
    assert_eq!(thumb_length(i32::MAX, i32::MAX), i32::MAX / 2);
}

#[test]
fn committed_value_is_always_in_range() {
    let inputs = [
        mouse(0, 0, false),
        mouse(205, 50, false),
        mouse(205, 50, true),
        mouse(205, 500, true),
        mouse(205, -500, true),
        mouse(205, 50, false),
    ];
    for max in [1, 2, 50, 1_000, i32::MAX] {
        for start in [i32::MIN, -1, 0, 1, 49, 50, 51, i32::MAX] {
            for key in [None, Some(Key::Up), Some(Key::Down), Some(Key::Left), Some(Key::A)] {
                let mut s = PixState::init("test");
                for input in inputs {
                    s.begin_frame(input, key, Vec::new());
                    let mut value = start;
                    s.scrollbar(TRACK, max, &mut value, Direction::Vertical);
                    assert!(0 <= value && value <= max, "{} of {}", value, max);
                    s.end_frame();
                }
            }
        }
    }
}

#[test]
fn out_of_range_value_is_limited_without_counting_as_a_change() {
    let mut s = PixState::init("test");
    s.begin_frame(mouse(0, 0, false), None, Vec::new());
    let mut value = 70;
    assert!(!s.scrollbar(TRACK, 50, &mut value, Direction::Vertical));
    assert_eq!(value, 50);
    let mut value = -70;
    assert!(!s.scrollbar(TRACK, 50, &mut value, Direction::Vertical));
    assert_eq!(value, 0);
}

#[test]
fn nothing_to_scroll_draws_nothing() {
    let mut s = PixState::init("test");
    s.begin_frame(mouse(205, 50, true), Some(Key::Down), Vec::new());
    for max in [0, -1, i32::MIN] {
        let mut value = 7;
        assert!(!s.scrollbar(TRACK, max, &mut value, Direction::Vertical));
        assert_eq!(value, 7);
    }
    assert!(s.take_commands().is_empty());
    assert_eq!(s.ui.active_id(), None);
}

#[test]
fn dragging_the_thumb_follows_the_pointer() {
    let mut s = PixState::init("test");
    let id = s.ui.get_rect_id(TRACK);
    let mut value = 0;
    // Press on the bar, a quarter down the track.
    s.begin_frame(mouse(205, 35, true), None, Vec::new());
    // The bar becomes active by this press; the drag starts at the next frame.
    assert!(!s.scrollbar(TRACK, 50, &mut value, Direction::Vertical));
    assert!(s.ui.is_active(id));
    s.end_frame();

    s.begin_frame(mouse(205, 35, true), None, Vec::new());
    assert!(s.scrollbar(TRACK, 50, &mut value, Direction::Vertical));
    assert_eq!(value, 12);
    s.end_frame();

    // Halfway, with the pointer beside the bar: the drag goes on.
    s.begin_frame(mouse(400, 60, true), None, Vec::new());
    assert!(s.scrollbar(TRACK, 50, &mut value, Direction::Vertical));
    assert_eq!(value, 25);
    s.end_frame();

    // Beyond the end.
    s.begin_frame(mouse(400, 4_000, true), None, Vec::new());
    assert!(s.scrollbar(TRACK, 50, &mut value, Direction::Vertical));
    assert_eq!(value, 50);
    s.end_frame();

    // Before the start.
    s.begin_frame(mouse(400, -4_000, true), None, Vec::new());
    assert!(s.scrollbar(TRACK, 50, &mut value, Direction::Vertical));
    assert_eq!(value, 0);
    s.end_frame();

    // Released halfway: the value is where the pointer was let go.
    s.begin_frame(mouse(400, 60, false), None, Vec::new());
    assert!(s.scrollbar(TRACK, 50, &mut value, Direction::Vertical));
    assert_eq!(value, 25);
    assert_eq!(s.ui.active_id(), None);
    s.end_frame();

    // The pointer moves on without a button: the value stays.
    s.begin_frame(mouse(400, 100, false), None, Vec::new());
    assert!(!s.scrollbar(TRACK, 50, &mut value, Direction::Vertical));
    assert_eq!(value, 25);
}

#[test]
fn drag_beats_keyboard() {
    let mut s = PixState::init("test");
    let mut value = 0;
    s.begin_frame(mouse(205, 60, true), None, Vec::new());
    s.scrollbar(TRACK, 50, &mut value, Direction::Vertical);
    s.end_frame();
    // The bar has the focus by the press, and is dragged: the key is ignored.
    s.begin_frame(mouse(205, 60, true), Some(Key::Up), Vec::new());
    s.scrollbar(TRACK, 50, &mut value, Direction::Vertical);
    assert_eq!(value, 25);
}

#[test]
fn focused_scrollbar_steps_with_the_arrow_keys_of_its_axis() {
    let mut s = PixState::init("test");
    let mut value = 10;
    // A click gives the bar the focus.
    s.begin_frame(mouse(205, 30, true), None, Vec::new());
    s.scrollbar(TRACK, 50, &mut value, Direction::Vertical);
    s.end_frame();
    s.begin_frame(mouse(0, 0, false), None, Vec::new());
    s.scrollbar(TRACK, 50, &mut value, Direction::Vertical);
    s.end_frame();
    let value_after_click = value;

    let step = |s: &mut PixState, key: Key, value: &mut i32| {
        s.begin_frame(mouse(0, 0, false), Some(key), Vec::new());
        let changed = s.scrollbar(TRACK, 50, value, Direction::Vertical);
        s.end_frame();
        changed
    };
    let mut value = 10;
    assert!(step(&mut s, Key::Down, &mut value));
    assert_eq!(value, 10 + SCROLL_SPEED);
    assert!(step(&mut s, Key::Up, &mut value));
    assert_eq!(value, 10);
    assert!(!step(&mut s, Key::Left, &mut value));
    assert!(!step(&mut s, Key::Right, &mut value));
    assert!(!step(&mut s, Key::A, &mut value));
    assert_eq!(value, 10);
    let mut value = 49;
    assert!(step(&mut s, Key::Down, &mut value));
    assert_eq!(value, 50);
    assert!(!step(&mut s, Key::Down, &mut value));
    let mut value = 1;
    assert!(step(&mut s, Key::Up, &mut value));
    assert_eq!(value, 0);
    assert!(!step(&mut s, Key::Up, &mut value));
    assert!(value_after_click <= 50);
}

#[test]
fn unfocused_scrollbar_ignores_keys() {
    let mut s = PixState::init("test");
    s.begin_frame(mouse(0, 0, false), Some(Key::Down), Vec::new());
    let mut value = 10;
    assert!(!s.scrollbar(TRACK, 50, &mut value, Direction::Vertical));
    assert_eq!(value, 10);
}

#[test]
fn scroll_math() {
    assert_eq!(range_of(150, 100), 50);
    assert_eq!(range_of(100, 100), 0);
    assert_eq!(range_of(50, 100), 0);
    assert_eq!(range_of(i32::MAX, i32::MIN), i32::MAX);
    assert_eq!(range_of(i32::MIN, i32::MAX), 0);
    assert_eq!(drag_value(100, 50, 0), 0);
    assert_eq!(drag_value(100, 50, 50), 25);
    assert_eq!(drag_value(100, 50, 100), 50);
    assert_eq!(drag_value(100, 50, 1_000), 50);
    assert_eq!(drag_value(100, 50, -1_000), 0);
    assert_eq!(drag_value(3, 1_000, 1), 333);
    assert_eq!(drag_value(i32::MAX, i32::MAX, i64::MAX), i32::MAX);
    assert_eq!(step_of(Some(Key::Up), Direction::Vertical), -SCROLL_SPEED);
    assert_eq!(step_of(Some(Key::Down), Direction::Vertical), SCROLL_SPEED);
    assert_eq!(step_of(Some(Key::Left), Direction::Horizontal), -SCROLL_SPEED);
    assert_eq!(step_of(Some(Key::Right), Direction::Horizontal), SCROLL_SPEED);
    assert_eq!(step_of(Some(Key::Up), Direction::Horizontal), 0);
    assert_eq!(step_of(Some(Key::Right), Direction::Vertical), 0);
    assert_eq!(step_of(None, Direction::Vertical), 0);
}

#[test]
fn region_scrolls_with_the_wheel_while_the_pointer_is_over_it() {
    let mut s = PixState::init("test");
    let id = s.ui.get_id("region");
    let viewport = Rect::new(0, 0, 100, 100);

    s.begin_frame(wheel(50, 50, 0, 4), None, Vec::new());
    let outer = s.scroll(id, viewport, 100, 300);
    assert_eq!(s.ui.scroll(id), Pos::new(0, 4 * SCROLL_SPEED));
    // Only the vertical bar is drawn, to the right of the viewport.
    assert_eq!(outer, Rect::new(0, 0, 100 + SCROLL_SIZE, 100));
    assert_eq!(s.take_commands().len(), 2);
    s.end_frame();

    // Back by more than was scrolled: the offset stops at zero.
    s.begin_frame(wheel(50, 50, 0, -10), None, Vec::new());
    s.scroll(id, viewport, 100, 300);
    assert_eq!(s.ui.scroll(id), Pos::new(0, 0));
    s.end_frame();

    // Far beyond the end: the offset stops at what the content is longer by.
    s.begin_frame(wheel(50, 50, 0, i32::MAX), None, Vec::new());
    s.scroll(id, viewport, 100, 300);
    assert_eq!(s.ui.scroll(id), Pos::new(0, 200));
    s.end_frame();

    // The pointer is elsewhere: the wheel does nothing.
    s.begin_frame(wheel(500, 500, 0, -10), None, Vec::new());
    s.scroll(id, viewport, 100, 300);
    assert_eq!(s.ui.scroll(id), Pos::new(0, 200));
    s.end_frame();

    // Both axes.
    s.take_commands();
    s.begin_frame(wheel(50, 50, 2, -1), None, Vec::new());
    let outer = s.scroll(id, viewport, 160, 300);
    assert_eq!(s.ui.scroll(id), Pos::new(2 * SCROLL_SPEED, 200 - SCROLL_SPEED));
    assert_eq!(outer, Rect::new(0, 0, 100 + SCROLL_SIZE, 100 + SCROLL_SIZE));
    assert_eq!(s.take_commands().len(), 4);
    s.end_frame();
}

#[test]
fn content_that_fits_leaves_the_offset_alone() {
    let mut s = PixState::init("test");
    let id = s.ui.get_id("region");
    s.ui.set_scroll(id, Pos::new(30, 40));
    s.begin_frame(wheel(50, 50, 5, 5), Some(Key::Down), Vec::new());
    let viewport = Rect::new(0, 0, 100, 100);
    let outer = s.scroll(id, viewport, 100, 20);
    assert_eq!(outer, viewport);
    assert_eq!(s.ui.scroll(id), Pos::new(30, 40));
    assert!(s.take_commands().is_empty());
    // Content that shrank: the stale offset is pulled back into range.
    s.scroll(id, viewport, 110, 120);
    assert_eq!(s.ui.scroll(id), Pos::new(10, 20));
}

#[test]
fn scroll_area_shows_content_moved_by_the_offset() {
    let mut s = PixState::init("test");
    let id = s.ui.get_id("List");
    s.ui.set_scroll(id, Pos::new(0, 30));
    s.begin_frame(mouse(500, 500, false), None, Vec::new());
    s.scroll_area("List", 120, 100, (32, 14), &Rows(10)).unwrap();
    s.end_frame();
    let commands = s.take_commands();

    // The label, then the target of the region.
    assert!(matches!(&commands[0], DrawCommand::Text { text, .. } if text == "List"));
    assert!(matches!(
        &commands[1],
        DrawCommand::CreateTexture { id: 0, width: 120, height: 100, format: None }
    ));
    assert!(matches!(&commands[2], DrawCommand::Target(Some(0))));
    assert!(matches!(&commands[3], DrawCommand::Clear(_)));
    // The first row is drawn 30 pixels above the padding of the frame.
    let frame_pad = s.theme.frame_pad;
    assert!(matches!(
        &commands[4],
        DrawCommand::Rect { rect, .. } if rect.top_left() == Pos::new(frame_pad.x, frame_pad.y - 30)
    ));
    // After the ten rows: four bars over the edges, the outline, and the target
    // is shown in the viewport below the label.
    let rows = 10 * 4;
    let pad = s.theme.item_pad;
    let viewport = Rect::new(frame_pad.x, frame_pad.y + 14 + pad.y, 120, 100);
    let after = &commands[4 + rows..];
    let bars: Vec<Rect> = after[..5]
        .iter()
        .map(|c| match c {
            DrawCommand::Rect { rect, .. } => *rect,
            other => panic!("unexpected command {:?}", other),
        })
        .collect();
    assert_eq!(
        bars,
        vec![
            Rect::new(0, 0, 120, frame_pad.y),
            Rect::new(0, 0, frame_pad.x, 100),
            Rect::new(120 - frame_pad.x, 0, frame_pad.x, 100),
            Rect::new(0, 100 - frame_pad.y, 120, frame_pad.y),
            Rect::new(0, 0, 120, 100),
        ]
    );
    assert!(matches!(&after[5], DrawCommand::Target(None)));
    assert!(matches!(
        &after[6],
        DrawCommand::Texture { id: 0, src: None, dst: Some(dst), .. } if *dst == viewport
    ));
    // The content is ten rows of 30 pixels with 8 between: taller than the
    // viewport, so the vertical bar is drawn to its right.
    assert!(matches!(
        &after[7],
        DrawCommand::Rect { rect, .. }
            if *rect == Rect::new(viewport.right(), viewport.y, SCROLL_SIZE, 100)
    ));
    assert_eq!(after.len(), 9);
    assert_eq!(s.ui.scroll(id), Pos::new(0, 30));
    assert_eq!(s.target, None);
}

#[test]
fn scroll_area_keeps_its_target_until_its_size_changes() {
    let mut s = PixState::init("test");
    let count = |s: &mut PixState| {
        s.take_commands()
            .iter()
            .filter(|c| matches!(c, DrawCommand::CreateTexture { .. }))
            .count()
    };
    s.begin_frame(mouse(0, 0, false), None, Vec::new());
    s.scroll_area("A", 120, 100, (8, 14), &Rows(1)).unwrap();
    s.scroll_area("B", 120, 100, (8, 14), &Rows(1)).unwrap();
    assert_eq!(count(&mut s), 2);
    assert_eq!(s.next_texture, 2);
    s.begin_frame(mouse(0, 0, false), None, Vec::new());
    s.scroll_area("A", 120, 100, (8, 14), &Rows(1)).unwrap();
    s.scroll_area("B", 120, 100, (8, 14), &Rows(1)).unwrap();
    assert_eq!(count(&mut s), 0);
    // Another size: the target of B is made anew under its old number.
    s.begin_frame(mouse(0, 0, false), None, Vec::new());
    s.scroll_area("A", 120, 100, (8, 14), &Rows(1)).unwrap();
    s.scroll_area("B", 120, 101, (8, 14), &Rows(1)).unwrap();
    let commands = s.take_commands();
    let made: Vec<&DrawCommand> =
        commands.iter().filter(|c| matches!(c, DrawCommand::CreateTexture { .. })).collect();
    assert_eq!(made.len(), 1);
    assert!(matches!(
        made[0],
        DrawCommand::CreateTexture { id: 1, width: 120, height: 101, format: None }
    ));
    assert_eq!(s.next_texture, 2);
}

#[test]
fn widgets_inside_a_scroll_area_see_the_pointer_in_its_coordinates() {
    let mut s = PixState::init("test");
    let frame_pad = s.theme.frame_pad;
    // The viewport starts at the frame padding; so does the first row in it.
    let x = frame_pad.x + frame_pad.x + 5;
    let y = frame_pad.y + frame_pad.y + 5;
    let click = |s: &mut PixState, input: MouseState| {
        s.begin_frame(input, None, Vec::new());
        s.scroll_area("#list", 200, 100, (0, 0), &Rows(2)).unwrap();
        s.end_frame();
    };
    click(&mut s, mouse(x, y, true));
    let row = s.ui.get_id("Row 0");
    assert!(s.ui.is_active(row));
    assert!(s.ui.is_focused(row));
    click(&mut s, mouse(x, y, false));
    assert_eq!(s.ui.active_id(), None);
    assert_eq!(s.ui.mouse_offset(), Pos::new(0, 0));
}

#[test]
fn scroll_area_hands_on_the_failure_of_its_content_and_still_closes() {
    let mut s = PixState::init("test");
    s.begin_frame(mouse(0, 0, false), None, Vec::new());
    let before = s.ui.cursor_pos();
    let r = s.scroll_area("List", 120, 100, (32, 14), &Broken);
    assert!(matches!(r, Err(PixError::Other(_))));
    assert_eq!(s.target, None);
    assert_eq!(s.ui.mouse_offset(), Pos::new(0, 0));
    assert_eq!(s.ui.cursor_pos().x, before.x);
    assert!(s.ui.cursor_pos().y > before.y + 100);
}

#[test]
fn scroll_area_fails_when_no_texture_number_is_left() {
    let mut s = PixState::init("test");
    s.next_texture = usize::MAX;
    s.begin_frame(mouse(0, 0, false), None, Vec::new());
    let before = s.ui.cursor_pos();
    let r = s.scroll_area("List", 120, 100, (32, 14), &Rows(3));
    assert!(matches!(r, Err(PixError::TextureLimit)));
    assert!(s.take_commands().is_empty());
    assert_eq!(s.ui.cursor_pos(), before);
    assert!(matches!(
        s.begin_scroll_area("List", 120, 100, (32, 14)),
        Err(PixError::TextureLimit)
    ));
}

#[test]
fn region_with_focus_scrolls_with_the_keys() {
    let mut s = PixState::init("test");
    let id = s.ui.get_id("#rows");
    let frame_pad = s.theme.frame_pad;
    // A press on the empty part of the viewport gives the region the focus.
    let run = |s: &mut PixState, input: MouseState, key: Option<Key>| {
        s.begin_frame(input, key, Vec::new());
        s.scroll_area("#rows", 300, 100, (0, 0), &Rows(10)).unwrap();
        s.end_frame();
    };
    run(&mut s, mouse(frame_pad.x + 250, frame_pad.y + 50, true), None);
    assert!(s.ui.is_focused(id));
    run(&mut s, mouse(frame_pad.x + 250, frame_pad.y + 50, false), None);
    run(&mut s, mouse(900, 900, false), Some(Key::Down));
    assert_eq!(s.ui.scroll(id), Pos::new(0, SCROLL_SPEED));
    run(&mut s, mouse(900, 900, false), Some(Key::Down));
    assert_eq!(s.ui.scroll(id), Pos::new(0, 2 * SCROLL_SPEED));
    run(&mut s, mouse(900, 900, false), Some(Key::Up));
    assert_eq!(s.ui.scroll(id), Pos::new(0, SCROLL_SPEED));
    run(&mut s, mouse(900, 900, false), Some(Key::Right));
    assert_eq!(s.ui.scroll(id), Pos::new(0, SCROLL_SPEED));
}
