use pix_engine::event::{position, Event, Input, Key, Mouse, MouseState, WindowEvent};
use pix_engine::shape::rect::Pos;

fn key_down(key: Key) -> Event {
    Event::KeyDown { keycode: Some(key), repeat: false }
}

fn key_up(key: Key) -> Event {
    Event::KeyUp { keycode: Some(key), repeat: false }
}

#[test]
fn input_starts_empty() {
    let input = Input::new();
    assert_eq!(input.mouse, MouseState::at(0, 0));
    assert!(input.keys.is_empty());
    assert_eq!(input.entered, None);
    assert!(!input.quit);
}

#[test]
fn keys_are_held_from_down_to_up() {
    let mut input = Input::new();
    input.handle_event(&key_down(Key::A));
    input.handle_event(&key_down(Key::LShift));
    input.handle_event(&key_down(Key::B));
    assert_eq!(input.keys, vec![Key::A, Key::LShift, Key::B]);
    assert_eq!(input.entered, Some(Key::B));
    // A key that repeats is held once.
    input.handle_event(&Event::KeyDown { keycode: Some(Key::A), repeat: true });
    assert_eq!(input.keys, vec![Key::A, Key::LShift, Key::B]);
    assert_eq!(input.entered, Some(Key::A));
    input.handle_event(&key_up(Key::LShift));
    assert_eq!(input.keys, vec![Key::A, Key::B]);
    // A key that was not held.
    input.handle_event(&key_up(Key::Z));
    assert_eq!(input.keys, vec![Key::A, Key::B]);
    // A key without a name.
    input.handle_event(&Event::KeyDown { keycode: None, repeat: false });
    input.handle_event(&Event::KeyUp { keycode: None, repeat: false });
    assert_eq!(input.keys, vec![Key::A, Key::B]);
    assert_eq!(input.entered, Some(Key::A));

    input.begin_frame();
    assert_eq!(input.entered, None);
    assert_eq!(input.keys, vec![Key::A, Key::B]);
    input.handle_event(&key_up(Key::A));
    input.handle_event(&key_up(Key::B));
    assert!(input.keys.is_empty());
}

#[test]
fn position_is_the_first_place_of_a_key() {
    let keys = vec![Key::A, Key::B, Key::A, Key::C];
    assert_eq!(position(&keys, Key::A), Some(0));
    assert_eq!(position(&keys, Key::B), Some(1));
    assert_eq!(position(&keys, Key::C), Some(3));
    assert_eq!(position(&keys, Key::D), None);
    assert_eq!(position(&Vec::new(), Key::A), None);
}

#[test]
fn mouse_follows_the_events() {
    let mut input = Input::new();
    input.handle_event(&Event::MouseMotion { x: 10, y: 20, xrel: 10, yrel: 20 });
    assert_eq!(input.mouse, MouseState::at(10, 20));
    input.handle_event(&Event::MouseButtonDown { mouse_btn: Some(Mouse::Left), x: 11, y: 21 });
    assert_eq!(input.mouse, MouseState::at(11, 21).with_button(Mouse::Left, true));
    input.handle_event(&Event::MouseButtonDown { mouse_btn: Some(Mouse::Right), x: 12, y: 22 });
    assert!(input.mouse.left && input.mouse.right && !input.mouse.middle);
    input.handle_event(&Event::MouseButtonDown { mouse_btn: None, x: 13, y: 23 });
    assert_eq!(input.mouse.pos, Pos::new(13, 23));
    assert!(input.mouse.left && input.mouse.right && !input.mouse.middle);
    input.handle_event(&Event::MouseButtonUp { mouse_btn: Some(Mouse::Left), x: 14, y: 24 });
    assert!(!input.mouse.left && input.mouse.right);
    input.handle_event(&Event::MouseButtonDown { mouse_btn: Some(Mouse::Middle), x: 14, y: 24 });
    assert!(input.mouse.middle);
    input.handle_event(&Event::MouseWheel { x: -1, y: 3 });
    assert_eq!((input.mouse.xrel, input.mouse.yrel), (-1, 3));
    assert_eq!(input.mouse.pos, Pos::new(14, 24));

    // The wheel is at rest at the next frame; the buttons are still held.
    input.begin_frame();
    assert_eq!((input.mouse.xrel, input.mouse.yrel), (0, 0));
    assert!(input.mouse.right && input.mouse.middle);
    assert_eq!(input.mouse.pos, Pos::new(14, 24));
}

#[test]
fn quit_is_asked_by_the_window_or_the_system() {
    for event in [
        Event::Quit,
        Event::AppTerminating,
        Event::Window { win_event: WindowEvent::Close },
    ] {
        let mut input = Input::new();
        input.handle_event(&event);
        assert!(input.quit);
        input.begin_frame();
        input.handle_event(&Event::Unknown);
        assert!(input.quit);
    }
    for event in [
        Event::Unknown,
        Event::Window { win_event: WindowEvent::Resized(3, 4) },
        Event::TextInput { text: "quit".to_string() },
        Event::JoyDeviceAdded { which: 1 },
        key_down(Key::Escape),
    ] {
        let mut input = Input::new();
        input.handle_event(&event);
        assert!(!input.quit);
    }
}
