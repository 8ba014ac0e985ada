//! The engine state.

use vstd::prelude::*;
use std::collections::HashMap;
use crate::draw::{DrawCommand, DrawOp};
use crate::error::PixResult;
use crate::event::{Key, Mouse, MouseState};
use crate::gui::state::{UiState, UiView};
use crate::gui::theme::Theme;
use crate::shape::rect::Pos;
use crate::state::settings::Settings;
use crate::texture::{Texture, TextureId};

pub mod settings;

verus! {

/// All state of the engine, and the methods that draw.
pub struct PixState {
    /// Window title.
    pub title: String,
    /// Settings that drawing calls read.
    pub settings: Settings,
    /// Settings put aside by `push`.
    pub saved: Vec<Settings>,
    /// Colors and spacing of the widgets.
    pub theme: Theme,
    /// Interaction state of the widgets.
    pub ui: UiState,
    /// The keys that are held, none of them twice.
    pub keys: Vec<Key>,
    /// What the renderer is asked to do, in order.
    pub commands: Vec<DrawCommand>,
    /// The offscreen target of each scrollable region.
    pub targets: HashMap<u64, Texture>,
    /// The number that the next new texture gets.
    pub next_texture: TextureId,
    /// The texture that is drawn to; the window if there is none.
    pub target: Option<TextureId>,
    /// Whether the window is fullscreen.
    pub fullscreen: bool,
    /// Frames drawn during the last second.
    pub frame_rate: usize,
    /// How many more frames to draw although the loop is paused.
    pub update_count: Option<usize>,
}

/// What a program does with the engine. The engine calls these methods while
/// it runs.
pub trait AppState {
    /// Called once when the engine starts. Unless a program says otherwise,
    /// nothing is done: the call succeeds and leaves the engine state as it
    /// is.
    fn on_start(&mut self, _s: &mut PixState) -> (r: PixResult<()>)
        default_ensures
            r is Ok,
            *final(_s) == *old(_s),
    {
        Ok(())
    }

    /// Called once per frame.
    fn on_update(&mut self, s: &mut PixState) -> PixResult<()>;

    /// Called once when the engine is asked to stop. Unless a program says
    /// otherwise, nothing is done: the call succeeds and leaves the engine
    /// state as it is.
    fn on_stop(&mut self, _s: &mut PixState) -> (r: PixResult<()>)
        default_ensures
            r is Ok,
            *final(_s) == *old(_s),
    {
        Ok(())
    }

    /// Called each time a key goes down.
    fn on_key_pressed(&mut self, _s: &mut PixState, _key: Key)
        default_ensures
            *final(_s) == *old(_s),
    {
    }

    /// Called each time a key goes up.
    fn on_key_released(&mut self, _s: &mut PixState, _key: Key)
        default_ensures
            *final(_s) == *old(_s),
    {
    }

    /// Called each time text is typed.
    fn on_key_typed(&mut self, _s: &mut PixState, _text: &str)
        default_ensures
            *final(_s) == *old(_s),
    {
    }

    /// Called each time the mouse moves while a button is held.
    fn on_mouse_dragged(&mut self, _s: &mut PixState)
        default_ensures
            *final(_s) == *old(_s),
    {
    }

    /// Called each time a mouse button goes down.
    fn on_mouse_pressed(&mut self, _s: &mut PixState, _btn: Mouse)
        default_ensures
            *final(_s) == *old(_s),
    {
    }

    /// Called each time a mouse button goes up.
    fn on_mouse_released(&mut self, _s: &mut PixState, _btn: Mouse)
        default_ensures
            *final(_s) == *old(_s),
    {
    }

    /// Called each time the wheel moves.
    fn on_mouse_wheel(&mut self, _s: &mut PixState, _x_delta: i32, _y_delta: i32)
        default_ensures
            *final(_s) == *old(_s),
    {
    }

    /// Called each time the window changes its size.
    fn on_window_resized(&mut self, _s: &mut PixState)
        default_ensures
            *final(_s) == *old(_s),
    {
    }
}

/// The commands in `commands`, as plain values.
pub open spec fn ops_of(commands: Seq<DrawCommand>) -> Seq<DrawOp> {
    commands.map_values(|c: DrawCommand| c@)
}

impl PixState {
    /// What the renderer is asked to do, as plain values.
    pub open spec fn ops(&self) -> Seq<DrawOp> {
        ops_of(self.commands@)
    }

    /// Whether `self` and `other` differ at most in the interaction state of
    /// the widgets and in the commands.
    pub open spec fn same_setup(&self, other: &PixState) -> bool {
        &&& self.title == other.title
        &&& self.settings == other.settings
        &&& self.saved == other.saved
        &&& self.theme == other.theme
        &&& self.keys == other.keys
        &&& self.targets == other.targets
        &&& self.next_texture == other.next_texture
        &&& self.target == other.target
        &&& self.fullscreen == other.fullscreen
        &&& self.frame_rate == other.frame_rate
        &&& self.update_count == other.update_count
    }

    /// Whether `self` and `other` differ at most in the interaction state of
    /// the widgets, in the commands, and in the settings and those put aside.
    pub open spec fn same_surroundings(&self, other: &PixState) -> bool {
        &&& self.title == other.title
        &&& self.theme == other.theme
        &&& self.keys == other.keys
        &&& self.targets == other.targets
        &&& self.next_texture == other.next_texture
        &&& self.target == other.target
        &&& self.fullscreen == other.fullscreen
        &&& self.frame_rate == other.frame_rate
        &&& self.update_count == other.update_count
    }

    /// An engine state for a window with the given title: default settings and
    /// theme, no input, nothing drawn.
    pub fn init(title: &str) -> (s: Self)
        ensures
            s.title@ == title@,
            s.settings.is_default(),
            s.theme == Theme::dark(),
            s.frame_rate == 0,
            s.ui@ == UiView::initial(),
            s.ops() == Seq::<DrawOp>::empty(),
            s.saved@.len() == 0,
            s.keys@.len() == 0,
            s.targets@ == Map::<u64, Texture>::empty(),
            s.next_texture == 0,
            s.target is None,
            !s.fullscreen,
            s.update_count is None,
    {
        PixState {
            title: title.to_string(),
            settings: Settings::default(),
            saved: Vec::new(),
            theme: Theme::default(),
            ui: UiState::new(),
            keys: Vec::new(),
            commands: Vec::new(),
            targets: HashMap::new(),
            next_texture: 0,
            target: None,
            fullscreen: false,
            frame_rate: 0,
            update_count: None,
        }
    }

    /// Appends a command for the renderer.
    pub fn emit(&mut self, command: DrawCommand)
        ensures
            final(self).ops() == old(self).ops().push(command@),
            final(self).ui == old(self).ui,
            final(self).same_setup(old(self)),
    {
        self.commands.push(command);
        assert(self.ops() =~= old(self).ops().push(command@));
    }

    /// Hands over the commands of the frame and starts an empty list.
    pub fn take_commands(&mut self) -> (commands: Vec<DrawCommand>)
        ensures
            ops_of(commands@) == old(self).ops(),
            final(self).ops() == Seq::<DrawOp>::empty(),
            final(self).ui == old(self).ui,
            final(self).same_setup(old(self)),
    {
        let mut commands = Vec::new();
        core::mem::swap(&mut commands, &mut self.commands);
        commands
    }

    /// Starts a frame with its input: the mouse, the key that went down last,
    /// and the keys that are held.
    pub fn begin_frame(&mut self, mouse: MouseState, key: Option<Key>, keys: Vec<Key>)
        ensures
            final(self).ui@ == old(self).ui@.next_frame(mouse, key, old(self).theme.frame_pad),
            final(self).keys == keys,
            final(self).ops() == old(self).ops(),
            final(self).title == old(self).title,
            final(self).settings == old(self).settings,
            final(self).saved == old(self).saved,
            final(self).theme == old(self).theme,
            final(self).targets == old(self).targets,
            final(self).next_texture == old(self).next_texture,
            final(self).target == old(self).target,
            final(self).fullscreen == old(self).fullscreen,
            final(self).frame_rate == old(self).frame_rate,
            final(self).update_count == old(self).update_count,
    {
        self.ui.begin_frame(mouse, key, self.theme.frame_pad);
        self.keys = keys;
    }

    /// Ends the frame.
    pub fn end_frame(&mut self)
        ensures
            final(self).ui@ == old(self).ui@.frame_ended(),
            final(self).ops() == old(self).ops(),
            final(self).same_setup(old(self)),
    {
        self.ui.end_frame();
    }

    /// The window title.
    pub fn title(&self) -> (title: &str)
        ensures
            title@ == self.title@,
    {
        self.title.as_str()
    }

    /// Sets the window title. The renderer shows the frame rate behind it if
    /// the settings ask for that.
    pub fn set_title(&mut self, title: &str)
        ensures
            final(self).title@ == title@,
            final(self).ops() == old(self).ops().push(
                DrawOp::Title {
                    title: title@,
                    frame_rate: if old(self).settings.show_frame_rate {
                        Some(old(self).frame_rate)
                    } else {
                        None
                    },
                },
            ),
            final(self).ui == old(self).ui,
            final(self).settings == old(self).settings,
            final(self).saved == old(self).saved,
            final(self).theme == old(self).theme,
            final(self).keys == old(self).keys,
            final(self).targets == old(self).targets,
            final(self).next_texture == old(self).next_texture,
            final(self).target == old(self).target,
            final(self).fullscreen == old(self).fullscreen,
            final(self).frame_rate == old(self).frame_rate,
            final(self).update_count == old(self).update_count,
    {
        self.title = title.to_string();
        let frame_rate = if self.settings.show_frame_rate {
            Some(self.frame_rate)
        } else {
            None
        };
        self.emit(DrawCommand::Title { title: title.to_string(), frame_rate });
    }

    /// Lets the loop draw `n` more frames although it is paused.
    pub fn update(&mut self, n: usize)
        ensures
            final(self).update_count == Some(n),
            final(self).ops() == old(self).ops(),
            final(self).ui == old(self).ui,
            final(self).title == old(self).title,
            final(self).settings == old(self).settings,
            final(self).saved == old(self).saved,
            final(self).theme == old(self).theme,
            final(self).keys == old(self).keys,
            final(self).targets == old(self).targets,
            final(self).next_texture == old(self).next_texture,
            final(self).target == old(self).target,
            final(self).fullscreen == old(self).fullscreen,
            final(self).frame_rate == old(self).frame_rate,
    {
        self.update_count = Some(n);
    }

    /// Whether the next frame is to be drawn, and one frame less to go if the
    /// loop was unpaused for a number of frames. While frames are left of
    /// those that `update` asked for, the frame is drawn whether the loop is
    /// paused or not; else it is drawn unless the loop is paused.
    pub fn next_step(&mut self) -> (step: bool)
        ensures
            step == match old(self).update_count {
                Some(n) => n > 0 || !old(self).settings.paused,
                None => !old(self).settings.paused,
            },
            final(self).update_count == match old(self).update_count {
                Some(n) => if n > 0 {
                    Some((n - 1) as usize)
                } else {
                    Some(n)
                },
                None => None,
            },
            final(self).ops() == old(self).ops(),
            final(self).ui == old(self).ui,
            final(self).title == old(self).title,
            final(self).settings == old(self).settings,
            final(self).saved == old(self).saved,
            final(self).theme == old(self).theme,
            final(self).keys == old(self).keys,
            final(self).targets == old(self).targets,
            final(self).next_texture == old(self).next_texture,
            final(self).target == old(self).target,
            final(self).fullscreen == old(self).fullscreen,
            final(self).frame_rate == old(self).frame_rate,
    {
        match self.update_count {
            Some(n) => {
                if n > 0 {
                    self.update_count = Some(n - 1);
                    true
                } else {
                    !self.settings.paused
                }
            },
            None => !self.settings.paused,
        }
    }

    /// Where the pointer is, in window coordinates.
    pub fn mouse_pos(&self) -> (p: Pos)
        ensures
            p == self.ui@.mouse.pos,
    {
        self.ui.mouse().pos
    }

    /// Where the pointer was at the frame before.
    pub fn pmouse_pos(&self) -> (p: Pos)
        ensures
            p == self.ui@.pmouse.pos,
    {
        self.ui.pmouse().pos
    }

    /// Whether `btn` is held.
    pub fn mouse_pressed(&self, btn: Mouse) -> (held: bool)
        ensures
            held == self.ui@.mouse.holds(btn),
    {
        self.ui.mouse().is_down(btn)
    }

    /// The mouse buttons that are held: of left, middle and right those that
    /// are down, in this order.
    pub open spec fn buttons_held(mouse: MouseState) -> Seq<Mouse> {
        let left = if mouse.left {
            seq![Mouse::Left]
        } else {
            Seq::<Mouse>::empty()
        };
        let middle = if mouse.middle {
            left.push(Mouse::Middle)
        } else {
            left
        };
        if mouse.right {
            middle.push(Mouse::Right)
        } else {
            middle
        }
    }

    /// The mouse buttons that are held: of left, middle and right those that
    /// are down, in this order.
    pub fn mouse_buttons(&self) -> (held: Vec<Mouse>)
        ensures
            held@ == PixState::buttons_held(self.ui@.mouse),
            forall|btn: Mouse| held@.contains(btn) <==> self.ui@.mouse.holds(btn),
            held@.no_duplicates(),
    {
        let mouse = self.ui.mouse();
        let mut held: Vec<Mouse> = Vec::new();
        if mouse.left {
            held.push(Mouse::Left);
        }
        if mouse.middle {
            held.push(Mouse::Middle);
        }
        if mouse.right {
            held.push(Mouse::Right);
        }
        assert(held@ =~= PixState::buttons_held(mouse));
        proof {
            let ghost m = self.ui@.mouse;
            assert forall|btn: Mouse| held@.contains(btn) <==> m.holds(btn) by {
                if m.holds(btn) {
                    if btn == Mouse::Left {
                        assert(held@[0] == btn);
                    } else if btn == Mouse::Middle {
                        assert(held@[if m.left { 1int } else { 0int }] == btn);
                    } else {
                        assert(held@[held@.len() - 1] == btn);
                    }
                }
            }
        }
        held
    }

    /// The keys that are held.
    pub fn keys(&self) -> (held: &Vec<Key>)
        ensures
            held == self.keys,
    {
        &self.keys
    }

    /// Whether `key` is held.
    pub fn key_pressed(&self, key: Key) -> (held: bool)
        ensures
            held == self.keys@.contains(key),
    {
        let mut i: usize = 0;
        while i < self.keys.len()
            invariant
                0 <= i <= self.keys.len(),
                forall|j: int| 0 <= j < i ==> self.keys@[j] != key,
            decreases self.keys.len() - i,
        {
            if self.keys[i] == key {
                return true;
            }
            i += 1;
        }
        false
    }
}

} // verus!
