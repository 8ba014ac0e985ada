//! Widget identity and the interaction state that outlives a frame.
//!
//! A frame starts with [`UiState::begin_frame`], which takes the input of the
//! frame. Each widget then asks, in the order in which it is drawn, for hover
//! ([`UiState::try_hover`]), for keyboard focus ([`UiState::try_focus`]) and
//! commits its mouse handling ([`UiState::handle_events`]). The frame ends with
//! [`UiState::end_frame`].

use vstd::prelude::*;
use vstd::string::{StrSliceExecFns, StringSliceAdditionalSpecFns};
use vstd::utf8::encode_utf8;
use std::collections::HashMap;
use crate::event::{Key, MouseState};
use crate::shape::rect::{sat, saturate, Pos, Rect};

verus! {

/// Start value of the label hash.
pub const HASH_BASIS: u64 = 0xcbf29ce484222325;

/// Multiplier of the label hash.
pub const HASH_PRIME: u64 = 0x100000001b3;

/// The 64-bit FNV-1a hash of `bytes`.
pub open spec fn fnv1a(bytes: Seq<u8>) -> u64
    decreases bytes.len(),
{
    if bytes.len() == 0 {
        HASH_BASIS
    } else {
        (fnv1a(bytes.drop_last()) ^ (bytes.last() as u64)).wrapping_mul(HASH_PRIME)
    }
}

/// The hash continued from `h` over one coordinate.
pub open spec fn mix(h: u64, v: i32) -> u64 {
    (h ^ ((v - i32::MIN) as u64)).wrapping_mul(HASH_PRIME)
}

/// Identifies one widget for as long as the program runs.
#[derive(Clone, Copy, Debug, PartialEq, Eq, Structural, Hash)]
pub struct WidgetId(pub u64);

/// The identifier of the widget with the label `label`: a hash of all of its
/// characters, those after a `#` included.
pub open spec fn label_id(label: Seq<char>) -> WidgetId {
    WidgetId(fnv1a(encode_utf8(label)))
}

/// The identifier of a widget that is known by the rectangle it occupies.
pub open spec fn rect_id(rect: Rect) -> WidgetId {
    WidgetId(mix(mix(mix(mix(HASH_BASIS, rect.x), rect.y), rect.w), rect.h))
}

/// The number of characters of `label` before its first `#`; all of them if it
/// has none.
pub open spec fn visible_len(label: Seq<char>) -> int
    decreases label.len(),
{
    if label.len() == 0 || label[0] == '#' {
        0
    } else {
        1 + visible_len(label.drop_first())
    }
}

/// The part of `label` that is shown: what stands before its first `#`.
pub open spec fn visible(label: Seq<char>) -> Seq<char> {
    label.take(visible_len(label))
}

/// `visible_len` is the position of the first `#`.
pub proof fn lemma_visible_len(label: Seq<char>)
    ensures
        0 <= visible_len(label) <= label.len(),
        forall|i: int| 0 <= i < visible_len(label) ==> label[i] != '#',
        visible_len(label) < label.len() ==> label[visible_len(label)] == '#',
    decreases label.len(),
{
    if label.len() == 0 || label[0] == '#' {
    } else {
        let rest = label.drop_first();
        lemma_visible_len(rest);
        assert forall|i: int| 0 <= i < visible_len(label) implies label[i] != '#' by {
            if i > 0 {
                assert(label[i] == rest[i - 1]);
            }
        }
        if visible_len(label) < label.len() {
            assert(label[visible_len(label)] == rest[visible_len(rest)]);
        }
    }
}

/// A position `n` with no `#` before it, and either a `#` at it or the end of
/// the label, is `visible_len`.
pub proof fn lemma_visible_len_is(label: Seq<char>, n: int)
    requires
        0 <= n <= label.len(),
        forall|i: int| 0 <= i < n ==> label[i] != '#',
        n < label.len() ==> label[n] == '#',
    ensures
        visible_len(label) == n,
    decreases label.len(),
{
    if label.len() == 0 || label[0] == '#' {
    } else {
        let rest = label.drop_first();
        assert forall|i: int| 0 <= i < n - 1 implies rest[i] != '#' by {
            assert(rest[i] == label[i + 1]);
        }
        if n - 1 < rest.len() {
            assert(rest[n - 1] == label[n]);
        }
        lemma_visible_len_is(rest, n - 1);
    }
}

/// Where the next widget goes, and what the layout remembers of the last one.
#[derive(Clone, Copy, Debug, PartialEq, Eq, Structural, Hash, Default)]
pub struct Layout {
    /// Top-left corner of the next widget.
    pub cursor: Pos,
    /// Where a widget goes that continues the line of the last one.
    pub pcursor: Pos,
    /// Column at which each new line starts.
    pub line_start: i32,
    /// Height of the line being filled.
    pub line_height: i32,
    /// Height of the last finished line.
    pub pline_height: i32,
    /// Width of the last widget.
    pub last_width: i32,
    /// Height of the last widget.
    pub last_height: i32,
}

impl Layout {
    /// An empty layout whose first widget goes to `origin`.
    pub open spec fn starting_at(origin: Pos) -> Layout {
        Layout {
            cursor: origin,
            pcursor: origin,
            line_start: origin.x,
            line_height: 0,
            pline_height: 0,
            last_width: 0,
            last_height: 0,
        }
    }

    /// The layout after a widget has taken `rect`: the cursor returns to the
    /// start of the line and moves down by the height of the line and `gap`.
    pub open spec fn advanced(self, rect: Rect, gap: int) -> Layout {
        let line = if self.line_height > rect.h {
            self.line_height
        } else {
            rect.h
        };
        Layout {
            cursor: Pos { x: self.line_start, y: sat(self.cursor.y + line + gap) as i32 },
            pcursor: Pos { x: rect.spec_right() as i32, y: self.cursor.y },
            line_start: self.line_start,
            line_height: 0,
            pline_height: line,
            last_width: rect.w,
            last_height: rect.h,
        }
    }

    /// The layout with the cursor put back behind the last widget, `gap` to the
    /// right of it.
    pub open spec fn continued(self, gap: int) -> Layout {
        Layout {
            cursor: Pos { x: sat(self.pcursor.x + gap) as i32, y: self.pcursor.y },
            line_height: self.pline_height,
            ..self
        }
    }
}

/// What [`UiState`] holds, as plain values.
pub struct UiView {
    /// The mouse at this frame.
    pub mouse: MouseState,
    /// The mouse at the frame before.
    pub pmouse: MouseState,
    /// The key that went down last at this frame, if any.
    pub key: Option<Key>,
    /// Whether widgets are drawn disabled.
    pub disabled: bool,
    /// The widget under the pointer.
    pub hovered: Option<WidgetId>,
    /// The widget that has the keyboard.
    pub focused: Option<WidgetId>,
    /// The widget on which the primary button went down and is still held.
    pub active: Option<WidgetId>,
    /// The widget that was clicked at this frame.
    pub clicked: Option<WidgetId>,
    /// How far each scrollable region is scrolled.
    pub scroll: Map<u64, Pos>,
    /// The layout cursor.
    pub layout: Layout,
    /// Layouts put aside by `push_cursor`.
    pub saved: Seq<Layout>,
    /// What to take off the pointer position for widgets that are drawn to an
    /// offscreen target.
    pub mouse_offset: Pos,
    /// The width that the next widget is to have in place of its own, if one
    /// was asked for.
    pub next_width: Option<i32>,
}

/// What the interaction state knows of one widget.
#[derive(Clone, Copy, Debug, PartialEq, Eq, Structural, Hash)]
pub struct InteractionRecord {
    /// Whether the pointer is on the widget.
    pub is_hovered: bool,
    /// Whether the widget has the keyboard focus.
    pub is_focused: bool,
    /// Whether the widget is the one on which the primary button is held.
    pub is_active: bool,
    /// How far the widget is scrolled, if it is a scrollable region.
    pub scroll_offset: Pos,
}

impl UiView {
    /// The state before the first frame: nothing is hovered, focused or
    /// pressed, no region is scrolled, no input has arrived, and the layout
    /// starts at the top-left corner.
    pub open spec fn initial() -> UiView {
        UiView {
            mouse: MouseState::default_state(),
            pmouse: MouseState::default_state(),
            key: None,
            disabled: false,
            hovered: None,
            focused: None,
            active: None,
            clicked: None,
            scroll: Map::empty(),
            layout: Layout::starting_at(Pos { x: 0, y: 0 }),
            saved: Seq::empty(),
            mouse_offset: Pos { x: 0, y: 0 },
            next_width: None,
        }
    }

    /// What the state knows of the widget `id`.
    pub open spec fn record_of(self, id: WidgetId) -> InteractionRecord {
        InteractionRecord {
            is_hovered: self.hovered == Some(id),
            is_focused: self.focused == Some(id),
            is_active: self.active == Some(id),
            scroll_offset: self.scroll_of(id),
        }
    }

    /// The primary button went down at this frame.
    pub open spec fn pressed(self) -> bool {
        self.mouse.left && !self.pmouse.left
    }

    /// The primary button went up at this frame.
    pub open spec fn released(self) -> bool {
        !self.mouse.left && self.pmouse.left
    }

    /// The pointer position as widgets see it.
    pub open spec fn pointer(self) -> Pos {
        self.mouse.pos.moved(-self.mouse_offset.x, -self.mouse_offset.y)
    }

    /// Whether `id` gets the hover when it asks for it with `rect`: the pointer
    /// is in `rect`, widgets are enabled, and no other widget is being dragged.
    /// At the frame of a press nothing is dragged yet, so that of two widgets
    /// under the pointer the one drawn last takes the press.
    pub open spec fn hovers(self, id: WidgetId, rect: Rect) -> bool {
        &&& !self.disabled
        &&& rect.covers(self.pointer())
        &&& (self.active is None || self.active == Some(id) || self.pressed())
    }

    /// The state after `id` asked for the hover with `rect`.
    pub open spec fn after_hover(self, id: WidgetId, rect: Rect) -> UiView {
        if self.hovers(id, rect) {
            UiView { hovered: Some(id), ..self }
        } else if self.hovered == Some(id) {
            UiView { hovered: None, ..self }
        } else {
            self
        }
    }

    /// Whether `id` takes the keyboard focus when it asks for it: the primary
    /// button went down on it at this frame.
    pub open spec fn takes_focus(self, id: WidgetId) -> bool {
        !self.disabled && self.hovered == Some(id) && self.pressed()
    }

    /// The state after `id` asked for the keyboard focus.
    pub open spec fn after_focus(self, id: WidgetId) -> UiView {
        if self.takes_focus(id) {
            UiView { focused: Some(id), ..self }
        } else {
            self
        }
    }

    /// The state after `id` committed its mouse handling. A press on the hovered
    /// widget makes it active. A release ends the press of the active widget,
    /// and counts as a click if the pointer is still on it.
    pub open spec fn after_events(self, id: WidgetId) -> UiView {
        if self.pressed() && self.hovered == Some(id) && !self.disabled {
            UiView { active: Some(id), ..self }
        } else if self.released() && self.active == Some(id) {
            UiView {
                active: None,
                clicked: if self.hovered == Some(id) {
                    Some(id)
                } else {
                    self.clicked
                },
                ..self
            }
        } else {
            self
        }
    }

    /// Whether `id` was clicked at this frame.
    pub open spec fn was_clicked(self, id: WidgetId) -> bool {
        !self.disabled && self.clicked == Some(id)
    }

    /// The state after the three steps that every widget takes, in their fixed
    /// order: hover, focus, events.
    pub open spec fn after_widget(self, id: WidgetId, rect: Rect) -> UiView {
        self.after_hover(id, rect).after_focus(id).after_events(id)
    }

    /// The state at the start of the next frame, with its input. Hover and click
    /// are forgotten, the layout starts again at `origin`.
    pub open spec fn next_frame(self, mouse: MouseState, key: Option<Key>, origin: Pos) -> UiView {
        UiView {
            mouse,
            pmouse: self.mouse,
            key,
            hovered: None,
            clicked: None,
            layout: Layout::starting_at(origin),
            saved: Seq::empty(),
            mouse_offset: Pos { x: 0, y: 0 },
            next_width: None,
            ..self
        }
    }

    /// The state after a widget has taken `rect` in the layout: the cursor
    /// moves below it, leaving `gap`, and a width that was asked for is used
    /// up.
    pub open spec fn placed(self, rect: Rect, gap: int) -> UiView {
        UiView { layout: self.layout.advanced(rect, gap), next_width: None, ..self }
    }

    /// The state at the end of the frame: with the primary button up, no widget
    /// stays active, whether or not it was drawn at this frame.
    pub open spec fn frame_ended(self) -> UiView {
        if self.mouse.left {
            self
        } else {
            UiView { active: None, ..self }
        }
    }

    /// How far the region `id` is scrolled; not at all if nothing was recorded.
    pub open spec fn scroll_of(self, id: WidgetId) -> Pos {
        if self.scroll.contains_key(id.0) {
            self.scroll[id.0]
        } else {
            Pos { x: 0, y: 0 }
        }
    }
}

/// The interaction state of all widgets.
pub struct UiState {
    mouse: MouseState,
    pmouse: MouseState,
    key: Option<Key>,
    disabled: bool,
    hovered: Option<WidgetId>,
    focused: Option<WidgetId>,
    active: Option<WidgetId>,
    clicked: Option<WidgetId>,
    scroll: HashMap<u64, Pos>,
    layout: Layout,
    saved: Vec<Layout>,
    mouse_offset: Pos,
    next_width: Option<i32>,
}

impl View for UiState {
    type V = UiView;

    closed spec fn view(&self) -> UiView {
        UiView {
            mouse: self.mouse,
            pmouse: self.pmouse,
            key: self.key,
            disabled: self.disabled,
            hovered: self.hovered,
            focused: self.focused,
            active: self.active,
            clicked: self.clicked,
            scroll: self.scroll@,
            layout: self.layout,
            saved: self.saved@,
            mouse_offset: self.mouse_offset,
            next_width: self.next_width,
        }
    }
}

/// Whether `slot` holds `id`.
fn holds(slot: Option<WidgetId>, id: WidgetId) -> (r: bool)
    ensures
        r == (slot == Some(id)),
{
    match slot {
        Some(other) => other.0 == id.0,
        None => false,
    }
}

/// The 64-bit FNV-1a hash of `bytes`.
pub fn hash_bytes(bytes: &[u8]) -> (h: u64)
    ensures
        h == fnv1a(bytes@),
{
    let mut h: u64 = HASH_BASIS;
    let mut i: usize = 0;
    while i < bytes.len()
        invariant
            0 <= i <= bytes.len(),
            h == fnv1a(bytes@.take(i as int)),
        decreases bytes.len() - i,
    {
        proof {
            let next = bytes@.take(i + 1);
            assert(next.drop_last() =~= bytes@.take(i as int));
            assert(next.last() == bytes@[i as int]);
        }
        h = (h ^ (bytes[i] as u64)).wrapping_mul(HASH_PRIME);
        i += 1;
    }
    proof {
        assert(bytes@.take(i as int) =~= bytes@);
    }
    h
}

/// The part of `label` that is shown: what stands before its first `#`.
pub fn visible_label(label: &str) -> (text: String)
    ensures
        text@ == visible(label@),
        text@.len() <= label@.len(),
        forall|i: int| 0 <= i < text@.len() ==> text@[i] == label@[i] && text@[i] != '#',
        text@.len() < label@.len() ==> label@[text@.len() as int] == '#',
{
    let n = label.unicode_len();
    let mut i: usize = 0;
    while i < n && label.get_char(i) != '#'
        invariant
            0 <= i <= n,
            n == label@.len(),
            forall|j: int| 0 <= j < i ==> label@[j] != '#',
        decreases n - i,
    {
        i += 1;
    }
    proof {
        lemma_visible_len_is(label@, i as int);
        lemma_visible_len(label@);
    }
    label.substring_char(0, i).to_string()
}

/// The hash continued from `h` over one coordinate.
fn mix_in(h: u64, v: i32) -> (r: u64)
    ensures
        r == mix(h, v),
{
    (h ^ ((v as i64 - i32::MIN as i64) as u64)).wrapping_mul(HASH_PRIME)
}

impl UiState {
    /// A state in which nothing is hovered, focused or pressed, no region is
    /// scrolled, and the layout starts at the top-left corner.
    pub fn new() -> (ui: Self)
        ensures
            ui@ == UiView::initial(),
    {
        let origin = Pos { x: 0, y: 0 };
        let rest = MouseState::at(0, 0);
        UiState {
            mouse: rest,
            pmouse: rest,
            key: None,
            disabled: false,
            hovered: None,
            focused: None,
            active: None,
            clicked: None,
            scroll: HashMap::new(),
            layout: Layout {
                cursor: origin,
                pcursor: origin,
                line_start: 0,
                line_height: 0,
                pline_height: 0,
                last_width: 0,
                last_height: 0,
            },
            saved: Vec::new(),
            mouse_offset: origin,
            next_width: None,
        }
    }

    /// Starts a frame with its input. The first widget goes to `origin`.
    pub fn begin_frame(&mut self, mouse: MouseState, key: Option<Key>, origin: Pos)
        ensures
            final(self)@ == old(self)@.next_frame(mouse, key, origin),
    {
        self.pmouse = self.mouse;
        self.mouse = mouse;
        self.key = key;
        self.hovered = None;
        self.clicked = None;
        self.layout = Layout {
            cursor: origin,
            pcursor: origin,
            line_start: origin.x,
            line_height: 0,
            pline_height: 0,
            last_width: 0,
            last_height: 0,
        };
        self.saved = Vec::new();
        self.mouse_offset = Pos { x: 0, y: 0 };
        self.next_width = None;
    }

    /// Ends the frame: once the primary button is up, no widget stays active.
    pub fn end_frame(&mut self)
        ensures
            final(self)@ == old(self)@.frame_ended(),
    {
        if !self.mouse.left {
            self.active = None;
        }
    }

    /// The identifier of the widget with the label `label`. Equal labels give
    /// equal identifiers, at every frame and in every run.
    pub fn get_id(&self, label: &str) -> (id: WidgetId)
        ensures
            id == label_id(label@),
    {
        WidgetId(hash_bytes(label.as_bytes()))
    }

    /// The identifier of a widget that has no label and is known by the
    /// rectangle it occupies.
    pub fn get_rect_id(&self, rect: Rect) -> (id: WidgetId)
        ensures
            id == rect_id(rect),
    {
        WidgetId(mix_in(mix_in(mix_in(mix_in(HASH_BASIS, rect.x), rect.y), rect.w), rect.h))
    }

    /// The mouse at this frame.
    pub fn mouse(&self) -> (m: MouseState)
        ensures
            m == self@.mouse,
    {
        self.mouse
    }

    /// The mouse at the frame before.
    pub fn pmouse(&self) -> (m: MouseState)
        ensures
            m == self@.pmouse,
    {
        self.pmouse
    }

    /// The pointer position as widgets see it.
    pub fn mouse_pos(&self) -> (p: Pos)
        ensures
            p == self@.pointer(),
    {
        Pos {
            x: saturate(self.mouse.pos.x as i64 - self.mouse_offset.x as i64),
            y: saturate(self.mouse.pos.y as i64 - self.mouse_offset.y as i64),
        }
    }

    /// The key that went down last at this frame, if any.
    pub fn key_entered(&self) -> (key: Option<Key>)
        ensures
            key == self@.key,
    {
        self.key
    }

    /// Whether the primary button went down at this frame.
    pub fn mouse_pressed(&self) -> (edge: bool)
        ensures
            edge == self@.pressed(),
    {
        self.mouse.left && !self.pmouse.left
    }

    /// Whether the primary button went up at this frame.
    pub fn mouse_released(&self) -> (edge: bool)
        ensures
            edge == self@.released(),
    {
        !self.mouse.left && self.pmouse.left
    }

    /// Whether widgets are drawn disabled.
    pub fn is_disabled(&self) -> (disabled: bool)
        ensures
            disabled == self@.disabled,
    {
        self.disabled
    }

    /// Draws the widgets that follow disabled, or enabled again.
    pub fn set_disabled(&mut self, disabled: bool)
        ensures
            final(self)@ == (UiView { disabled, ..old(self)@ }),
    {
        self.disabled = disabled;
    }

    /// Whether `id`, which occupies `rect`, would get the hover if it asked for
    /// it now.
    pub fn would_hover(&self, id: WidgetId, rect: Rect) -> (hovers: bool)
        ensures
            hovers == self@.hovers(id, rect),
    {
        let free = match self.active {
            Some(other) => other.0 == id.0,
            None => true,
        };
        let pointer = self.mouse_pos();
        !self.disabled && rect.contains_point(pointer) && (free || self.mouse_pressed())
    }

    /// Asks for the hover for `id`, which occupies `rect`, and says whether `id`
    /// has it.
    pub fn try_hover(&mut self, id: WidgetId, rect: Rect) -> (hovered: bool)
        ensures
            hovered == old(self)@.hovers(id, rect),
            final(self)@ == old(self)@.after_hover(id, rect),
            hovered == (final(self)@.hovered == Some(id)),
    {
        if self.would_hover(id, rect) {
            self.hovered = Some(id);
            true
        } else {
            if holds(self.hovered, id) {
                self.hovered = None;
            }
            false
        }
    }

    /// Asks for the keyboard focus for `id`, and says whether `id` has it: it
    /// takes it with a press of the primary button on it, and keeps it until
    /// another widget takes it.
    pub fn try_focus(&mut self, id: WidgetId) -> (focused: bool)
        ensures
            final(self)@ == old(self)@.after_focus(id),
            focused == (final(self)@.focused == Some(id)),
            focused == (old(self)@.takes_focus(id) || old(self)@.focused == Some(id)),
    {
        if !self.disabled && holds(self.hovered, id) && self.mouse_pressed() {
            self.focused = Some(id);
        }
        holds(self.focused, id)
    }

    /// Commits the mouse handling of `id` for this frame.
    pub fn handle_events(&mut self, id: WidgetId)
        ensures
            final(self)@ == old(self)@.after_events(id),
    {
        if self.mouse_pressed() && holds(self.hovered, id) && !self.disabled {
            self.active = Some(id);
        } else if self.mouse_released() && holds(self.active, id) {
            self.active = None;
            if holds(self.hovered, id) {
                self.clicked = Some(id);
            }
        }
    }

    /// What the state knows of the widget `id`.
    pub fn record(&self, id: WidgetId) -> (record: InteractionRecord)
        ensures
            record == self@.record_of(id),
    {
        InteractionRecord {
            is_hovered: holds(self.hovered, id),
            is_focused: holds(self.focused, id),
            is_active: holds(self.active, id),
            scroll_offset: self.scroll(id),
        }
    }

    /// Whether the pointer is on `id`.
    pub fn is_hovered(&self, id: WidgetId) -> (hovered: bool)
        ensures
            hovered == (self@.hovered == Some(id)),
    {
        holds(self.hovered, id)
    }

    /// Whether `id` has the keyboard focus.
    pub fn is_focused(&self, id: WidgetId) -> (focused: bool)
        ensures
            focused == (self@.focused == Some(id)),
    {
        holds(self.focused, id)
    }

    /// Whether `id` is the widget on which the primary button is held.
    pub fn is_active(&self, id: WidgetId) -> (active: bool)
        ensures
            active == (self@.active == Some(id)),
    {
        holds(self.active, id)
    }

    /// The widget on which the primary button is held, if any.
    pub fn active_id(&self) -> (id: Option<WidgetId>)
        ensures
            id == self@.active,
    {
        self.active
    }

    /// Whether `id` was clicked at this frame: the primary button went up on it
    /// after it had gone down on it.
    pub fn was_clicked(&self, id: WidgetId) -> (clicked: bool)
        ensures
            clicked == self@.was_clicked(id),
    {
        !self.disabled && holds(self.clicked, id)
    }

    /// How far the region `id` is scrolled.
    pub fn scroll(&self, id: WidgetId) -> (offset: Pos)
        ensures
            offset == self@.scroll_of(id),
    {
        match self.scroll.get(&id.0) {
            Some(offset) => *offset,
            None => Pos { x: 0, y: 0 },
        }
    }

    /// Records how far the region `id` is scrolled.
    pub fn set_scroll(&mut self, id: WidgetId, offset: Pos)
        ensures
            final(self)@ == (UiView { scroll: old(self)@.scroll.insert(id.0, offset), ..old(self)@ }),
            final(self)@.scroll_of(id) == offset,
    {
        self.scroll.insert(id.0, offset);
    }

    /// The layout cursor and what it remembers.
    pub fn layout(&self) -> (layout: Layout)
        ensures
            layout == self@.layout,
    {
        self.layout
    }

    /// Top-left corner of the next widget.
    pub fn cursor_pos(&self) -> (p: Pos)
        ensures
            p == self@.layout.cursor,
    {
        self.layout.cursor
    }

    /// Puts the next widget at `p`.
    pub fn set_cursor_pos(&mut self, p: Pos)
        ensures
            final(self)@ == (UiView {
                layout: Layout { cursor: p, ..old(self)@.layout },
                ..old(self)@
            }),
    {
        self.layout.cursor = p;
    }

    /// Replaces the whole layout.
    pub fn set_layout(&mut self, layout: Layout)
        ensures
            final(self)@ == (UiView { layout, ..old(self)@ }),
    {
        self.layout = layout;
    }

    /// Puts the current layout aside.
    pub fn push_cursor(&mut self)
        ensures
            final(self)@ == (UiView {
                saved: old(self)@.saved.push(old(self)@.layout),
                ..old(self)@
            }),
    {
        self.saved.push(self.layout);
    }

    /// Takes back the layout that was put aside last. Without one, nothing
    /// changes.
    pub fn pop_cursor(&mut self)
        ensures
            final(self)@ == if old(self)@.saved.len() > 0 {
                UiView {
                    layout: old(self)@.saved.last(),
                    saved: old(self)@.saved.drop_last(),
                    ..old(self)@
                }
            } else {
                old(self)@
            },
    {
        match self.saved.pop() {
            Some(layout) => {
                self.layout = layout;
            },
            None => {},
        }
    }

    /// Moves the cursor below a widget that has taken `rect`, leaving `gap`
    /// under it.
    pub fn advance_cursor(&mut self, rect: Rect, gap: i32)
        ensures
            final(self)@ == old(self)@.placed(rect, gap as int),
    {
        self.next_width = None;
        let line = if self.layout.line_height > rect.h {
            self.layout.line_height
        } else {
            rect.h
        };
        let y = saturate(self.layout.cursor.y as i64 + line as i64 + gap as i64);
        self.layout = Layout {
            cursor: Pos { x: self.layout.line_start, y },
            pcursor: Pos { x: rect.right(), y: self.layout.cursor.y },
            line_start: self.layout.line_start,
            line_height: 0,
            pline_height: line,
            last_width: rect.w,
            last_height: rect.h,
        };
    }

    /// Puts the next widget on the line of the last one, `gap` to the right of
    /// it.
    pub fn same_line(&mut self, gap: i32)
        ensures
            final(self)@ == (UiView {
                layout: old(self)@.layout.continued(gap as int),
                ..old(self)@
            }),
    {
        self.layout.cursor = Pos {
            x: saturate(self.layout.pcursor.x as i64 + gap as i64),
            y: self.layout.pcursor.y,
        };
        self.layout.line_height = self.layout.pline_height;
    }

    /// The width that the next widget is to have in place of its own, if one
    /// was asked for.
    pub fn next_width(&self) -> (width: Option<i32>)
        ensures
            width == self@.next_width,
    {
        self.next_width
    }

    /// Asks for the next widget to be `width` pixels wide, whatever it holds.
    /// Widgets without a width of their own to give up ignore this.
    pub fn set_next_width(&mut self, width: u32)
        ensures
            final(self)@ == (UiView {
                next_width: Some(
                    if width > i32::MAX {
                        i32::MAX
                    } else {
                        width as i32
                    },
                ),
                ..old(self)@
            }),
    {
        self.next_width = Some(
            if width > i32::MAX as u32 {
                i32::MAX
            } else {
                width as i32
            },
        );
    }

    /// What is taken off the pointer position for the widgets that follow.
    pub fn mouse_offset(&self) -> (offset: Pos)
        ensures
            offset == self@.mouse_offset,
    {
        self.mouse_offset
    }

    /// Takes `offset` off the pointer position for the widgets that follow.
    pub fn set_mouse_offset(&mut self, offset: Pos)
        ensures
            final(self)@ == (UiView { mouse_offset: offset, ..old(self)@ }),
    {
        self.mouse_offset = offset;
    }
}

} // verus!
