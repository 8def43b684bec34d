use crate::clipboard::{spec_after_set, Clipboard};
use crate::cursor::{Cursor, FusedCursor};
use crate::keys::{spec_translate_key, translate_virtual_key_code, Key};
use vstd::prelude::*;

verus! {

/// A pixel scale of one pixel per point; scales are counted in thousandths.
pub const SCALE_ONE: u32 = 1000;

/// Toolkit event-state bit of the shift key.
pub const STATE_SHIFT: u32 = 0x0001_0000;

/// Toolkit event-state bit of the control key.
pub const STATE_CTRL: u32 = 0x0004_0000;

/// Toolkit event-state bit of the alt key.
pub const STATE_ALT: u32 = 0x0008_0000;

/// Toolkit event-state bit of the meta key.
pub const STATE_META: u32 = 0x0040_0000;

/// Points scrolled for one wheel step, unless configured otherwise.
pub const DEFAULT_SCROLL_FACTOR: i32 = 12;

/// Zoom delta for one wheel step with the accelerator held, unless configured otherwise.
pub const DEFAULT_ZOOM_FACTOR: i32 = 8;

/// A mouse button as the toolkit reports it.
#[derive(Clone, Copy, Debug, PartialEq, Eq, Structural)]
pub enum MouseButton {
    Left,
    Middle,
    Right,
    Back,
    Forward,
}

/// A pointer button of the GUI library's input model.
#[derive(Clone, Copy, Debug, PartialEq, Eq, Structural)]
pub enum PointerButton {
    Primary,
    Secondary,
    Middle,
}

/// The direction of a wheel step as the toolkit reports it.
#[derive(Clone, Copy, Debug, PartialEq, Eq, Structural)]
pub enum MouseWheel {
    Still,
    Right,
    Left,
    Up,
    Down,
}

/// Modifier keys held during an event.
#[derive(Clone, Copy, Debug, PartialEq, Eq, Structural)]
pub struct Modifiers {
    pub alt: bool,
    pub ctrl: bool,
    pub shift: bool,
    pub mac_cmd: bool,
    pub command: bool,
}

/// No modifier held.
pub open spec fn spec_no_modifiers() -> Modifiers {
    Modifiers { alt: false, ctrl: false, shift: false, mac_cmd: false, command: false }
}

impl Default for Modifiers {
    fn default() -> (r: Self)
        ensures
            r == spec_no_modifiers(),
    {
        Modifiers { alt: false, ctrl: false, shift: false, mac_cmd: false, command: false }
    }
}

/// The modifiers that a toolkit event-state word holds; `command_mask` is the
/// platform's command bit (control, or meta on macOS).
pub open spec fn spec_modifiers(state: u32, command_mask: u32) -> Modifiers {
    Modifiers {
        alt: state & STATE_ALT == STATE_ALT,
        ctrl: state & STATE_CTRL == STATE_CTRL,
        shift: state & STATE_SHIFT == STATE_SHIFT,
        mac_cmd: state & STATE_META == STATE_META,
        command: state & command_mask == command_mask,
    }
}

/// Reads the modifiers out of a toolkit event-state word.
pub fn modifiers_from_state(state: u32, command_mask: u32) -> (r: Modifiers)
    ensures
        r == spec_modifiers(state, command_mask),
{
    Modifiers {
        alt: (state & STATE_ALT) == STATE_ALT,
        ctrl: (state & STATE_CTRL) == STATE_CTRL,
        shift: (state & STATE_SHIFT) == STATE_SHIFT,
        mac_cmd: (state & STATE_META) == STATE_META,
        command: (state & command_mask) == command_mask,
    }
}

/// A pointer position, held exactly: `x` and `y` window pixels at
/// `pixels_per_point` thousandths of a pixel per point, which is the point
/// (x * 1000 / pixels_per_point, y * 1000 / pixels_per_point) without rounding.
#[derive(Clone, Copy, Debug, PartialEq, Eq, Structural)]
pub struct Pos {
    pub x: i32,
    pub y: i32,
    pub pixels_per_point: u32,
}

/// The rectangle from the origin to `width` by `height` window pixels at
/// `pixels_per_point` thousandths of a pixel per point; in points it spans
/// exactly width * 1000 / pixels_per_point by height * 1000 / pixels_per_point.
#[derive(Clone, Copy, Debug, PartialEq, Eq, Structural)]
pub struct Rect {
    pub width: u32,
    pub height: u32,
    pub pixels_per_point: u32,
}

/// The screen rectangle of a window of `width` by `height` pixels at `scale`
/// thousandths of a pixel per point: from the origin to the size divided by
/// the scale.
pub open spec fn spec_screen_rect(width: u32, height: u32, scale: u32) -> Rect {
    Rect { width, height, pixels_per_point: scale }
}

/// The screen rectangle of a window of `width` by `height` pixels at `scale`.
pub fn screen_rect(width: u32, height: u32, scale: u32) -> (r: Rect)
    ensures
        r == spec_screen_rect(width, height, scale),
{
    Rect { width, height, pixels_per_point: scale }
}

/// An input event of the GUI library's model. Positions carry the pixel
/// scale at which they were taken;
/// a zoom by `delta` scales by e to the power `delta / 200`.
#[derive(Debug)]
pub enum InputEvent {
    Copy,
    Cut,
    Text(String),
    Key { key: Key, pressed: bool, modifiers: Modifiers },
    PointerMoved(Pos),
    PointerButton { pos: Pos, button: PointerButton, pressed: bool, modifiers: Modifiers },
    Scroll { x: i64, y: i64 },
    Zoom { delta: i64 },
}

/// An input event with its text as a sequence of characters.
pub enum EventView {
    Copy,
    Cut,
    Text(Seq<char>),
    Key { key: Key, pressed: bool, modifiers: Modifiers },
    PointerMoved(Pos),
    PointerButton { pos: Pos, button: PointerButton, pressed: bool, modifiers: Modifiers },
    Scroll { x: i64, y: i64 },
    Zoom { delta: i64 },
}

impl View for InputEvent {
    type V = EventView;

    open spec fn view(&self) -> EventView {
        match *self {
            InputEvent::Copy => EventView::Copy,
            InputEvent::Cut => EventView::Cut,
            InputEvent::Text(t) => EventView::Text(t@),
            InputEvent::Key { key, pressed, modifiers } => EventView::Key { key, pressed, modifiers },
            InputEvent::PointerMoved(p) => EventView::PointerMoved(p),
            InputEvent::PointerButton { pos, button, pressed, modifiers } => EventView::PointerButton {
                pos,
                button,
                pressed,
                modifiers,
            },
            InputEvent::Scroll { x, y } => EventView::Scroll { x, y },
            InputEvent::Zoom { delta } => EventView::Zoom { delta },
        }
    }
}

/// The input gathered for one frame of the GUI library.
pub struct RawInput {
    pub screen_rect: Option<Rect>,
    /// Pixel scale in thousandths of a pixel per point.
    pub pixels_per_point: Option<u32>,
    /// Time since start, in milliseconds.
    pub time: Option<u64>,
    pub modifiers: Modifiers,
    pub events: Vec<InputEvent>,
}

/// A frame's input, with its events seen as values.
pub struct RawInputView {
    pub screen_rect: Option<Rect>,
    pub pixels_per_point: Option<u32>,
    pub time: Option<u64>,
    pub modifiers: Modifiers,
    pub events: Seq<EventView>,
}

impl RawInputView {
    /// The same input with one more event at the end.
    pub open spec fn with_event(self, e: EventView) -> RawInputView {
        RawInputView { events: self.events.push(e), ..self }
    }
}

impl View for RawInput {
    type V = RawInputView;

    open spec fn view(&self) -> RawInputView {
        RawInputView {
            screen_rect: self.screen_rect,
            pixels_per_point: self.pixels_per_point,
            time: self.time,
            modifiers: self.modifiers,
            events: self.events@.map_values(|e: InputEvent| e@),
        }
    }
}

impl RawInput {
    /// Appends an event.
    pub fn push_event(&mut self, e: InputEvent)
        ensures
            final(self)@ == old(self)@.with_event(e@),
    {
        self.events.push(e);
        assert(self.events@.map_values(|e: InputEvent| e@) =~= old(self).events@.map_values(
            |e: InputEvent| e@,
        ).push(e@));
    }
}

/// What the toolkit reports for one event, with the values the bridge reads
/// from it.
#[derive(Clone, Copy, Debug, PartialEq, Eq, Structural)]
pub enum ToolkitEvent {
    /// The window now measures `width` by `height` pixels.
    Resize { width: u32, height: u32 },
    Push { button: MouseButton },
    Released { button: MouseButton },
    Move { x: i32, y: i32 },
    Drag { x: i32, y: i32 },
    /// A key went up; `state` is the toolkit's event-state word.
    KeyUp { key: i32, state: u32 },
    /// A key went down; `text` is the first character of the event's text and
    /// `compose` what the toolkit's compose step gave.
    KeyDown { key: i32, state: u32, text: Option<char>, compose: Option<i32> },
    /// A vertical wheel step; `ctrl` tells whether control was held.
    MouseWheel { ctrl: bool, dy: MouseWheel },
    Other,
}

/// The bridge state, seen from outside.
pub struct BridgeView {
    pub window_resized: bool,
    pub pointer_pos: Pos,
    pub input: RawInputView,
    pub physical_width: u32,
    pub physical_height: u32,
    pub pixels_per_point: u32,
    pub command_mask: u32,
    pub mouse_btn_pressed: bool,
}

impl BridgeView {
    /// The pixel scale is positive and the pending input carries it.
    pub open spec fn wf(self) -> bool {
        &&& self.pixels_per_point > 0
        &&& self.input.pixels_per_point == Some(self.pixels_per_point)
    }
}

/// Carries the toolkit's events over to the GUI library and tracks the
/// per-frame flags.
pub struct EguiState {
    pub window_resized: bool,
    pub fuse_cursor: FusedCursor,
    pub pointer_pos: Pos,
    pub input: RawInput,
    pub physical_width: u32,
    pub physical_height: u32,
    pub pixels_per_point: u32,
    pub clipboard: Clipboard,
    /// Points scrolled per wheel step.
    pub scroll_factor: i32,
    /// Zoom delta per wheel step with control held.
    pub zoom_factor: i32,
    pub command_mask: u32,
    pub mouse_btn_pressed: bool,
}

impl View for EguiState {
    type V = BridgeView;

    open spec fn view(&self) -> BridgeView {
        BridgeView {
            window_resized: self.window_resized,
            pointer_pos: self.pointer_pos,
            input: self.input@,
            physical_width: self.physical_width,
            physical_height: self.physical_height,
            pixels_per_point: self.pixels_per_point,
            command_mask: self.command_mask,
            mouse_btn_pressed: self.mouse_btn_pressed,
        }
    }
}

/// The pointer button of the input model for a toolkit mouse button.
pub open spec fn spec_pointer_button(b: MouseButton) -> Option<PointerButton> {
    match b {
        MouseButton::Left => Some(PointerButton::Primary),
        MouseButton::Middle => Some(PointerButton::Middle),
        MouseButton::Right => Some(PointerButton::Secondary),
        _ => None,
    }
}

/// The pointer button of the input model for a toolkit mouse button.
pub fn pointer_button(b: MouseButton) -> (r: Option<PointerButton>)
    ensures
        r == spec_pointer_button(b),
{
    match b {
        MouseButton::Left => Some(PointerButton::Primary),
        MouseButton::Middle => Some(PointerButton::Middle),
        MouseButton::Right => Some(PointerButton::Secondary),
        _ => None,
    }
}

/// Whether the event is a command+V key press, for which the clipboard is read.
pub open spec fn spec_wants_paste(s: BridgeView, event: ToolkitEvent) -> bool {
    match event {
        ToolkitEvent::KeyDown { key, state, .. } => spec_translate_key(key) == Some(Key::V)
            && spec_modifiers(state, s.command_mask).command,
        _ => false,
    }
}

/// Whether the toolkit's compose state must be reset after the event.
pub open spec fn spec_reset_compose(event: ToolkitEvent) -> bool {
    match event {
        ToolkitEvent::KeyDown { text, compose, .. } => text is Some && compose is Some
            && compose->Some_0 != 0,
        _ => false,
    }
}

/// The events queued for a key press: the key itself, then copy, cut or the
/// pasted text where command is held with C, X or V. The key event stays
/// queued beside the clipboard event.
pub open spec fn spec_key_press_events(
    events: Seq<EventView>,
    key: Key,
    m: Modifiers,
    pasted: Option<Seq<char>>,
) -> Seq<EventView> {
    let evs = events.push(EventView::Key { key, pressed: true, modifiers: m });
    if m.command && key == Key::C {
        evs.push(EventView::Copy)
    } else if m.command && key == Key::X {
        evs.push(EventView::Cut)
    } else if m.command && key == Key::V {
        match pasted {
            Some(t) => evs.push(EventView::Text(t)),
            None => evs,
        }
    } else {
        evs
    }
}

/// The events queued before the key of a key press: the typed character,
/// where the toolkit's compose step accepted it.
pub open spec fn spec_typed_events(
    events: Seq<EventView>,
    text: Option<char>,
    compose: Option<i32>,
) -> Seq<EventView> {
    if text is Some && compose is Some {
        events.push(EventView::Text(seq![text->Some_0]))
    } else {
        events
    }
}

/// The state after one toolkit event; `pasted` is what the clipboard gave,
/// used only for command+V.
pub open spec fn spec_input_step(
    s: BridgeView,
    scroll_factor: i32,
    zoom_factor: i32,
    event: ToolkitEvent,
    pasted: Option<Seq<char>>,
) -> BridgeView {
    match event {
        ToolkitEvent::Resize { width, height } => BridgeView {
            window_resized: true,
            physical_width: width,
            physical_height: height,
            input: RawInputView {
                screen_rect: Some(spec_screen_rect(width, height, s.pixels_per_point)),
                pixels_per_point: Some(s.pixels_per_point),
                ..s.input
            },
            ..s
        },
        ToolkitEvent::Push { button } => match spec_pointer_button(button) {
            Some(b) => BridgeView {
                mouse_btn_pressed: true,
                input: s.input.with_event(
                    EventView::PointerButton {
                        pos: s.pointer_pos,
                        button: b,
                        pressed: true,
                        modifiers: s.input.modifiers,
                    },
                ),
                ..s
            },
            None => s,
        },
        ToolkitEvent::Released { button } => match spec_pointer_button(button) {
            Some(b) => BridgeView {
                mouse_btn_pressed: false,
                input: s.input.with_event(
                    EventView::PointerButton {
                        pos: s.pointer_pos,
                        button: b,
                        pressed: false,
                        modifiers: s.input.modifiers,
                    },
                ),
                ..s
            },
            None => s,
        },
        ToolkitEvent::Move { x, y } => BridgeView {
            pointer_pos: Pos { x, y, pixels_per_point: s.pixels_per_point },
            input: s.input.with_event(
                EventView::PointerMoved(Pos { x, y, pixels_per_point: s.pixels_per_point }),
            ),
            ..s
        },
        ToolkitEvent::Drag { x, y } => BridgeView {
            pointer_pos: Pos { x, y, pixels_per_point: s.pixels_per_point },
            input: s.input.with_event(
                EventView::PointerMoved(Pos { x, y, pixels_per_point: s.pixels_per_point }),
            ),
            ..s
        },
        ToolkitEvent::KeyUp { key, state } => match spec_translate_key(key) {
            Some(k) => {
                let m = spec_modifiers(state, s.command_mask);
                BridgeView {
                    input: RawInputView {
                        modifiers: m,
                        events: s.input.events.push(
                            EventView::Key { key: k, pressed: false, modifiers: m },
                        ),
                        ..s.input
                    },
                    ..s
                }
            },
            None => s,
        },
        ToolkitEvent::KeyDown { key, state, text, compose } => {
            let typed = spec_typed_events(s.input.events, text, compose);
            match spec_translate_key(key) {
                Some(k) => {
                    let m = spec_modifiers(state, s.command_mask);
                    BridgeView {
                        input: RawInputView {
                            modifiers: m,
                            events: spec_key_press_events(typed, k, m, pasted),
                            ..s.input
                        },
                        ..s
                    }
                },
                None => BridgeView { input: RawInputView { events: typed, ..s.input }, ..s },
            }
        },
        ToolkitEvent::MouseWheel { ctrl, dy } => match dy {
            MouseWheel::Up => BridgeView {
                input: s.input.with_event(
                    if ctrl {
                        EventView::Zoom { delta: (-(zoom_factor as int)) as i64 }
                    } else {
                        EventView::Scroll { x: 0, y: (-(scroll_factor as int)) as i64 }
                    },
                ),
                ..s
            },
            MouseWheel::Down => BridgeView {
                input: s.input.with_event(
                    if ctrl {
                        EventView::Zoom { delta: zoom_factor as i64 }
                    } else {
                        EventView::Scroll { x: 0, y: scroll_factor as i64 }
                    },
                ),
                ..s
            },
            _ => s,
        },
        ToolkitEvent::Other => s,
    }
}

/// The text of an optional string, as characters.
pub open spec fn spec_text_of(t: Option<String>) -> Option<Seq<char>> {
    match t {
        Some(s) => Some(s@),
        None => None,
    }
}

/// Relies on std's `ToString` for `char`: a string of that one character.
#[verifier::external_body]
fn char_text(c: char) -> (r: String)
    ensures
        r@ == seq![c],
{
    c.to_string()
}

/// The parts of the state that events leave alone: the cursor, the
/// clipboard and the two wheel factors.
pub open spec fn spec_same_settings(a: EguiState, b: EguiState) -> bool {
    &&& a.fuse_cursor == b.fuse_cursor
    &&& a.clipboard == b.clipboard
    &&& a.scroll_factor == b.scroll_factor
    &&& a.zoom_factor == b.zoom_factor
}

impl EguiState {
    /// The state of a window of `width` by `height` pixels at `pixels_per_point`
    /// thousandths of a pixel per point; `command_mask` is the platform's
    /// command bit in the toolkit's event-state word.
    pub fn new(width: u32, height: u32, pixels_per_point: u32, command_mask: u32) -> (r: Self)
        requires
            pixels_per_point > 0,
        ensures
            r@ == (BridgeView {
                window_resized: false,
                pointer_pos: Pos { x: 0, y: 0, pixels_per_point },
                input: RawInputView {
                    screen_rect: Some(spec_screen_rect(width, height, pixels_per_point)),
                    pixels_per_point: Some(pixels_per_point),
                    time: None,
                    modifiers: spec_no_modifiers(),
                    events: Seq::empty(),
                },
                physical_width: width,
                physical_height: height,
                pixels_per_point,
                command_mask,
                mouse_btn_pressed: false,
            }),
            r@.wf(),
            r.fuse_cursor.cursor_icon == Cursor::Arrow,
            r.clipboard@.fallback == Seq::<char>::empty(),
            r.scroll_factor == DEFAULT_SCROLL_FACTOR,
            r.zoom_factor == DEFAULT_ZOOM_FACTOR,
    {
        let input = RawInput {
            screen_rect: Some(screen_rect(width, height, pixels_per_point)),
            pixels_per_point: Some(pixels_per_point),
            time: None,
            modifiers: Modifiers::default(),
            events: Vec::new(),
        };
        let r = EguiState {
            window_resized: false,
            fuse_cursor: FusedCursor::new(),
            pointer_pos: Pos { x: 0, y: 0, pixels_per_point },
            input,
            physical_width: width,
            physical_height: height,
            pixels_per_point,
            clipboard: Clipboard::default(),
            scroll_factor: DEFAULT_SCROLL_FACTOR,
            zoom_factor: DEFAULT_ZOOM_FACTOR,
            command_mask,
            mouse_btn_pressed: false,
        };
        assert(r.input@.events =~= Seq::<EventView>::empty());
        r
    }

    /// Carries one toolkit event over; returns whether the toolkit's compose
    /// state must be reset.
    pub fn fuse_input(&mut self, event: ToolkitEvent) -> (reset_compose: bool)
        requires
            old(self)@.wf(),
        ensures
            final(self)@.wf(),
            reset_compose == spec_reset_compose(event),
            final(self).fuse_cursor == old(self).fuse_cursor,
            final(self).scroll_factor == old(self).scroll_factor,
            final(self).zoom_factor == old(self).zoom_factor,
            final(self).clipboard@ == old(self).clipboard@,
            !spec_wants_paste(old(self)@, event) ==> final(self)@ == spec_input_step(
                old(self)@,
                old(self).scroll_factor,
                old(self).zoom_factor,
                event,
                None,
            ),
            spec_wants_paste(old(self)@, event) && !old(self).clipboard@.has_system
                ==> final(self)@ == spec_input_step(
                old(self)@,
                old(self).scroll_factor,
                old(self).zoom_factor,
                event,
                Some(old(self).clipboard@.fallback),
            ),
            spec_wants_paste(old(self)@, event) ==> exists|p: Option<Seq<char>>|
                final(self)@ == #[trigger] spec_input_step(
                    old(self)@,
                    old(self).scroll_factor,
                    old(self).zoom_factor,
                    event,
                    p,
                ),
    {
        input_to_egui(event, self)
    }

    /// Whether the pixel scale is positive and the pending input carries it,
    /// as the event and input methods require.
    pub fn is_well_formed(&self) -> (r: bool)
        ensures
            r == self@.wf(),
    {
        self.pixels_per_point > 0 && match self.input.pixels_per_point {
            Some(p) => p == self.pixels_per_point,
            None => false,
        }
    }

    /// Whether a resize came since the last call; reading clears it.
    pub fn window_resized(&mut self) -> (r: bool)
        ensures
            r == old(self)@.window_resized,
            final(self)@ == (BridgeView { window_resized: false, ..old(self)@ }),
            spec_same_settings(*old(self), *final(self)),
    {
        let tmp = self.window_resized;
        self.window_resized = false;
        tmp
    }

    /// Whether a pointer button is held.
    pub fn mouse_btn_pressed(&self) -> (r: bool)
        ensures
            r == self@.mouse_btn_pressed,
    {
        self.mouse_btn_pressed
    }

    /// Where the pointer was last seen, in window pixels.
    pub fn pointer_pos(&self) -> (r: Pos)
        ensures
            r == self@.pointer_pos,
    {
        self.pointer_pos
    }

    /// The window's width in pixels.
    pub fn physical_width(&self) -> (r: u32)
        ensures
            r == self@.physical_width,
    {
        self.physical_width
    }

    /// The window's height in pixels.
    pub fn physical_height(&self) -> (r: u32)
        ensures
            r == self@.physical_height,
    {
        self.physical_height
    }

    /// Applies what the GUI library put out for a frame: copied text goes to
    /// the clipboard, and the requested cursor is mapped. Returns the cursor
    /// to set on the window, where it changed.
    pub fn fuse_output(
        &mut self,
        copied_text: String,
        cursor_icon: crate::cursor::CursorIcon,
    ) -> (r: Option<Cursor>)
        ensures
            final(self)@ == old(self)@,
            final(self).scroll_factor == old(self).scroll_factor,
            final(self).zoom_factor == old(self).zoom_factor,
            copied_text@.len() > 0 ==> final(self).clipboard@ == spec_after_set(
                old(self).clipboard@,
                copied_text@,
            ),
            copied_text@.len() == 0 ==> final(self).clipboard == old(self).clipboard,
            final(self).fuse_cursor.cursor_icon == crate::cursor::spec_cursor_for(cursor_icon),
            r == (if crate::cursor::spec_cursor_for(cursor_icon) != old(self).fuse_cursor.cursor_icon {
                Some(crate::cursor::spec_cursor_for(cursor_icon))
            } else {
                None
            }),
    {
        if !copied_text.as_str().is_empty() {
            self.clipboard.set(copied_text);
        }
        crate::cursor::translate_cursor(&mut self.fuse_cursor, cursor_icon)
    }

    /// Sets the pixel scale, in thousandths of a pixel per point, and derives
    /// the screen rectangle from it and the window's size.
    pub fn set_visual_scale(&mut self, size: u32)
        requires
            size > 0,
        ensures
            final(self)@ == (BridgeView {
                pixels_per_point: size,
                input: RawInputView {
                    pixels_per_point: Some(size),
                    screen_rect: Some(
                        spec_screen_rect(old(self)@.physical_width, old(self)@.physical_height, size),
                    ),
                    ..old(self)@.input
                },
                ..old(self)@
            }),
            spec_same_settings(*old(self), *final(self)),
    {
        self.input.pixels_per_point = Some(size);
        self.pixels_per_point = size;
        self.input.screen_rect = Some(screen_rect(self.physical_width, self.physical_height, size));
    }

    /// The pixel scale, in thousandths of a pixel per point.
    pub fn pixels_per_point(&self) -> (r: u32)
        ensures
            r == self@.pixels_per_point,
    {
        self.pixels_per_point
    }

    /// Hands over the input gathered since the last call. The pending input
    /// keeps its pixel scale and modifiers; its events, screen rectangle and
    /// time are cleared.
    pub fn take_input(&mut self) -> (r: RawInput)
        requires
            old(self)@.wf(),
        ensures
            r@ == old(self)@.input,
            final(self)@ == (BridgeView {
                input: RawInputView {
                    screen_rect: None,
                    pixels_per_point: old(self)@.input.pixels_per_point,
                    time: None,
                    modifiers: old(self)@.input.modifiers,
                    events: Seq::empty(),
                },
                ..old(self)@
            }),
            final(self)@.wf(),
            spec_same_settings(*old(self), *final(self)),
    {
        let mut taken = RawInput {
            screen_rect: None,
            pixels_per_point: self.input.pixels_per_point,
            time: None,
            modifiers: self.input.modifiers,
            events: Vec::new(),
        };
        std::mem::swap(&mut taken, &mut self.input);
        assert(self.input@.events =~= Seq::<EventView>::empty());
        taken
    }

    /// Sets the time of the pending input, in milliseconds since start.
    pub fn start_time(&mut self, elapsed: u64)
        ensures
            final(self)@ == (BridgeView {
                input: RawInputView { time: Some(elapsed), ..old(self)@.input },
                ..old(self)@
            }),
            spec_same_settings(*old(self), *final(self)),
    {
        self.input.time = Some(elapsed);
    }

    /// Whether `event` is a command+V key press, for which the clipboard is read.
    pub fn wants_paste(&self, event: ToolkitEvent) -> (r: bool)
        ensures
            r == spec_wants_paste(self@, event),
    {
        match event {
            ToolkitEvent::KeyDown { key, state, .. } => {
                let m = modifiers_from_state(state, self.command_mask);
                match translate_virtual_key_code(key) {
                    Some(Key::V) => m.command,
                    _ => false,
                }
            },
            _ => false,
        }
    }

    /// Carries one toolkit event over, with `pasted` as what the clipboard
    /// gave for a command+V press. Returns whether the toolkit's compose state
    /// must be reset.
    #[verifier::rlimit(60)]
    pub fn apply_input(
        &mut self,
        event: ToolkitEvent,
        pasted: Option<String>,
    ) -> (reset_compose: bool)
        requires
            old(self)@.wf(),
        ensures
            final(self)@ == spec_input_step(
                old(self)@,
                old(self).scroll_factor,
                old(self).zoom_factor,
                event,
                spec_text_of(pasted),
            ),
            final(self)@.wf(),
            spec_same_settings(*old(self), *final(self)),
            reset_compose == spec_reset_compose(event),
    {
        match event {
            ToolkitEvent::Resize { width, height } => {
                self.physical_width = width;
                self.physical_height = height;
                let ppp = self.pixels_per_point;
                self.set_visual_scale(ppp);
                self.window_resized = true;
                false
            },
            ToolkitEvent::Push { button } => {
                if let Some(b) = pointer_button(button) {
                    self.mouse_btn_pressed = true;
                    let e = InputEvent::PointerButton {
                        pos: self.pointer_pos,
                        button: b,
                        pressed: true,
                        modifiers: self.input.modifiers,
                    };
                    self.input.push_event(e);
                }
                false
            },
            ToolkitEvent::Released { button } => {
                if let Some(b) = pointer_button(button) {
                    self.mouse_btn_pressed = false;
                    let e = InputEvent::PointerButton {
                        pos: self.pointer_pos,
                        button: b,
                        pressed: false,
                        modifiers: self.input.modifiers,
                    };
                    self.input.push_event(e);
                }
                false
            },
            ToolkitEvent::Move { x, y } | ToolkitEvent::Drag { x, y } => {
                let p = Pos { x, y, pixels_per_point: self.pixels_per_point };
                self.pointer_pos = p;
                self.input.push_event(InputEvent::PointerMoved(p));
                false
            },
            ToolkitEvent::KeyUp { key, state } => {
                if let Some(k) = translate_virtual_key_code(key) {
                    let m = modifiers_from_state(state, self.command_mask);
                    self.input.modifiers = m;
                    self.input.push_event(InputEvent::Key { key: k, pressed: false, modifiers: m });
                }
                false
            },
            ToolkitEvent::KeyDown { key, state, text, compose } => {
                let mut reset = false;
                if let Some(c) = text {
                    if let Some(del) = compose {
                        self.input.push_event(InputEvent::Text(char_text(c)));
                        reset = del != 0;
                    }
                }
                if let Some(k) = translate_virtual_key_code(key) {
                    let m = modifiers_from_state(state, self.command_mask);
                    self.input.modifiers = m;
                    self.input.push_event(InputEvent::Key { key: k, pressed: true, modifiers: m });
                    if m.command && k == Key::C {
                        self.input.push_event(InputEvent::Copy);
                    } else if m.command && k == Key::X {
                        self.input.push_event(InputEvent::Cut);
                    } else if m.command && k == Key::V {
                        if let Some(t) = pasted {
                            self.input.push_event(InputEvent::Text(t));
                        }
                    }
                }
                reset
            },
            ToolkitEvent::MouseWheel { ctrl, dy } => {
                match dy {
                    MouseWheel::Up => {
                        let e = if ctrl {
                            InputEvent::Zoom { delta: -(self.zoom_factor as i64) }
                        } else {
                            InputEvent::Scroll { x: 0, y: -(self.scroll_factor as i64) }
                        };
                        self.input.push_event(e);
                    },
                    MouseWheel::Down => {
                        let e = if ctrl {
                            InputEvent::Zoom { delta: self.zoom_factor as i64 }
                        } else {
                            InputEvent::Scroll { x: 0, y: self.scroll_factor as i64 }
                        };
                        self.input.push_event(e);
                    },
                    _ => {},
                }
                false
            },
            ToolkitEvent::Other => false,
        }
    }
}

/// Carries one toolkit event over to the GUI library's input, reading the
/// clipboard for a command+V press. Returns whether the toolkit's compose
/// state must be reset.
pub fn input_to_egui(event: ToolkitEvent, state: &mut EguiState) -> (reset_compose: bool)
    requires
        old(state)@.wf(),
    ensures
        final(state)@.wf(),
        reset_compose == spec_reset_compose(event),
        final(state).fuse_cursor == old(state).fuse_cursor,
        final(state).scroll_factor == old(state).scroll_factor,
        final(state).zoom_factor == old(state).zoom_factor,
        final(state).clipboard@ == old(state).clipboard@,
        !spec_wants_paste(old(state)@, event) ==> final(state)@ == spec_input_step(
            old(state)@,
            old(state).scroll_factor,
            old(state).zoom_factor,
            event,
            None,
        ),
        spec_wants_paste(old(state)@, event) && !old(state).clipboard@.has_system
            ==> final(state)@ == spec_input_step(
            old(state)@,
            old(state).scroll_factor,
            old(state).zoom_factor,
            event,
            Some(old(state).clipboard@.fallback),
        ),
        spec_wants_paste(old(state)@, event) ==> exists|p: Option<Seq<char>>|
            final(state)@ == #[trigger] spec_input_step(
                old(state)@,
                old(state).scroll_factor,
                old(state).zoom_factor,
                event,
                p,
            ),
{
    let pasted = if state.wants_paste(event) {
        state.clipboard.get()
    } else {
        None
    };
    let ghost mid = *state;
    let reset = state.apply_input(event, pasted);
    assert(final(state)@ == spec_input_step(
        mid@,
        mid.scroll_factor,
        mid.zoom_factor,
        event,
        spec_text_of(pasted),
    ));
    reset
}

/// A resize to `width` by `height` pixels at pixel scale `s.pixels_per_point`
/// makes the screen rectangle span from the origin to the size divided by
/// the scale, and the resize flag reads true on the first read after it and
/// false on the next (`window_resized` returns the flag and clears it).
pub proof fn lemma_resize_sets_rect_and_flag_once(
    s: BridgeView,
    scroll_factor: i32,
    zoom_factor: i32,
    width: u32,
    height: u32,
)
    requires
        s.wf(),
    ensures
        ({
            let t = spec_input_step(
                s,
                scroll_factor,
                zoom_factor,
                ToolkitEvent::Resize { width, height },
                None,
            );
            let after_first_read = BridgeView { window_resized: false, ..t };
            &&& t.wf()
            &&& t.input.screen_rect == Some(
                Rect { width, height, pixels_per_point: s.pixels_per_point },
            )
            &&& t.physical_width == width && t.physical_height == height
            &&& t.window_resized
            &&& !after_first_read.window_resized
        }),
{
}

/// Pressing and then releasing the left mouse button sets the pressed flag
/// and clears it again; apart from the two button events queued, nothing
/// else of the state changes.
pub proof fn lemma_press_release_toggles_button(s: BridgeView, scroll_factor: i32, zoom_factor: i32)
    requires
        !s.mouse_btn_pressed,
    ensures
        ({
            let pressed = spec_input_step(
                s,
                scroll_factor,
                zoom_factor,
                ToolkitEvent::Push { button: MouseButton::Left },
                None,
            );
            let released = spec_input_step(
                pressed,
                scroll_factor,
                zoom_factor,
                ToolkitEvent::Released { button: MouseButton::Left },
                None,
            );
            &&& pressed.mouse_btn_pressed
            &&& !released.mouse_btn_pressed
            &&& released == BridgeView {
                input: RawInputView {
                    events: s.input.events.push(
                        EventView::PointerButton {
                            pos: s.pointer_pos,
                            button: PointerButton::Primary,
                            pressed: true,
                            modifiers: s.input.modifiers,
                        },
                    ).push(
                        EventView::PointerButton {
                            pos: s.pointer_pos,
                            button: PointerButton::Primary,
                            pressed: false,
                            modifiers: s.input.modifiers,
                        },
                    ),
                    ..s.input
                },
                ..s
            }
        }),
{
}

} // verus!
