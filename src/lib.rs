//! Bridge between a native GUI toolkit's window events and an immediate-mode
//! GUI library's input and output model, with the helpers around it: key and
//! cursor mapping, a clipboard with an in-process fallback, an idle-repaint
//! timer, image conversion and the order of a frame's GPU work.
mod clipboard;
mod cursor;
mod image;
mod keys;
mod painter;
mod state;
mod timer;

pub use clipboard::{lemma_set_then_get, spec_after_set, Clipboard, ClipboardView};
pub use cursor::{cursor_for_icon, spec_cursor_for, translate_cursor, Cursor, CursorIcon, FusedCursor};
pub use image::{
    color32_bytes, premultiplied_colors_keep, premultiplied_keeps, premultiplied_rgba, ImageError,
    RgbaImage,
};
pub use keys::{
    spec_translate_key, translate_virtual_key_code, Key, KEY_LEFT, KEY_UP, KEY_RIGHT, KEY_DOWN, KEY_ESCAPE, KEY_TAB, KEY_BACKSPACE, KEY_INSERT, KEY_HOME, KEY_DELETE, KEY_END, KEY_PAGE_DOWN, KEY_PAGE_UP, KEY_ENTER,
};
pub use painter::{
    get_screen_descriptor, paint_jobs, paint_with_rpass, spec_paint_steps, spec_texture_steps,
    FrameStep, ScreenDescriptor, TextureId,
};
pub use state::{
    input_to_egui, lemma_press_release_toggles_button, lemma_resize_sets_rect_and_flag_once,
    modifiers_from_state, pointer_button, screen_rect, spec_input_step, spec_screen_rect,
    BridgeView, EguiState, EventView, InputEvent, Modifiers, MouseButton, MouseWheel,
    PointerButton, Pos, RawInput, RawInputView, Rect, ToolkitEvent, DEFAULT_SCROLL_FACTOR,
    DEFAULT_ZOOM_FACTOR, SCALE_ONE, STATE_ALT, STATE_CTRL, STATE_META, STATE_SHIFT,
};
pub use timer::{lemma_timer_fires_at_threshold, spec_tick, spec_ticks, Compat, Timer};
