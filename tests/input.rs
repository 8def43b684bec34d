use fltk_egui::{
    input_to_egui, modifiers_from_state, translate_virtual_key_code, Clipboard, EguiState,
    InputEvent, Key, MouseButton, MouseWheel, PointerButton, Pos, Rect, ToolkitEvent, KEY_DELETE,
    KEY_ENTER, KEY_LEFT, SCALE_ONE, STATE_ALT, STATE_CTRL, STATE_SHIFT,
};

fn state(width: u32, height: u32, scale: u32) -> EguiState {
    let mut s = EguiState::new(width, height, scale, STATE_CTRL);
    s.clipboard = Clipboard::in_memory();
    s
}

#[test]
fn named_and_character_keys_translate() {
    assert_eq!(translate_virtual_key_code(KEY_LEFT), Some(Key::ArrowLeft));
    assert_eq!(translate_virtual_key_code(KEY_ENTER), Some(Key::Enter));
    assert_eq!(translate_virtual_key_code(KEY_DELETE), Some(Key::Delete));
    assert_eq!(translate_virtual_key_code('a' as i32), Some(Key::A));
    assert_eq!(translate_virtual_key_code('z' as i32), Some(Key::Z));
    assert_eq!(translate_virtual_key_code('0' as i32), Some(Key::Num0));
    assert_eq!(translate_virtual_key_code('9' as i32), Some(Key::Num9));
    assert_eq!(translate_virtual_key_code(' ' as i32), Some(Key::Space));
}

#[test]
fn unsupported_keys_translate_to_none() {
    assert_eq!(translate_virtual_key_code('A' as i32), None);
    assert_eq!(translate_virtual_key_code('#' as i32), None);
    assert_eq!(translate_virtual_key_code(0xD800), None);
    assert_eq!(translate_virtual_key_code(0xDFFF), None);
}

#[test]
fn key_translation_is_stable_across_calls() {
    for code in [KEY_LEFT, KEY_ENTER, 'q' as i32, '5' as i32, 0xD900, 0x7e] {
        assert_eq!(translate_virtual_key_code(code), translate_virtual_key_code(code));
    }
}

#[test]
fn modifier_bits_are_read() {
    let m = modifiers_from_state(STATE_CTRL | STATE_SHIFT, STATE_CTRL);
    assert!(m.ctrl && m.shift && m.command && !m.alt && !m.mac_cmd);
    let m = modifiers_from_state(STATE_ALT, STATE_CTRL);
    assert!(m.alt && !m.ctrl && !m.command);
}

#[test]
fn resize_at_scale_one_sets_screen_rect_and_flag_once() {
    let mut s = state(100, 100, SCALE_ONE);
    input_to_egui(ToolkitEvent::Resize { width: 800, height: 600 }, &mut s);
    assert_eq!(s.input.screen_rect, Some(Rect { width: 800, height: 600, pixels_per_point: SCALE_ONE }));
    assert_eq!((s.physical_width(), s.physical_height()), (800, 600));
    assert!(s.window_resized());
    assert!(!s.window_resized());
}

#[test]
fn resize_divides_by_scale() {
    let mut s = state(10, 10, 2000);
    s.fuse_input(ToolkitEvent::Resize { width: 801, height: 600 });
    assert_eq!(s.input.screen_rect, Some(Rect { width: 801, height: 600, pixels_per_point: 2000 }));
    s.set_visual_scale(1500);
    assert_eq!(s.input.screen_rect, Some(Rect { width: 801, height: 600, pixels_per_point: 1500 }));
    assert_eq!(s.pixels_per_point(), 1500);
    assert_eq!(s.input.pixels_per_point, Some(1500));
}

#[test]
fn press_then_release_toggles_button_flag() {
    let mut s = state(640, 480, SCALE_ONE);
    s.fuse_input(ToolkitEvent::Move { x: 10, y: 20 });
    assert!(!s.mouse_btn_pressed());
    s.fuse_input(ToolkitEvent::Push { button: MouseButton::Left });
    assert!(s.mouse_btn_pressed());
    s.fuse_input(ToolkitEvent::Released { button: MouseButton::Left });
    assert!(!s.mouse_btn_pressed());
    assert!(!s.window_resized());
    let input = s.take_input();
    assert_eq!(input.events.len(), 3);
    assert!(matches!(input.events[0], InputEvent::PointerMoved(Pos { x: 10, y: 20, pixels_per_point: SCALE_ONE })));
    assert!(matches!(
        input.events[1],
        InputEvent::PointerButton { pos: Pos { x: 10, y: 20, pixels_per_point: SCALE_ONE }, button: PointerButton::Primary, pressed: true, .. }
    ));
    assert!(matches!(
        input.events[2],
        InputEvent::PointerButton { button: PointerButton::Primary, pressed: false, .. }
    ));
}

#[test]
fn unmapped_mouse_buttons_are_dropped() {
    let mut s = state(640, 480, SCALE_ONE);
    s.fuse_input(ToolkitEvent::Push { button: MouseButton::Back });
    assert!(!s.mouse_btn_pressed());
    s.fuse_input(ToolkitEvent::Push { button: MouseButton::Right });
    assert!(s.mouse_btn_pressed());
    let input = s.take_input();
    assert_eq!(input.events.len(), 1);
    assert!(matches!(input.events[0], InputEvent::PointerButton { button: PointerButton::Secondary, .. }));
}

#[test]
fn key_press_queues_text_and_key() {
    let mut s = state(640, 480, SCALE_ONE);
    let reset = s.fuse_input(ToolkitEvent::KeyDown {
        key: 'x' as i32,
        state: 0,
        text: Some('x'),
        compose: Some(0),
    });
    assert!(!reset);
    let reset = s.fuse_input(ToolkitEvent::KeyDown {
        key: 0xffbe,
        state: 0,
        text: Some('y'),
        compose: Some(1),
    });
    assert!(reset);
    let input = s.take_input();
    assert_eq!(input.events.len(), 3);
    assert!(matches!(&input.events[0], InputEvent::Text(t) if t == "x"));
    assert!(matches!(input.events[1], InputEvent::Key { key: Key::X, pressed: true, .. }));
    assert!(matches!(&input.events[2], InputEvent::Text(t) if t == "y"));
}

#[test]
fn key_release_updates_modifiers() {
    let mut s = state(640, 480, SCALE_ONE);
    s.fuse_input(ToolkitEvent::KeyUp { key: 'a' as i32, state: STATE_SHIFT });
    assert!(s.input.modifiers.shift);
    let input = s.take_input();
    assert!(matches!(input.events[0], InputEvent::Key { key: Key::A, pressed: false, .. }));
    assert!(s.input.modifiers.shift);
}

#[test]
fn command_c_and_x_queue_copy_and_cut() {
    let mut s = state(640, 480, SCALE_ONE);
    s.fuse_input(ToolkitEvent::KeyDown { key: 'c' as i32, state: STATE_CTRL, text: None, compose: None });
    s.fuse_input(ToolkitEvent::KeyDown { key: 'x' as i32, state: STATE_CTRL, text: None, compose: None });
    let input = s.take_input();
    assert_eq!(input.events.len(), 4);
    assert!(matches!(input.events[0], InputEvent::Key { key: Key::C, pressed: true, .. }));
    assert!(matches!(input.events[1], InputEvent::Copy));
    assert!(matches!(input.events[2], InputEvent::Key { key: Key::X, pressed: true, .. }));
    assert!(matches!(input.events[3], InputEvent::Cut));
}

#[test]
fn command_v_pastes_clipboard_text() {
    let mut s = state(640, 480, SCALE_ONE);
    s.clipboard.set("pasted".to_string());
    s.fuse_input(ToolkitEvent::KeyDown { key: 'v' as i32, state: STATE_CTRL, text: None, compose: None });
    let input = s.take_input();
    assert_eq!(input.events.len(), 2);
    assert!(matches!(input.events[0], InputEvent::Key { key: Key::V, pressed: true, .. }));
    assert!(matches!(&input.events[1], InputEvent::Text(t) if t == "pasted"));
}

#[test]
fn apply_input_uses_given_paste() {
    let mut s = state(640, 480, SCALE_ONE);
    s.apply_input(
        ToolkitEvent::KeyDown { key: 'v' as i32, state: STATE_CTRL, text: None, compose: None },
        Some("given".to_string()),
    );
    s.apply_input(
        ToolkitEvent::KeyDown { key: 'v' as i32, state: STATE_CTRL, text: None, compose: None },
        None,
    );
    let input = s.take_input();
    assert_eq!(input.events.len(), 3);
    assert!(matches!(&input.events[1], InputEvent::Text(t) if t == "given"));
    assert!(matches!(input.events[2], InputEvent::Key { key: Key::V, .. }));
}

#[test]
fn wheel_scrolls_or_zooms() {
    let mut s = state(640, 480, SCALE_ONE);
    s.fuse_input(ToolkitEvent::MouseWheel { ctrl: false, dy: MouseWheel::Up });
    s.fuse_input(ToolkitEvent::MouseWheel { ctrl: false, dy: MouseWheel::Down });
    s.fuse_input(ToolkitEvent::MouseWheel { ctrl: true, dy: MouseWheel::Up });
    s.fuse_input(ToolkitEvent::MouseWheel { ctrl: true, dy: MouseWheel::Down });
    s.fuse_input(ToolkitEvent::MouseWheel { ctrl: true, dy: MouseWheel::Still });
    s.scroll_factor = 20;
    s.fuse_input(ToolkitEvent::MouseWheel { ctrl: false, dy: MouseWheel::Down });
    let input = s.take_input();
    assert_eq!(input.events.len(), 5);
    assert!(matches!(input.events[0], InputEvent::Scroll { x: 0, y: -12 }));
    assert!(matches!(input.events[1], InputEvent::Scroll { x: 0, y: 12 }));
    assert!(matches!(input.events[2], InputEvent::Zoom { delta: -8 }));
    assert!(matches!(input.events[3], InputEvent::Zoom { delta: 8 }));
    assert!(matches!(input.events[4], InputEvent::Scroll { x: 0, y: 20 }));
}

#[test]
fn take_input_drains_events_and_keeps_scale() {
    let mut s = state(640, 480, 1250);
    s.start_time(1500);
    s.fuse_input(ToolkitEvent::Drag { x: 5, y: 6 });
    s.fuse_input(ToolkitEvent::Other);
    let first = s.take_input();
    assert_eq!(first.events.len(), 1);
    assert_eq!(first.time, Some(1500));
    assert_eq!(first.pixels_per_point, Some(1250));
    assert_eq!(first.screen_rect, Some(Rect { width: 640, height: 480, pixels_per_point: 1250 }));
    let second = s.take_input();
    assert!(second.events.is_empty());
    assert_eq!(second.time, None);
    assert_eq!(second.screen_rect, None);
    assert_eq!(second.pixels_per_point, Some(1250));
    assert_eq!(s.pointer_pos(), Pos { x: 5, y: 6, pixels_per_point: 1250 });
}

#[test]
fn positions_keep_the_scale_they_were_taken_at() {
    let mut s = state(640, 480, 1000);
    s.fuse_input(ToolkitEvent::Move { x: 30, y: 40 });
    s.set_visual_scale(2000);
    s.fuse_input(ToolkitEvent::Push { button: MouseButton::Left });
    s.fuse_input(ToolkitEvent::Move { x: 50, y: 60 });
    let input = s.take_input();
    assert!(matches!(input.events[0], InputEvent::PointerMoved(Pos { x: 30, y: 40, pixels_per_point: 1000 })));
    assert!(matches!(
        input.events[1],
        InputEvent::PointerButton { pos: Pos { x: 30, y: 40, pixels_per_point: 1000 }, .. }
    ));
    assert!(matches!(input.events[2], InputEvent::PointerMoved(Pos { x: 50, y: 60, pixels_per_point: 2000 })));
}

#[test]
fn well_formedness_is_checked() {
    let mut s = state(640, 480, 1000);
    assert!(s.is_well_formed());
    s.pixels_per_point = 0;
    assert!(!s.is_well_formed());
}
