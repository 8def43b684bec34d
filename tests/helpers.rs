use fltk_egui::{
    color32_bytes, get_screen_descriptor, paint_jobs, paint_with_rpass, translate_cursor,
    Clipboard, Compat, Cursor, CursorIcon, EguiState, FrameStep, FusedCursor, ImageError,
    RgbaImage, TextureId, Timer, STATE_CTRL,
};

#[test]
fn timer_fires_on_reaching_threshold() {
    let mut t = Timer::new(1);
    assert_eq!(t.elapse, 6);
    assert_eq!(t.duration, 180);
    for _ in 0..6 {
        assert!(!t.elapsed());
    }
    assert!(t.elapsed());
    assert_eq!(t.timer, 0);
    assert!(!t.elapsed());
    assert_eq!(t.timer, 1);
}

#[test]
fn timer_with_zero_period_fires_every_call() {
    let mut t = Timer::new(0);
    assert!(t.elapsed());
    assert!(t.elapsed());
}

#[test]
fn in_memory_clipboard_returns_what_was_set() {
    let mut c = Clipboard::in_memory();
    assert_eq!(c.get(), Some(String::new()));
    c.set("hello".to_string());
    assert_eq!(c.get(), Some("hello".to_string()));
    assert_eq!(c.get(), Some("hello".to_string()));
}

#[test]
fn two_by_two_image_has_size_two_by_two() {
    let rgba: Vec<u8> = vec![
        255, 0, 0, 255, 0, 255, 0, 255, 0, 0, 255, 255, 10, 20, 30, 255,
    ];
    let image = RgbaImage::from_rgba_unmultiplied(2, 2, &rgba).unwrap();
    assert_eq!(image.size(), [2, 2]);
    assert_eq!(image.pixels, rgba);
}

#[test]
fn premultiplying_clears_transparent_pixels() {
    let rgba: Vec<u8> = vec![200, 100, 50, 0, 200, 100, 50, 128];
    let image = RgbaImage::from_rgba_unmultiplied(2, 1, &rgba).unwrap();
    assert_eq!(&image.pixels[0..4], &[0, 0, 0, 0]);
    assert_eq!(image.pixels[7], 128);
    assert_ne!(&image.pixels[4..7], &[200, 100, 50]);
}

#[test]
fn image_size_must_match_bytes() {
    let rgba: Vec<u8> = vec![0; 12];
    assert_eq!(RgbaImage::from_rgba_unmultiplied(2, 2, &rgba).err(), Some(ImageError::SizeMismatch));
    assert_eq!(RgbaImage::from_rgba_unmultiplied(usize::MAX, 2, &rgba).err(), Some(ImageError::SizeMismatch));
    assert_eq!(RgbaImage::from_toolkit_rgba(-1, 3, &rgba).err(), Some(ImageError::NegativeSize));
    assert_eq!(RgbaImage::from_toolkit_rgba(3, 1, &rgba).unwrap().size(), [3, 1]);
}

#[test]
fn colours_are_laid_out_byte_by_byte() {
    let colors = [[1u8, 2, 3, 4], [5, 6, 7, 8]];
    assert_eq!(color32_bytes(&colors), vec![1, 2, 3, 4, 5, 6, 7, 8]);
    let image = RgbaImage::from_vec_color32(1, 2, vec![[9, 8, 7, 255], [1, 1, 1, 255]]).unwrap();
    assert_eq!(image.pixels, vec![9, 8, 7, 255, 1, 1, 1, 255]);
    let image = RgbaImage::from_vec_color32(3, 1, vec![[9, 8, 7, 255], [5, 5, 5, 0], [200, 100, 50, 100]]).unwrap();
    assert_eq!(image.pixels.len(), 12);
    assert_eq!(&image.pixels[0..8], &[9, 8, 7, 255, 0, 0, 0, 0]);
    assert_eq!(image.pixels[11], 100);
    assert_eq!(RgbaImage::from_color32_slice(2, 2, &colors).err(), Some(ImageError::SizeMismatch));
}

#[test]
fn cursor_is_applied_only_when_it_changes() {
    let mut fused = FusedCursor::new();
    assert_eq!(translate_cursor(&mut fused, CursorIcon::Default), None);
    assert_eq!(translate_cursor(&mut fused, CursorIcon::Text), Some(Cursor::Insert));
    assert_eq!(translate_cursor(&mut fused, CursorIcon::Text), None);
    assert_eq!(translate_cursor(&mut fused, CursorIcon::NoDrop), Some(Cursor::Wait));
    assert_eq!(translate_cursor(&mut fused, CursorIcon::ZoomIn), Some(Cursor::Arrow));
    assert_eq!(translate_cursor(&mut fused, CursorIcon::Hidden), Some(Cursor::Hidden));
    assert_eq!(fused.cursor_icon, Cursor::Hidden);
}

#[test]
fn output_copies_text_and_maps_cursor() {
    let mut s = EguiState::new(640, 480, 1000, STATE_CTRL);
    s.clipboard = Clipboard::in_memory();
    assert_eq!(s.fuse_output("copied".to_string(), CursorIcon::PointingHand), Some(Cursor::Hand));
    assert_eq!(s.clipboard.get(), Some("copied".to_string()));
    assert_eq!(s.fuse_output(String::new(), CursorIcon::Grab), None);
    assert_eq!(s.clipboard.get(), Some("copied".to_string()));
}

#[test]
fn compat_needs_setup_once() {
    let mut c = Compat::default();
    assert!(c.needs_setup());
    assert!(!c.needs_setup());
    assert!(!c.needs_setup());
}

#[test]
fn frame_work_frees_then_uploads_then_draws() {
    let free = [TextureId::Managed(1)];
    let set = [TextureId::Managed(2), TextureId::User(3)];
    assert_eq!(
        paint_jobs(true, &free, &set),
        vec![
            FrameStep::FreeTexture(TextureId::Managed(1)),
            FrameStep::UpdateTexture { index: 0, id: TextureId::Managed(2) },
            FrameStep::UpdateTexture { index: 1, id: TextureId::User(3) },
            FrameStep::UpdateBuffers,
            FrameStep::Execute,
            FrameStep::Submit,
            FrameStep::Present,
        ]
    );
    assert!(paint_jobs(false, &free, &set).is_empty());
    let twice = [TextureId::Managed(4), TextureId::Managed(4)];
    assert_eq!(
        paint_jobs(true, &[], &twice)[..2],
        [
            FrameStep::UpdateTexture { index: 0, id: TextureId::Managed(4) },
            FrameStep::UpdateTexture { index: 1, id: TextureId::Managed(4) },
        ]
    );
    assert_eq!(
        paint_with_rpass(&[], &set[..1]),
        vec![
            FrameStep::UpdateTexture { index: 0, id: TextureId::Managed(2) },
            FrameStep::UpdateBuffers,
            FrameStep::ExecuteInPass,
        ]
    );
}

#[test]
fn screen_descriptor_follows_window() {
    let s = EguiState::new(1024, 768, 2000, STATE_CTRL);
    let d = get_screen_descriptor(&s);
    assert_eq!(d.size_in_pixels, [1024, 768]);
    assert_eq!(d.pixels_per_point, 2000);
}
