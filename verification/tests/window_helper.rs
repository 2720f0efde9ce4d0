use native_windows_gui::controls::image_frame::Message;
use native_windows_gui::low::window_helper::{
    client_rect, get_window_enabled, get_window_position, get_window_size, get_window_text,
    get_window_visibility, set_window_enabled, set_window_font, set_window_size,
    set_window_text, set_window_visibility, terminated, text_buffer_size, text_units, Rect,
};

#[test]
fn text_hello_is_read_back() {
    let written = set_window_text("Hello");
    assert_eq!(written, vec![72, 101, 108, 108, 111, 0]);
    assert_eq!(text_buffer_size(5), 6);
    assert_eq!(get_window_text(5, &written), "Hello");
}

#[test]
fn empty_text_is_read_back() {
    let written = set_window_text("");
    assert_eq!(written, vec![0]);
    assert_eq!(text_buffer_size(0), 0);
    assert_eq!(get_window_text(0, &written), "");
    assert_eq!(get_window_text(0, &[72, 105, 0]), "");
    assert_eq!(get_window_text(0, &[]), "");
}

#[test]
fn units_are_terminated() {
    assert_eq!(terminated(vec![72, 105]), vec![72, 105, 0]);
    assert_eq!(terminated(Vec::new()), vec![0]);
    assert_eq!(terminated(vec![0]), vec![0, 0]);
}

#[test]
fn buffer_size_of_a_text() {
    assert_eq!(text_buffer_size(1), 2);
    assert_eq!(text_buffer_size(-1), 0);
    assert_eq!(text_buffer_size(i32::MAX), 0x8000_0000);
}

#[test]
fn text_stops_at_first_zero() {
    assert_eq!(text_units(&[72, 105, 0, 33, 0]), vec![72, 105]);
    assert_eq!(text_units(&[72, 105]), vec![72, 105]);
    assert_eq!(text_units(&[0, 72]), Vec::<u16>::new());
    assert_eq!(text_units(&[]), Vec::<u16>::new());
    assert_eq!(get_window_text(2, &[72, 105, 0, 33, 0]), "Hi");
    assert_eq!(get_window_text(2, &[72, 105]), "Hi");
    assert_eq!(get_window_text(1, &[0, 72]), "");
}

#[test]
fn text_beyond_the_basic_plane() {
    let written = set_window_text("a\u{1F600}");
    assert_eq!(written, vec![0x61, 0xD83D, 0xDE00, 0]);
    assert_eq!(get_window_text(3, &written), "a\u{1F600}");
    assert_eq!(get_window_text(1, &[0xD83D, 0x61, 0]), "\u{FFFD}a");
}

#[test]
fn font_message() {
    assert_eq!(
        set_window_font(0x10, Some(0x20), true),
        Message { hwnd: 0x10, msg: 0x0030, w: 0x20, l: 1 }
    );
    assert_eq!(
        set_window_font(0x10, None, false),
        Message { hwnd: 0x10, msg: 0x0030, w: 0, l: 0 }
    );
}

#[test]
fn position_is_read_back() {
    assert_eq!(get_window_position((10, 20), None), (10, 20));
    assert_eq!(get_window_position((110, 220), Some((10, 20))), (10, 20));
}

#[test]
fn size_to_ask_for() {
    assert_eq!(set_window_size(640, 480, None), (640, 480));
    assert_eq!(client_rect(640, 480), Rect { left: 0, top: 0, right: 640, bottom: 480 });
    let adjusted = Rect { left: -8, top: -31, right: 648, bottom: 488 };
    assert_eq!(set_window_size(640, 480, Some(adjusted)), (656, 519));
    assert_eq!(set_window_size(u32::MAX, 0x8000_0000, None), (-1, i32::MIN));
    let wide = Rect { left: i32::MIN, top: 1, right: 1, bottom: i32::MIN };
    assert_eq!(set_window_size(0, 0, Some(wide)), (i32::MIN + 1, i32::MAX));
}

#[test]
fn size_is_read_back() {
    assert_eq!(get_window_size(640, 480), (640, 480));
    assert_eq!(get_window_size(-1, 0), (u32::MAX, 0));
}

#[test]
fn visibility_commands() {
    assert_eq!(set_window_visibility(true), 5);
    assert_eq!(set_window_visibility(false), 0);
    assert!(get_window_visibility(1));
    assert!(get_window_visibility(-1));
    assert!(!get_window_visibility(0));
}

#[test]
fn enabled_style_bits() {
    assert!(get_window_enabled(0x5000_010E));
    assert!(!get_window_enabled(0x5800_010E));
    assert_eq!(set_window_enabled(0x5000_010E, false), 0x5800_010E);
    assert_eq!(set_window_enabled(0x5800_010E, true), 0x5000_010E);
    assert_eq!(set_window_enabled(0x5000_010E, true), 0x5000_010E);
    assert_eq!(set_window_enabled(0x5800_010E, false), 0x5800_010E);
    assert!(get_window_enabled(set_window_enabled(0xFFFF_FFFF, true)));
    assert!(!get_window_enabled(set_window_enabled(0, false)));
}
