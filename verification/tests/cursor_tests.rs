use colorsnap::cursor_image::{
    premultiply, prepare_cursor_image, rgba_to_premultiplied_bgra, set_pick_cursor,
};
use colorsnap::cursor_state::{
    force_restore_default_cursor, restore_default_cursor, SystemCursorState,
};

#[test]
fn premultiply_full_alpha_is_identity() {
    for &c in &[0u8, 1, 127, 128, 254, 255] {
        assert_eq!(premultiply(c, 255), c);
    }
}

#[test]
fn premultiply_zero_alpha_clears_channel() {
    for &c in &[0u8, 1, 127, 128, 254, 255] {
        assert_eq!(premultiply(c, 0), 0);
    }
}

#[test]
fn premultiply_half_alpha_truncates() {
    assert_eq!(premultiply(0, 128), 0);
    assert_eq!(premultiply(1, 128), 0);
    assert_eq!(premultiply(254, 128), 127);
    assert_eq!(premultiply(255, 128), 128);
}

#[test]
fn bgra_conversion_reverses_and_premultiplies() {
    let rgba = vec![10u8, 20, 30, 255, 100, 150, 200, 128];
    let bgra = rgba_to_premultiplied_bgra(&rgba);
    assert_eq!(bgra, vec![30, 20, 10, 255, 100, 75, 50, 128]);
}

#[test]
fn bgra_conversion_of_empty_buffer() {
    let rgba: Vec<u8> = Vec::new();
    assert_eq!(rgba_to_premultiplied_bgra(&rgba), Vec::<u8>::new());
}

#[test]
fn prepared_cursor_hotspot_is_center() {
    let rgba = vec![0u8; 32 * 32 * 4];
    let pc = prepare_cursor_image(32, 32, &rgba);
    assert_eq!((pc.hotspot_x, pc.hotspot_y), (16, 16));
    assert_eq!(pc.bgra.len(), 32 * 32 * 4);

    let rgba_odd = vec![0u8; 63 * 31 * 4];
    let pc_odd = prepare_cursor_image(63, 31, &rgba_odd);
    assert_eq!((pc_odd.hotspot_x, pc_odd.hotspot_y), (31, 15));
}

#[test]
fn pick_cursor_from_encoded_icon() {
    // A 2x2 icon: opaque red, half-transparent green, transparent blue,
    // opaque white, encoded as PNG before it is handed over.
    let rgba = vec![
        255u8, 0, 0, 255, 0, 255, 0, 128, 0, 0, 255, 0, 255, 255, 255, 255,
    ];
    let mut png = std::io::Cursor::new(Vec::new());
    image::write_buffer_with_format(
        &mut png,
        &rgba,
        2,
        2,
        image::ExtendedColorType::Rgba8,
        image::ImageFormat::Png,
    )
    .unwrap();
    let icon_bytes = png.into_inner();

    let pc = set_pick_cursor(&icon_bytes).unwrap();
    assert_eq!((pc.width, pc.height), (2, 2));
    assert_eq!((pc.hotspot_x, pc.hotspot_y), (1, 1));
    assert_eq!(
        pc.bgra,
        vec![0, 0, 255, 255, 0, 128, 0, 128, 0, 0, 0, 0, 255, 255, 255, 255]
    );
}

#[test]
fn pick_cursor_rejects_undecodable_asset() {
    let garbage = vec![1u8, 2, 3, 4, 5];
    assert!(set_pick_cursor(&garbage).is_none());
}

#[test]
fn restore_is_idempotent_on_the_flag() {
    let mut st = SystemCursorState::new();
    st.note_install_result(true);
    assert!(st.changed);
    let first = restore_default_cursor(&mut st);
    assert!(first);
    assert!(!st.changed);
    let second = restore_default_cursor(&mut st);
    assert!(!second);
    assert!(!st.changed);
}

#[test]
fn restore_without_change_issues_nothing() {
    let mut st = SystemCursorState::new();
    assert!(!restore_default_cursor(&mut st));
}

#[test]
fn forced_restore_always_issues_the_os_call() {
    let mut st = SystemCursorState::new();
    assert!(!st.changed);
    assert!(force_restore_default_cursor(&mut st));
    assert!(!st.changed);
    st.note_install_result(true);
    assert!(force_restore_default_cursor(&mut st));
    assert!(!st.changed);
}

#[test]
fn failed_install_leaves_flag_untouched() {
    let mut st = SystemCursorState::new();
    st.note_install_result(false);
    assert!(!st.changed);
    st.note_install_result(true);
    st.note_install_result(false);
    assert!(st.changed);
}
