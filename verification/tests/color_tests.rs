use colorsnap::color::{colorref_to_rgb, hex_to_rgb, rgb_to_hex, INVALID_COLOR};
use colorsnap::capture::{get_color_at_cursor, CaptureError};

#[test]
fn hex_of_black() {
    assert_eq!(rgb_to_hex(0, 0, 0), "#000000");
}

#[test]
fn hex_of_white() {
    assert_eq!(rgb_to_hex(255, 255, 255), "#FFFFFF");
}

#[test]
fn hex_of_mixed_channels() {
    assert_eq!(rgb_to_hex(10, 27, 44), "#0A1B2C");
    assert_eq!(rgb_to_hex(64, 128, 255), "#4080FF");
    assert_eq!(rgb_to_hex(1, 2, 3), "#010203");
}

#[test]
fn hex_round_trip_samples() {
    let cases: Vec<(u8, u8, u8)> = vec![
        (0, 0, 0),
        (255, 255, 255),
        (1, 2, 3),
        (254, 1, 128),
        (16, 32, 48),
        (255, 0, 255),
    ];
    for (r, g, b) in cases {
        let hex = rgb_to_hex(r, g, b);
        assert_eq!(hex_to_rgb(&hex), Some((r, g, b)));
    }
}

#[test]
fn hex_parse_rejects_malformed() {
    assert_eq!(hex_to_rgb("FFFFFF"), None);
    assert_eq!(hex_to_rgb("#FFF"), None);
    assert_eq!(hex_to_rgb("#GGFFFF"), None);
    assert_eq!(hex_to_rgb("#ffffff"), None);
    assert_eq!(hex_to_rgb(""), None);
    assert_eq!(hex_to_rgb("#FFFFFF0"), None);
}

#[test]
fn colorref_reverses_channel_order() {
    assert_eq!(colorref_to_rgb(0x00FF8040), (0x40, 0x80, 0xFF));
    assert_eq!(colorref_to_rgb(0), (0, 0, 0));
    assert_eq!(colorref_to_rgb(0x00010203), (3, 2, 1));
}

#[test]
fn sample_builds_canonical_color_info() {
    let ci = get_color_at_cursor(5, -7, 0x00FF8040).unwrap();
    assert_eq!(ci.rgb, [0x40, 0x80, 0xFF]);
    assert_eq!(ci.hex, "#4080FF");
    assert_eq!(ci.x, 5);
    assert_eq!(ci.y, -7);
}

#[test]
fn sample_rejects_invalid_sentinel() {
    let r = get_color_at_cursor(0, 0, INVALID_COLOR);
    assert_eq!(r.unwrap_err(), CaptureError::PixelQueryFailed);
}

#[test]
fn error_messages_are_descriptive() {
    assert_eq!(
        CaptureError::CursorQueryFailed.message(),
        "Failed to get cursor position"
    );
    assert_eq!(CaptureError::PixelQueryFailed.message(), "Failed to get pixel color");
    assert_eq!(
        CaptureError::NoContainingDisplay.message(),
        "Could not find monitor containing cursor"
    );
    assert_eq!(CaptureError::CaptureFailed.message(), "Failed to capture screen");
    assert_eq!(CaptureError::EncodeFailed.message(), "Failed to encode image");
    assert_eq!(
        CaptureError::UnsupportedPlatform.message(),
        "Color picking is only supported on Windows"
    );
}
