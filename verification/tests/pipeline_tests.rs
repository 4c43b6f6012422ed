use base64::Engine;
use colorsnap::capture::{capture_zoom_preview, crop_rgba, CaptureError};
use colorsnap::geometry::DisplayBounds;
use colorsnap::history::ColorEntry;

/// A synthetic RGBA raster with a distinct value in every byte position.
fn raster_bytes(w: usize, h: usize) -> Vec<u8> {
    (0..w * h * 4).map(|i| (i % 251) as u8).collect()
}

#[test]
fn crop_extracts_exact_sub_rectangle() {
    let raster = raster_bytes(8, 6);
    let cropped = crop_rgba(&raster, 8, 6, 2, 1, 4, 4);
    assert_eq!(cropped.len(), 4 * 4 * 4);
    for row in 0..4usize {
        for col in 0..4usize {
            for k in 0..4usize {
                let src = 4 * ((1 + row) * 8 + (2 + col)) + k;
                assert_eq!(cropped[(row * 4 + col) * 4 + k], raster[src]);
            }
        }
    }
}

#[test]
fn crop_of_full_raster_is_identity() {
    let raster = raster_bytes(5, 3);
    assert_eq!(crop_rgba(&raster, 5, 3, 0, 0, 5, 3), raster);
}

#[test]
fn zoom_preview_round_trips_through_png_and_base64() {
    let display = DisplayBounds { x: 0, y: 0, width: 8, height: 6 };
    let raster = raster_bytes(8, 6);
    let z = capture_zoom_preview(4, 4, 3, 0x00AABBCC, &display, &raster, 8, 6).unwrap();

    assert_eq!((z.width, z.height), (4, 4));
    assert_eq!(z.center_color.rgb, [0xCC, 0xBB, 0xAA]);
    assert_eq!(z.center_color.hex, "#CCBBAA");
    assert_eq!((z.center_color.x, z.center_color.y), (4, 3));

    let png_bytes = base64::engine::general_purpose::STANDARD
        .decode(&z.image_data)
        .expect("payload must be valid base64");
    let decoded = image::load_from_memory(&png_bytes)
        .expect("payload must decode as an image")
        .to_rgba8();
    assert_eq!(decoded.dimensions(), (4, 4));
    assert_eq!(decoded.into_raw(), crop_rgba(&raster, 8, 6, 2, 1, 4, 4));
}

#[test]
fn zoom_preview_fails_when_raster_misses_the_region() {
    let display = DisplayBounds { x: 0, y: 0, width: 8, height: 6 };
    let short_raster = raster_bytes(4, 3);
    let r = capture_zoom_preview(4, 4, 3, 0x00AABBCC, &display, &short_raster, 4, 3);
    assert_eq!(r.unwrap_err(), CaptureError::CaptureFailed);
}

#[test]
fn zoom_preview_succeeds_whenever_region_fits() {
    let display = DisplayBounds { x: 0, y: 0, width: 8, height: 6 };
    let raster = raster_bytes(8, 6);
    for &(cx, cy) in &[(0, 0), (7, 5), (4, 3), (0, 5), (7, 0)] {
        for &size in &[1u32, 2, 3, 4, 8, 16] {
            let r = capture_zoom_preview(size, cx, cy, 0x00112233, &display, &raster, 8, 6);
            assert!(r.is_ok(), "size {size} at ({cx},{cy})");
        }
    }
}

#[test]
fn zoom_preview_of_zero_size_cannot_be_encoded() {
    let display = DisplayBounds { x: 0, y: 0, width: 8, height: 6 };
    let raster = raster_bytes(8, 6);
    let r = capture_zoom_preview(0, 4, 3, 0x00AABBCC, &display, &raster, 8, 6);
    assert_eq!(r.unwrap_err(), CaptureError::EncodeFailed);
}

#[test]
fn zoom_preview_clamps_at_display_corner() {
    let display = DisplayBounds { x: 0, y: 0, width: 8, height: 6 };
    let raster = raster_bytes(8, 6);
    let z = capture_zoom_preview(16, 7, 5, 0x00010203, &display, &raster, 8, 6).unwrap();
    // Pointer at the far corner with a request larger than the display:
    // the extents clamp to the display itself.
    assert_eq!((z.width, z.height), (8, 6));
}

#[test]
fn history_entry_carries_the_pick() {
    let e = ColorEntry {
        id: String::from("pick-1"),
        hex: String::from("#4080FF"),
        rgb: [0x40, 0x80, 0xFF],
        timestamp: 1700000000,
        label: None,
    };
    assert_eq!(e.rgb, [0x40, 0x80, 0xFF]);
    assert!(e.label.is_none());

    let labeled = ColorEntry {
        id: String::from("pick-2"),
        hex: String::from("#000000"),
        rgb: [0, 0, 0],
        timestamp: 1700000001,
        label: Some(String::from("background")),
    };
    assert_eq!(labeled.label.as_deref(), Some("background"));
}
