//! The capture pipeline: sampling errors, cropping a display raster to the
//! clamped region around the pointer, and encoding the crop as a portable
//! PNG byte stream carried in base64.

use vstd::prelude::*;
use crate::color::{ColorInfo, INVALID_COLOR, color_info_matches, make_color_info};
use crate::geometry::{CaptureRegion, DisplayBounds, compute_capture_region, find_containing_display, spec_capture_region};

verus! {

/// The largest input length the base64 encoder is fed; beyond it the
/// encoder's output-size computation could overflow.
pub const MAX_BASE64_INPUT: usize = usize::MAX / 4 * 3 - 2;

/// Why a sample or a capture failed. Sampling and capture errors are
/// surfaced to callers; cursor synthesis and restoration never raise these.
#[derive(Debug, Clone, Copy, PartialEq, Eq, Structural)]
pub enum CaptureError {
    /// The OS could not report the pointer position.
    CursorQueryFailed,
    /// The OS returned its invalid-color sentinel for the pixel query.
    PixelQueryFailed,
    /// No enumerated display contains the pointer.
    NoContainingDisplay,
    /// The OS could not rasterize the display, or the raster it produced
    /// does not cover the planned region.
    CaptureFailed,
    /// The raster could not be encoded for transport.
    EncodeFailed,
    /// The platform offers no screen sampling.
    UnsupportedPlatform,
}

impl CaptureError {
    /// The description reported to the UI layer for this error.
    pub open spec fn spec_message(self) -> Seq<char> {
        match self {
            CaptureError::CursorQueryFailed => "Failed to get cursor position"@,
            CaptureError::PixelQueryFailed => "Failed to get pixel color"@,
            CaptureError::NoContainingDisplay => "Could not find monitor containing cursor"@,
            CaptureError::CaptureFailed => "Failed to capture screen"@,
            CaptureError::EncodeFailed => "Failed to encode image"@,
            CaptureError::UnsupportedPlatform => "Color picking is only supported on Windows"@,
        }
    }

    /// Render the description of this error.
    pub fn message(&self) -> (s: String)
        ensures
            s@ == self.spec_message(),
    {
        match self {
            CaptureError::CursorQueryFailed => "Failed to get cursor position".to_owned(),
            CaptureError::PixelQueryFailed => "Failed to get pixel color".to_owned(),
            CaptureError::NoContainingDisplay => "Could not find monitor containing cursor".to_owned(),
            CaptureError::CaptureFailed => "Failed to capture screen".to_owned(),
            CaptureError::EncodeFailed => "Failed to encode image".to_owned(),
            CaptureError::UnsupportedPlatform => "Color picking is only supported on Windows".to_owned(),
        }
    }
}

/// A captured zoom preview: the PNG crop in base64, the color under the
/// pointer, and the clamped extents actually captured, which may be smaller
/// than the requested size.
#[derive(Debug, Clone)]
pub struct ZoomPreviewData {
    pub image_data: String,
    pub center_color: ColorInfo,
    pub width: u32,
    pub height: u32,
}

/// The PNG byte stream that encodes an RGBA buffer of the given dimensions.
pub uninterp spec fn png_bytes_of(rgba: Seq<u8>, width: int, height: int) -> Seq<u8>;

/// The base64 rendering of a byte stream, in the standard alphabet with
/// padding.
pub uninterp spec fn base64_of(bytes: Seq<u8>) -> Seq<char>;

/// Relies on image::write_buffer_with_format with the PNG format: encoding
/// an RGBA buffer into an in-memory PNG byte stream is a function of the
/// buffer and its dimensions alone. The encoder asserts that the buffer
/// length matches the dimensions, so that is required here; writing into an
/// in-memory vector cannot fail, and the png writer rejects only a zero
/// width or height, so with both extents positive it succeeds.
#[verifier::external_body]
fn encode_png_rgba(rgba: &Vec<u8>, width: u32, height: u32) -> (r: Option<Vec<u8>>)
    requires
        rgba@.len() == width * height * 4,
    ensures
        r is Some ==> r->0@ == png_bytes_of(rgba@, width as int, height as int),
        width > 0 && height > 0 ==> r is Some,
{
    let mut out = std::io::Cursor::new(Vec::new());
    match image::write_buffer_with_format(
        &mut out,
        rgba.as_slice(),
        width,
        height,
        image::ExtendedColorType::Rgba8,
        image::ImageFormat::Png,
    ) {
        Ok(()) => Some(out.into_inner()),
        Err(_) => None,
    }
}

/// Relies on base64's Engine::encode with the STANDARD engine: the encoding
/// is a function of the input bytes alone. The length bound keeps the
/// encoder's output-size computation from overflowing, on which it panics.
#[verifier::external_body]
fn encode_base64(bytes: &Vec<u8>) -> (r: String)
    requires
        bytes@.len() <= MAX_BASE64_INPUT,
    ensures
        r@ == base64_of(bytes@),
{
    base64::Engine::encode(&base64::engine::general_purpose::STANDARD, bytes.as_slice())
}

/// The crop of an RGBA raster `img` of row width `img_w` to the rectangle at
/// `(x, y)` with extents `w` by `h`: byte `k` of crop pixel `(row, col)` is
/// byte `k` of raster pixel `(y + row, x + col)`.
pub open spec fn spec_crop_rgba(img: Seq<u8>, img_w: int, x: int, y: int, w: int, h: int) -> Seq<
    u8,
> {
    Seq::new(
        (w * h * 4) as nat,
        |j: int|
            {
                let row = j / (w * 4);
                let rem = j % (w * 4);
                let col = rem / 4;
                let k = rem % 4;
                img[4 * ((y + row) * img_w + (x + col)) + k]
            },
    )
}

/// Crop an RGBA raster to a rectangle that lies within it.
pub fn crop_rgba(img: &Vec<u8>, img_w: u32, img_h: u32, x: u32, y: u32, w: u32, h: u32) -> (out:
    Vec<u8>)
    requires
        img@.len() == img_w * img_h * 4,
        x + w <= img_w,
        y + h <= img_h,
    ensures
        out@ == spec_crop_rgba(img@, img_w as int, x as int, y as int, w as int, h as int),
{
    let ghost crop = spec_crop_rgba(img@, img_w as int, x as int, y as int, w as int, h as int);
    proof {
        broadcast use vstd::std_specs::vec::axiom_spec_len;

        assert(img.len() <= usize::MAX);
        assert((w as int) * (h as int) * 4 == (h as int) * (w as int) * 4) by (nonlinear_arith);
        assert((w as int) * (h as int) * 4 >= 0) by (nonlinear_arith);
    }
    let mut out: Vec<u8> = Vec::new();
    let mut row: usize = 0;
    while row < h as usize
        invariant
            img@.len() == img_w * img_h * 4,
            img@.len() <= usize::MAX,
            x + w <= img_w,
            y + h <= img_h,
            row <= h,
            out@.len() == row * w * 4,
            crop == spec_crop_rgba(img@, img_w as int, x as int, y as int, w as int, h as int),
            forall|j: int| 0 <= j < out@.len() ==> out@[j] == crop[j],
        decreases h - row,
    {
        let mut col: usize = 0;
        while col < w as usize
            invariant
                img@.len() == img_w * img_h * 4,
                img@.len() <= usize::MAX,
                x + w <= img_w,
                y + h <= img_h,
                row < h,
                col <= w,
                out@.len() == (row * w + col) * 4,
                crop == spec_crop_rgba(img@, img_w as int, x as int, y as int, w as int, h as int),
                forall|j: int| 0 <= j < out@.len() ==> out@[j] == crop[j],
            decreases w - col,
        {
            proof {
                lemma_pixel_index_bounds(
                    img_w as int,
                    img_h as int,
                    x as int,
                    y as int,
                    w as int,
                    h as int,
                    row as int,
                    col as int,
                );
            }
            let base: usize = 4 * ((y as usize + row) * img_w as usize + (x as usize + col));
            let ghost len0 = out@.len() as int;
            out.push(img[base]);
            out.push(img[base + 1]);
            out.push(img[base + 2]);
            out.push(img[base + 3]);
            proof {
                lemma_crop_index(img_w as int, x as int, y as int, w as int, h as int, row as int, col as int, 0);
                lemma_crop_index(img_w as int, x as int, y as int, w as int, h as int, row as int, col as int, 1);
                lemma_crop_index(img_w as int, x as int, y as int, w as int, h as int, row as int, col as int, 2);
                lemma_crop_index(img_w as int, x as int, y as int, w as int, h as int, row as int, col as int, 3);
                assert(len0 == (row * w + col) * 4);
                assert(out@[len0 + 0] == crop[len0 + 0] && out@[len0 + 1] == crop[len0 + 1]
                    && out@[len0 + 2] == crop[len0 + 2] && out@[len0 + 3] == crop[len0 + 3]);
            }
            col = col + 1;
        }
        proof {
            assert((row as int + 1) * (w as int) == (row as int) * (w as int) + (w as int))
                by (nonlinear_arith);
        }
        row = row + 1;
    }
    proof {
        assert(out@ =~= crop);
    }
    out
}

/// The byte indices a crop touches stay within the raster.
proof fn lemma_pixel_index_bounds(
    img_w: int,
    img_h: int,
    x: int,
    y: int,
    w: int,
    h: int,
    row: int,
    col: int,
)
    requires
        0 <= x,
        0 <= y,
        x + w <= img_w,
        y + h <= img_h,
        0 <= row < h,
        0 <= col < w,
    ensures
        0 <= (y + row) * img_w + (x + col),
        4 * ((y + row) * img_w + (x + col)) + 3 < img_w * img_h * 4,
{
    assert((y + row) * img_w + (x + col) < img_w * img_h) by (nonlinear_arith)
        requires
            0 <= x,
            0 <= y,
            x + w <= img_w,
            y + h <= img_h,
            0 <= row < h,
            0 <= col < w,
    ;
    assert(0 <= (y + row) * img_w) by (nonlinear_arith)
        requires
            0 <= y + row,
            0 <= img_w,
    ;
}

/// Byte `(row * w + col) * 4 + k` of the crop is byte `k` of raster pixel
/// `(y + row, x + col)`.
proof fn lemma_crop_index(img_w: int, x: int, y: int, w: int, h: int, row: int, col: int, k: int)
    requires
        0 <= row < h,
        0 <= col < w,
        0 <= k < 4,
    ensures
        (row * w + col) * 4 + k < w * h * 4,
        spec_crop_rgba(Seq::<u8>::empty(), img_w, x, y, w, h).len() == w * h * 4,
        forall|img: Seq<u8>|
            #[trigger] spec_crop_rgba(img, img_w, x, y, w, h)[(row * w + col) * 4 + k] == img[4 * ((
            y + row) * img_w + (x + col)) + k],
{
    let j = (row * w + col) * 4 + k;
    assert((row * w + col) * 4 + k == row * (w * 4) + (col * 4 + k)) by (nonlinear_arith);
    assert(0 <= col * 4 + k < w * 4) by (nonlinear_arith)
        requires
            0 <= col < w,
            0 <= k < 4,
    ;
    vstd::arithmetic::div_mod::lemma_fundamental_div_mod_converse(
        j,
        w * 4,
        row,
        col * 4 + k,
    );
    vstd::arithmetic::div_mod::lemma_fundamental_div_mod_converse(col * 4 + k, 4, col, k);
    assert(j < w * h * 4) by (nonlinear_arith)
        requires
            j == row * (w * 4) + (col * 4 + k),
            0 <= row < h,
            0 <= col * 4 + k < w * 4,
    ;
}

/// Build the sample for the pointer at `(x, y)` whose pixel query returned
/// the raw OS color value `color`: the OS sentinel is rejected, anything
/// else is canonicalized to RGB with its hex rendering.
pub fn get_color_at_cursor(x: i32, y: i32, color: u32) -> (r: Result<ColorInfo, CaptureError>)
    ensures
        color == INVALID_COLOR <==> r is Err,
        r is Err ==> r->Err_0 == CaptureError::PixelQueryFailed,
        r is Ok ==> color_info_matches(r->Ok_0, color, x, y),
{
    if color == INVALID_COLOR {
        Err(CaptureError::PixelQueryFailed)
    } else {
        Ok(make_color_info(color, x, y))
    }
}

/// Plan a zoom capture: reject the pixel-query sentinel, pick the first
/// display containing the pointer, and clamp the capture rectangle to it.
pub fn plan_zoom_capture(
    size: u32,
    cursor_x: i32,
    cursor_y: i32,
    color: u32,
    displays: &Vec<DisplayBounds>,
) -> (r: Result<(usize, CaptureRegion), CaptureError>)
    requires
        forall|i: int| 0 <= i < displays@.len() ==> displays@[i].wf(),
    ensures
        color == INVALID_COLOR ==> r == Err::<(usize, CaptureRegion), CaptureError>(
            CaptureError::PixelQueryFailed,
        ),
        color != INVALID_COLOR ==> match r {
            Ok((i, region)) => {
                let (gx, gy, gw, gh) = spec_capture_region(
                    displays@[i as int],
                    cursor_x as int,
                    cursor_y as int,
                    size as int,
                );
                &&& i < displays@.len()
                &&& displays@[i as int].spec_contains(cursor_x as int, cursor_y as int)
                &&& forall|j: int|
                    0 <= j < i ==> !displays@[j].spec_contains(cursor_x as int, cursor_y as int)
                &&& region.x == gx
                &&& region.y == gy
                &&& region.width == gw
                &&& region.height == gh
            },
            Err(e) => e == CaptureError::NoContainingDisplay && forall|j: int|
                0 <= j < displays@.len() ==> !displays@[j].spec_contains(
                    cursor_x as int,
                    cursor_y as int,
                ),
        },
{
    if color == INVALID_COLOR {
        return Err(CaptureError::PixelQueryFailed);
    }
    match find_containing_display(displays, cursor_x, cursor_y) {
        Some(i) => {
            let region = compute_capture_region(&displays[i], cursor_x, cursor_y, size);
            Ok((i, region))
        },
        None => Err(CaptureError::NoContainingDisplay),
    }
}

/// The clamped region around the pointer lies within a raster of the given
/// extents.
pub open spec fn spec_region_fits(
    d: DisplayBounds,
    cx: int,
    cy: int,
    size: int,
    raster_w: int,
    raster_h: int,
) -> bool {
    let (gx, gy, gw, gh) = spec_capture_region(d, cx, cy, size);
    gx + gw <= raster_w && gy + gh <= raster_h
}

/// Finish a zoom capture from the raster of the display that contains the
/// pointer. The display is the one `plan_zoom_capture` chose: that planner
/// alone decides `NoContainingDisplay`, and a pointer on no display never
/// reaches this function, so no capture or encoding is attempted for it.
/// Here: crop the raster to the clamped region, encode the crop as PNG,
/// wrap it in base64, and report the clamped extents together with the
/// pointer's color. Fails with `CaptureFailed` exactly when the raster does
/// not cover the planned region; succeeds whenever the region fits, the
/// requested size is positive, and the PNG stays within the base64
/// encoder's input bound, so `EncodeFailed` is confined to the degenerate
/// and oversized cases.
pub fn capture_zoom_preview(
    size: u32,
    cursor_x: i32,
    cursor_y: i32,
    color: u32,
    display: &DisplayBounds,
    raster: &Vec<u8>,
    raster_w: u32,
    raster_h: u32,
) -> (r: Result<ZoomPreviewData, CaptureError>)
    requires
        display.wf(),
        display.spec_contains(cursor_x as int, cursor_y as int),
        color != INVALID_COLOR,
        raster@.len() == raster_w * raster_h * 4,
    ensures
        ({
            let (gx, gy, gw, gh) = spec_capture_region(
                *display,
                cursor_x as int,
                cursor_y as int,
                size as int,
            );
            let fits = spec_region_fits(
                *display,
                cursor_x as int,
                cursor_y as int,
                size as int,
                raster_w as int,
                raster_h as int,
            );
            &&& match r {
                Ok(z) => {
                    &&& fits
                    &&& z.width == gw
                    &&& z.height == gh
                    &&& color_info_matches(z.center_color, color, cursor_x, cursor_y)
                    &&& z.image_data@ == base64_of(
                        png_bytes_of(spec_crop_rgba(raster@, raster_w as int, gx, gy, gw, gh), gw, gh),
                    )
                },
                Err(e) => (e == CaptureError::CaptureFailed && !fits) || (
                e == CaptureError::EncodeFailed && fits),
            }
            &&& (fits && size > 0 && png_bytes_of(
                spec_crop_rgba(raster@, raster_w as int, gx, gy, gw, gh),
                gw,
                gh,
            ).len() <= MAX_BASE64_INPUT ==> r is Ok)
        }),
{
    proof {
        crate::geometry::lemma_capture_region_in_bounds(
            *display,
            cursor_x as int,
            cursor_y as int,
            size as int,
        );
    }
    let region = compute_capture_region(display, cursor_x, cursor_y, size);
    if !(region.x + region.width <= raster_w && region.y + region.height <= raster_h) {
        return Err(CaptureError::CaptureFailed);
    }
    let cropped = crop_rgba(
        raster,
        raster_w,
        raster_h,
        region.x,
        region.y,
        region.width,
        region.height,
    );
    let png = match encode_png_rgba(&cropped, region.width, region.height) {
        Some(p) => p,
        None => {
            return Err(CaptureError::EncodeFailed);
        },
    };
    if png.len() > MAX_BASE64_INPUT {
        return Err(CaptureError::EncodeFailed);
    }
    let image_data = encode_base64(&png);
    let center_color = make_color_info(color, cursor_x, cursor_y);
    Ok(ZoomPreviewData { image_data, center_color, width: region.width, height: region.height })
}

} // verus!
