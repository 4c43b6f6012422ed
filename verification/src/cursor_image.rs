//! Cursor synthesis: converting a straight-alpha RGBA pixel buffer into the
//! premultiplied, reversed-channel layout the OS bitmap expects, and placing
//! the hotspot at the image center.

use vstd::prelude::*;

verus! {

/// Premultiplication of one color channel by an alpha value: exact integer
/// truncating division, as the OS compositor expects.
pub open spec fn premul(c: int, a: int) -> int {
    c * a / 255
}

/// For full alpha the channel passes through unchanged; for zero alpha it
/// vanishes whatever the input; for any alpha the formula is the exact
/// truncating `c * a / 255`.
pub proof fn lemma_premul_endpoints(c: u8)
    ensures
        premul(c as int, 255) == c,
        premul(c as int, 0) == 0,
        premul(c as int, 128) == c as int * 128 / 255,
{
    assert(c as int * 255 / 255 == c) by (nonlinear_arith);
    assert(c as int * 0 == 0);
}

/// Premultiplied channels never exceed their alpha, and stay within a byte.
pub proof fn lemma_premul_bounded(c: int, a: int)
    requires
        0 <= c <= 255,
        0 <= a <= 255,
    ensures
        0 <= premul(c, a) <= a,
        premul(c, a) <= 255,
{
    assert(0 <= c * a <= 255 * a) by (nonlinear_arith)
        requires
            0 <= c <= 255,
            0 <= a,
    ;
    assert(c * a / 255 <= 255 * a / 255) by (nonlinear_arith)
        requires
            c * a <= 255 * a,
    ;
    assert(255 * a / 255 == a) by (nonlinear_arith);
}

/// Multiply one channel by an alpha byte with exact truncating division.
pub fn premultiply(c: u8, a: u8) -> (r: u8)
    ensures
        r == premul(c as int, a as int),
{
    proof {
        lemma_premul_bounded(c as int, a as int);
    }
    ((c as u32) * (a as u32) / 255) as u8
}

/// The premultiplied reversed-channel buffer for a straight-alpha RGBA
/// buffer: byte `4*p + 0` of the result is the premultiplied blue of pixel
/// `p`, `4*p + 1` its green, `4*p + 2` its red, and `4*p + 3` its alpha,
/// carried through unchanged.
pub open spec fn bgra_premul_of(p: Seq<u8>) -> Seq<u8> {
    Seq::new(
        p.len(),
        |j: int|
            {
                let px = j / 4;
                let k = j % 4;
                let a = p[4 * px + 3];
                if k == 3 {
                    a
                } else {
                    premul(p[4 * px + (2 - k)] as int, a as int) as u8
                }
            },
    )
}

/// Convert a straight-alpha RGBA buffer into the premultiplied
/// reversed-channel layout, pixel by pixel.
pub fn rgba_to_premultiplied_bgra(p: &Vec<u8>) -> (out: Vec<u8>)
    requires
        p@.len() % 4 == 0,
    ensures
        out@ == bgra_premul_of(p@),
{
    let n = p.len() / 4;
    let mut out: Vec<u8> = Vec::new();
    let mut i: usize = 0;
    while i < n
        invariant
            p@.len() == n * 4,
            p@.len() <= usize::MAX,
            i <= n,
            out@.len() == i * 4,
            forall|j: int| 0 <= j < i * 4 ==> out@[j] == bgra_premul_of(p@)[j],
        decreases n - i,
    {
        proof {
            assert(4 * (i as int) + 3 < n * 4);
        }
        let r = p[4 * i];
        let g = p[4 * i + 1];
        let b = p[4 * i + 2];
        let a = p[4 * i + 3];
        out.push(premultiply(b, a));
        out.push(premultiply(g, a));
        out.push(premultiply(r, a));
        out.push(a);
        proof {
            assert forall|j: int| i * 4 <= j < (i + 1) * 4 implies out@[j] == bgra_premul_of(p@)[j]
                by {
                vstd::arithmetic::div_mod::lemma_fundamental_div_mod_converse(
                    j,
                    4,
                    i as int,
                    j - i * 4,
                );
            }
        }
        i = i + 1;
    }
    proof {
        assert(out@ =~= bgra_premul_of(p@));
    }
    out
}

/// A cursor image ready for the OS: dimensions, the premultiplied
/// reversed-channel pixel buffer, and the hotspot at the image center.
#[derive(Debug, Clone)]
pub struct PreparedCursor {
    pub width: u32,
    pub height: u32,
    pub bgra: Vec<u8>,
    pub hotspot_x: u32,
    pub hotspot_y: u32,
}

impl PreparedCursor {
    /// The prepared buffer covers exactly the stated dimensions and the
    /// hotspot sits at the image center.
    pub open spec fn wf(self) -> bool {
        &&& self.bgra@.len() == self.width * self.height * 4
        &&& self.hotspot_x == self.width / 2
        &&& self.hotspot_y == self.height / 2
    }
}

/// Build the OS-ready cursor image from decoded straight-alpha RGBA pixels.
pub fn prepare_cursor_image(width: u32, height: u32, rgba: &Vec<u8>) -> (pc: PreparedCursor)
    requires
        rgba@.len() == width * height * 4,
    ensures
        pc.wf(),
        pc.width == width,
        pc.height == height,
        pc.bgra@ == bgra_premul_of(rgba@),
{
    proof {
        assert(rgba@.len() % 4 == 0) by {
            assert(width * height * 4 % 4 == 0) by (nonlinear_arith);
        }
    }
    let bgra = rgba_to_premultiplied_bgra(rgba);
    PreparedCursor { width, height, bgra, hotspot_x: width / 2, hotspot_y: height / 2 }
}

/// The straight-alpha RGBA decoding of an encoded image byte stream:
/// dimensions and pixel buffer, or nothing when the stream does not decode.
pub uninterp spec fn rgba_decode_of(bytes: Seq<u8>) -> Option<(nat, nat, Seq<u8>)>;

/// Relies on image::load_from_memory followed by DynamicImage::to_rgba8:
/// decoding a byte stream into straight-alpha RGBA is a function of the
/// bytes alone, and the buffer it yields covers exactly the decoded
/// dimensions at four bytes per pixel.
#[verifier::external_body]
fn decode_rgba(bytes: &Vec<u8>) -> (r: Option<(u32, u32, Vec<u8>)>)
    ensures
        match r {
            Some(d) => rgba_decode_of(bytes@) == Some((d.0 as nat, d.1 as nat, d.2@)) && d.2@.len()
                == d.0 * d.1 * 4,
            None => rgba_decode_of(bytes@) is None,
        },
{
    match image::load_from_memory(bytes.as_slice()) {
        Ok(img) => {
            let rgba = img.to_rgba8();
            let (w, h) = rgba.dimensions();
            Some((w, h, rgba.into_raw()))
        },
        Err(_) => None,
    }
}

/// Synthesize the pick-mode cursor from the encoded icon asset: decode it to
/// straight-alpha RGBA, premultiply into the OS bitmap layout, and center
/// the hotspot. Yields nothing when the asset does not decode; decoding has
/// no side effects, so a failure leaves nothing to release.
pub fn set_pick_cursor(icon_bytes: &Vec<u8>) -> (r: Option<PreparedCursor>)
    ensures
        r is Some <==> rgba_decode_of(icon_bytes@) is Some,
        r is Some ==> ({
            let d = rgba_decode_of(icon_bytes@)->0;
            let pc = r->0;
            &&& pc.wf()
            &&& pc.width == d.0
            &&& pc.height == d.1
            &&& pc.bgra@ == bgra_premul_of(d.2)
        }),
{
    match decode_rgba(icon_bytes) {
        Some((w, h, pixels)) => Some(prepare_cursor_image(w, h, &pixels)),
        None => None,
    }
}

} // verus!
