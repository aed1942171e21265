//! The tray icon: PNG bytes to the ARGB32 pixmap that the
//! StatusNotifierItem spec requires.
//!
//! The source icons are 8-bit RGBA with straight alpha; the pixmap format is
//! ARGB with premultiplied alpha. Anything other than 8-bit RGBA means the
//! icon generation step changed and the conversion would misread it, so such
//! an icon is rejected rather than shown wrong. A broken icon costs the icon,
//! never the process.

use vstd::prelude::*;

verus! {

/// One decoded PNG frame as the decoder hands it over: size, colour type and
/// bit depth (as the numbers the PNG format gives them), and the raw output
/// buffer.
pub struct DecodedFrame {
    pub width: u32,
    pub height: u32,
    pub colour_type: u8,
    pub bit_depth: u8,
    pub pixels: Vec<u8>,
}

/// The PNG colour type of RGBA samples.
pub const COLOUR_TYPE_RGBA: u8 = 6;

/// The only bit depth the conversion reads.
pub const BIT_DEPTH_EIGHT: u8 = 8;

/// What the `png` crate decodes from a byte string: the first frame's width,
/// height, colour type, bit depth and output buffer; `None` when the bytes
/// are not a PNG it can decode.
pub uninterp spec fn png_first_frame(bytes: Seq<u8>) -> Option<(u32, u32, u8, u8, Seq<u8>)>;

/// Decodes the first frame of a PNG with the `png` crate:
/// `png::Decoder::new` over a cursor on the bytes, then `read_info`,
/// `output_buffer_size` and `next_frame`. The colour type and bit depth are
/// handed over as the numbers of their `#[repr(u8)]` enums. The result is
/// named [`png_first_frame`] of the bytes; nothing else is stated of it.
#[verifier::external_body]
fn png_decode(bytes: &[u8]) -> (r: Option<DecodedFrame>)
    ensures
        match r {
            Some(f) => png_first_frame(bytes@) == Some(
                (f.width, f.height, f.colour_type, f.bit_depth, f.pixels@),
            ),
            None => png_first_frame(bytes@) is None,
        },
{
    let mut reader = png::Decoder::new(std::io::Cursor::new(bytes)).read_info().ok()?;
    let mut pixels = vec![0; reader.output_buffer_size()?];
    let info = reader.next_frame(&mut pixels).ok()?;
    let (colour_type, bit_depth) = (info.color_type as u8, info.bit_depth as u8);
    Some(DecodedFrame { width: info.width, height: info.height, colour_type, bit_depth, pixels })
}

/// An icon in the StatusNotifierItem pixmap layout.
pub struct Pixmap {
    pub width: i32,
    pub height: i32,
    /// ARGB32, premultiplied alpha, row by row.
    pub data: Vec<u8>,
}

/// A colour channel scaled by alpha, rounded to nearest: `c * a / 255`.
pub open spec fn premultiply(c: u8, a: u8) -> u8 {
    ((c * a + 127) / 255) as u8
}

/// RGBA with straight alpha to ARGB with premultiplied alpha, pixel by
/// pixel; a trailing partial pixel is dropped.
pub open spec fn argb_of(rgba: Seq<u8>) -> Seq<u8> {
    Seq::new(
        (rgba.len() / 4 * 4) as nat,
        |j: int| {
            let p = j / 4 * 4;
            let a = rgba[p + 3];
            if j % 4 == 0 {
                a
            } else {
                premultiply(rgba[p + j % 4 - 1], a)
            }
        },
    )
}

/// Premultiplying leaves an opaque pixel's colour as it is and makes a fully
/// transparent pixel black, and never brightens a channel.
pub proof fn lemma_premultiply_bounds(c: u8, a: u8)
    ensures
        premultiply(c, 255) == c,
        premultiply(c, 0) == 0,
        premultiply(c, a) <= c,
{
    assert((c * 255 + 127) / 255 == c) by (nonlinear_arith);
    assert((c * a + 127) / 255 <= c) by (nonlinear_arith)
        requires
            0 <= c <= 255,
            0 <= a <= 255,
    ;
}

/// The conversion keeps four bytes per whole pixel, so a `w` by `h` RGBA
/// buffer becomes a `w` by `h` ARGB buffer.
pub proof fn lemma_argb_size(rgba: Seq<u8>, width: nat, height: nat)
    requires
        rgba.len() == width * height * 4,
    ensures
        argb_of(rgba).len() == rgba.len(),
{
    assert(rgba.len() / 4 * 4 == rgba.len()) by (nonlinear_arith)
        requires
            rgba.len() == width * height * 4,
    ;
}

/// The pixmap a PNG becomes, or `None` when it does not decode or is not
/// 8-bit RGBA.
pub open spec fn pixmap_of(bytes: Seq<u8>) -> Option<(i32, i32, Seq<u8>)> {
    match png_first_frame(bytes) {
        Some((w, h, colour_type, bit_depth, pixels)) => if colour_type == COLOUR_TYPE_RGBA
            && bit_depth == BIT_DEPTH_EIGHT {
            Some((w as i32, h as i32, argb_of(pixels)))
        } else {
            None
        },
        None => None,
    }
}

fn premultiply_exec(c: u8, a: u8) -> (r: u8)
    ensures
        r == premultiply(c, a),
{
    let c32 = c as u32;
    let a32 = a as u32;
    assert(c32 * a32 <= 255 * 255) by (nonlinear_arith)
        requires
            c32 <= 255,
            a32 <= 255,
    ;
    let scaled = (c32 * a32 + 127) / 255;
    assert(scaled <= 255);
    scaled as u8
}

/// Converts RGBA (straight alpha) to ARGB (premultiplied alpha); see
/// [`argb_of`].
pub fn rgba_to_argb(rgba: &[u8]) -> (argb: Vec<u8>)
    ensures
        argb@ == argb_of(rgba@),
{
    let n = rgba.len() / 4;
    let mut argb: Vec<u8> = Vec::new();
    let mut i: usize = 0;
    while i < n
        invariant
            n == rgba@.len() / 4,
            rgba@.len() <= usize::MAX,
            i <= n,
            argb@.len() == 4 * i,
            forall|j: int| 0 <= j < 4 * i ==> argb@[j] == #[trigger] argb_of(rgba@)[j],
        decreases n - i,
    {
        let p = 4 * i;
        let r = rgba[p];
        let g = rgba[p + 1];
        let b = rgba[p + 2];
        let a = rgba[p + 3];
        argb.push(a);
        argb.push(premultiply_exec(r, a));
        argb.push(premultiply_exec(g, a));
        argb.push(premultiply_exec(b, a));
        assert forall|j: int| 4 * i <= j < 4 * i + 4 implies argb@[j] == #[trigger] argb_of(rgba@)[j] by {
            assert(j / 4 == i);
        }
        i = i + 1;
    }
    assert(argb@ =~= argb_of(rgba@));
    argb
}

/// Decodes a PNG into the pixmap layout; see [`pixmap_of`].
pub fn decode_png(bytes: &[u8]) -> (icon: Option<Pixmap>)
    ensures
        match icon {
            Some(p) => pixmap_of(bytes@) == Some((p.width, p.height, p.data@)),
            None => pixmap_of(bytes@) is None,
        },
{
    let frame = match png_decode(bytes) {
        Some(f) => f,
        None => { return None; },
    };
    // Anything but 8-bit RGBA means the icon generation step changed and the
    // conversion below would misread it.
    if frame.colour_type != COLOUR_TYPE_RGBA || frame.bit_depth != BIT_DEPTH_EIGHT {
        return None;
    }
    let data = rgba_to_argb(frame.pixels.as_slice());
    Some(Pixmap { width: frame.width as i32, height: frame.height as i32, data })
}

/// The content of a pixmap: width, height and ARGB data.
pub open spec fn pixmap_view(p: Pixmap) -> (i32, i32, Seq<u8>) {
    (p.width, p.height, p.data@)
}

/// Every PNG of a list that decodes, in order; the others are skipped.
pub open spec fn pixmaps_of(pngs: Seq<Seq<u8>>) -> Seq<(i32, i32, Seq<u8>)>
    decreases pngs.len(),
{
    if pngs.len() == 0 {
        seq![]
    } else {
        let rest = pixmaps_of(pngs.drop_last());
        match pixmap_of(pngs.last()) {
            Some(p) => rest.push(p),
            None => rest,
        }
    }
}

/// The byte strings of a list of PNGs.
pub open spec fn png_bytes(pngs: Seq<&[u8]>) -> Seq<Seq<u8>> {
    pngs.map_values(|b: &[u8]| b@)
}

/// Decodes every PNG of a list that decodes, in order; see [`pixmaps_of`].
pub fn decode_all(pngs: &[&[u8]]) -> (icons: Vec<Pixmap>)
    ensures
        icons@.map_values(|p: Pixmap| pixmap_view(p)) == pixmaps_of(png_bytes(pngs@)),
{
    let mut icons: Vec<Pixmap> = Vec::new();
    let mut i: usize = 0;
    while i < pngs.len()
        invariant
            i <= pngs@.len(),
            icons@.map_values(|p: Pixmap| pixmap_view(p)) == pixmaps_of(
                png_bytes(pngs@).take(i as int),
            ),
        decreases pngs@.len() - i,
    {
        let ghost before = icons@;
        assert(png_bytes(pngs@).take(i + 1).drop_last() =~= png_bytes(pngs@).take(i as int));
        match decode_png(pngs[i]) {
            Some(p) => {
                icons.push(p);
                assert(icons@.map_values(|p: Pixmap| pixmap_view(p)) =~= before.map_values(
                    |p: Pixmap| pixmap_view(p),
                ).push(pixmap_view(p)));
            },
            None => {},
        }
        i = i + 1;
    }
    assert(png_bytes(pngs@).take(pngs@.len() as int) =~= png_bytes(pngs@));
    icons
}

} // verus!
