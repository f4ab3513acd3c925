use vstd::prelude::*;

verus! {

/// One channel of a premultiplied pixel converted to straight alpha, rounded
/// to the nearest integer and clamped to 255. A transparent pixel has no color.
pub open spec fn straight_channel(c: u8, a: u8) -> u8 {
    if a == 0 {
        0
    } else {
        let v = (c as int * 255 + a as int / 2) / a as int;
        if v > 255 { 255 } else { v as u8 }
    }
}

fn straighten(c: u8, a: u8) -> (r: u8)
    ensures
        r == straight_channel(c, a),
{
    if a == 0 {
        0
    } else {
        let v: u32 = (c as u32 * 255 + a as u32 / 2) / a as u32;
        if v > 255 { 255 } else { v as u8 }
    }
}

/// Converts a premultiplied RGBA pixel into the straight BGRA pixel that the
/// image shader expects, so that alpha is applied only once.
pub fn straight_bgra(rgba: [u8; 4]) -> (bgra: [u8; 4])
    ensures
        bgra[0] == straight_channel(rgba[2], rgba[3]),
        bgra[1] == straight_channel(rgba[1], rgba[3]),
        bgra[2] == straight_channel(rgba[0], rgba[3]),
        bgra[3] == rgba[3],
{
    let r = rgba[0];
    let g = rgba[1];
    let b = rgba[2];
    let a = rgba[3];
    [straighten(b, a), straighten(g, a), straighten(r, a), a]
}

/// Alpha is applied once: premultiplying a straightened channel again (with
/// rounding to the nearest value) gives back the premultiplied channel that
/// went in, for every channel that a premultiplied pixel can hold.
pub proof fn lemma_straight_then_premultiply(c: u8, a: u8)
    requires
        c <= a,
    ensures
        (straight_channel(c, a) as int * a as int + 127) / 255 == c as int,
{
    if a > 0 {
        let q: int = c as int * 255 + a as int / 2;
        let s: int = q / a as int;
        assert(s * a as int <= q && q < s * a as int + a as int) by (nonlinear_arith)
            requires
                a > 0,
                s == q / a as int,
        ;
        assert(s <= 255) by (nonlinear_arith)
            requires
                a > 0,
                c <= a,
                q == c as int * 255 + a as int / 2,
                s * a as int <= q,
        ;
        assert(straight_channel(c, a) as int == s);
        assert((s * a as int + 127) / 255 == c as int) by (nonlinear_arith)
            requires
                0 < a <= 255,
                q == c as int * 255 + a as int / 2,
                s * a as int <= q,
                q < s * a as int + a as int,
        ;
    }
}

/// An opaque pixel keeps its colors, only reordered.
pub proof fn lemma_opaque_unchanged(c: u8)
    ensures
        straight_channel(c, 255) == c,
{
    assert((c as int * 255 + 127) / 255 == c as int) by (nonlinear_arith);
}

/// Pixel `p` of `out` is pixel `p` of the premultiplied RGBA buffer
/// converted by `straight_bgra`.
pub open spec fn straight_pixel_at(out: Seq<u8>, rgba: Seq<u8>, p: int) -> bool {
    &&& out[4 * p] == straight_channel(rgba[4 * p + 2], rgba[4 * p + 3])
    &&& out[4 * p + 1] == straight_channel(rgba[4 * p + 1], rgba[4 * p + 3])
    &&& out[4 * p + 2] == straight_channel(rgba[4 * p], rgba[4 * p + 3])
    &&& out[4 * p + 3] == rgba[4 * p + 3]
}

/// `out` is the whole premultiplied RGBA buffer converted pixel by pixel.
pub open spec fn straight_pixels(out: Seq<u8>, rgba: Seq<u8>) -> bool {
    &&& out.len() == rgba.len() / 4 * 4
    &&& forall|p: int| 0 <= p < rgba.len() / 4 ==> #[trigger] straight_pixel_at(out, rgba, p)
}

/// Converts a premultiplied RGBA raster into straight BGRA, pixel by pixel.
pub fn straight_bgra_pixels(rgba: &[u8]) -> (out: Vec<u8>)
    ensures
        straight_pixels(out@, rgba@),
{
    let len = rgba.len();
    let n = len / 4;
    let mut out: Vec<u8> = Vec::new();
    let mut p: usize = 0;
    assert(4 * n <= len);
    while p < n
        invariant
            len == rgba@.len(),
            n == len / 4,
            4 * n <= len,
            p <= n,
            out@.len() == 4 * p,
            forall|q: int| 0 <= q < p ==> #[trigger] straight_pixel_at(out@, rgba@, q),
        decreases n - p,
    {
        let i = 4 * p;
        let px = straight_bgra([rgba[i], rgba[i + 1], rgba[i + 2], rgba[i + 3]]);
        let ghost before = out@;
        out.push(px[0]);
        out.push(px[1]);
        out.push(px[2]);
        out.push(px[3]);
        proof {
            assert forall|q: int| 0 <= q < p + 1 implies #[trigger] straight_pixel_at(out@, rgba@, q) by {
                if q < p {
                    assert(straight_pixel_at(before, rgba@, q));
                    assert(out@[4 * q] == before[4 * q]);
                    assert(out@[4 * q + 1] == before[4 * q + 1]);
                    assert(out@[4 * q + 2] == before[4 * q + 2]);
                    assert(out@[4 * q + 3] == before[4 * q + 3]);
                }
            }
        }
        p += 1;
    }
    out
}

/// A rasterized page, as straight-alpha BGRA pixels, with its place in the
/// document.
pub struct RenderedPage {
    /// Straight-alpha BGRA pixels, row by row.
    pub bgra: Vec<u8>,
    pub width: u32,
    pub height: u32,
    /// Zero-based index of the page that was rendered.
    pub page: usize,
    /// Number of pages in the document.
    pub count: usize,
}

impl RenderedPage {
    /// Builds a rendered page from the renderer's premultiplied RGBA raster.
    pub fn from_premultiplied(rgba: &[u8], width: u32, height: u32, page: usize, count: usize) -> (r:
        RenderedPage)
        requires
            rgba@.len() == width * height * 4,
        ensures
            straight_pixels(r.bgra@, rgba@),
            r.bgra@.len() == width * height * 4,
            r.width == width,
            r.height == height,
            r.page == page,
            r.count == count,
    {
        let bgra = straight_bgra_pixels(rgba);
        proof {
            let pixels = width * height;
            assert(rgba@.len() / 4 * 4 == rgba@.len()) by {
                assert(rgba@.len() == pixels * 4);
            }
        }
        RenderedPage { bgra, width, height, page, count }
    }
}

} // verus!
