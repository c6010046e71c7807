//! The render bridge: keeps a displayable RGBA image in step with a raster
//! backend's RGB pixel buffer.
//!
//! Backends that cannot drive a real terminal expose their rendered grid as a
//! tightly packed 3-byte-per-pixel (RGB) buffer.  The display pipeline wants a
//! 4-byte-per-pixel (RGBA) image.  Once per tick the bridge copies the three
//! color channels verbatim and forces the fourth (alpha) channel to fully
//! opaque, reallocating the image whenever the backend's pixel dimensions
//! changed.  All pixel/cell conversions use integer (floor) division.

use vstd::prelude::*;

verus! {

/// The fully opaque alpha value written into every pixel of the image.
pub const OPAQUE_ALPHA: u8 = 255;

/// The RGBA image that a tightly packed RGB buffer converts to: for each
/// source pixel, the three color channels verbatim and an opaque alpha byte.
pub open spec fn rgba_of(rgb: Seq<u8>) -> Seq<u8> {
    Seq::new(
        (rgb.len() / 3) * 4,
        |i: int| if i % 4 == 3 { OPAQUE_ALPHA } else { rgb[(i / 4) * 3 + i % 4] },
    )
}

/// The RGB buffer recovered from an RGBA image by dropping every alpha byte.
pub open spec fn rgb_of(rgba: Seq<u8>) -> Seq<u8> {
    Seq::new((rgba.len() / 4) * 3, |i: int| rgba[(i / 3) * 4 + i % 3])
}

/// Converting an RGB buffer of N pixels yields an RGBA image of N pixels
/// whose color channels equal the source, whose alpha bytes are all opaque,
/// and from which the source can be recovered exactly (N = 0 included).
pub proof fn lemma_rgb_rgba_round_trip(rgb: Seq<u8>)
    requires
        rgb.len() % 3 == 0,
    ensures
        rgba_of(rgb).len() == (rgb.len() / 3) * 4,
        forall|i: int| 0 <= i < rgb.len() ==> rgba_of(rgb)[(i / 3) * 4 + i % 3] == #[trigger] rgb[i],
        forall|i: int|
            0 <= i < rgba_of(rgb).len() && i % 4 == 3 ==> #[trigger] rgba_of(rgb)[i] == OPAQUE_ALPHA,
        rgb_of(rgba_of(rgb)) == rgb,
{
    let a = rgba_of(rgb);
    let n = rgb.len() / 3;
    assert forall|i: int| 0 <= i < rgb.len() implies a[(i / 3) * 4 + i % 3] == #[trigger] rgb[i] by {
        let p = i / 3;
        let c = i % 3;
        assert(i == 3 * p + c);
        assert((4 * p + c) % 4 == c);
        assert((4 * p + c) / 4 == p);
    }
    assert(rgb_of(a) =~= rgb) by {
        assert(a.len() == n * 4);
        assert(a.len() / 4 == n);
        assert forall|i: int| 0 <= i < 3 * n implies rgb_of(a)[i] == rgb[i] by {
            let p = i / 3;
            let c = i % 3;
            assert(i == 3 * p + c);
            assert(rgb_of(a)[i] == a[4 * p + c]);
            assert((4 * p + c) % 4 == c);
            assert((4 * p + c) / 4 == p);
        }
    }
}

/// The four image bytes of one pixel, related to the three source bytes of
/// the same pixel.
proof fn lemma_rgba_pixel(rgb: Seq<u8>, p: int)
    requires
        rgb.len() % 3 == 0,
        0 <= p < rgb.len() / 3,
    ensures
        rgba_of(rgb)[4 * p] == rgb[3 * p],
        rgba_of(rgb)[4 * p + 1] == rgb[3 * p + 1],
        rgba_of(rgb)[4 * p + 2] == rgb[3 * p + 2],
        rgba_of(rgb)[4 * p + 3] == OPAQUE_ALPHA,
{
    assert((4 * p) % 4 == 0 && (4 * p) / 4 == p);
    assert((4 * p + 1) % 4 == 1 && (4 * p + 1) / 4 == p);
    assert((4 * p + 2) % 4 == 2 && (4 * p + 2) / 4 == p);
    assert((4 * p + 3) % 4 == 3);
}

/// How many whole grid cells of size `cell` fit across `pixels` pixels:
/// integer (floor) division, fractional leftover pixels belong to no cell.
pub fn cells_that_fit(pixels: u16, cell: u16) -> (n: u16)
    requires
        cell > 0,
    ensures
        n == pixels as int / cell as int,
{
    pixels / cell
}

/// Writes the RGBA conversion of `rgb` over `out` in a single tight pass,
/// with no intermediate allocation.
pub fn copy_rgb_to_rgba(rgb: &[u8], out: &mut Vec<u8>)
    requires
        rgb@.len() % 3 == 0,
        old(out)@.len() == (rgb@.len() / 3) * 4,
    ensures
        final(out)@ == rgba_of(rgb@),
{
    let n_pixels: usize = rgb.len() / 3;
    let total: usize = out.len();
    let mut p: usize = 0;
    while p < n_pixels
        invariant
            rgb@.len() % 3 == 0,
            n_pixels == rgb@.len() / 3,
            3 * n_pixels == rgb@.len(),
            rgb@.len() <= usize::MAX,
            out@.len() == n_pixels * 4,
            n_pixels * 4 == total,
            0 <= p <= n_pixels,
            forall|i: int| 0 <= i < 4 * p ==> out@[i] == rgba_of(rgb@)[i],
        decreases n_pixels - p,
    {
        let r = rgb[3 * p];
        let g = rgb[3 * p + 1];
        let b = rgb[3 * p + 2];
        out[4 * p] = r;
        out[4 * p + 1] = g;
        out[4 * p + 2] = b;
        out[4 * p + 3] = OPAQUE_ALPHA;
        proof {
            lemma_rgba_pixel(rgb@, p as int);
        }
        p = p + 1;
    }
    assert(out@ =~= rgba_of(rgb@));
}

/// Allocates a fresh RGBA image converted from `rgb`.
pub fn rgb_to_rgba(rgb: &[u8]) -> (out: Vec<u8>)
    requires
        rgb@.len() % 3 == 0,
        (rgb@.len() / 3) * 4 <= usize::MAX,
    ensures
        out@ == rgba_of(rgb@),
{
    let n_pixels: usize = rgb.len() / 3;
    let mut out: Vec<u8> = Vec::new();
    let mut p: usize = 0;
    while p < n_pixels
        invariant
            rgb@.len() % 3 == 0,
            n_pixels == rgb@.len() / 3,
            3 * n_pixels == rgb@.len(),
            rgb@.len() <= usize::MAX,
            n_pixels * 4 <= usize::MAX,
            0 <= p <= n_pixels,
            out@.len() == 4 * p,
            forall|i: int| 0 <= i < 4 * p ==> out@[i] == rgba_of(rgb@)[i],
        decreases n_pixels - p,
    {
        out.push(rgb[3 * p]);
        out.push(rgb[3 * p + 1]);
        out.push(rgb[3 * p + 2]);
        out.push(OPAQUE_ALPHA);
        proof {
            lemma_rgba_pixel(rgb@, p as int);
        }
        p = p + 1;
    }
    assert(out@ =~= rgba_of(rgb@));
    out
}

/// The mutable image the bridge publishes to the display pipeline: an RGBA
/// buffer sized to the backend's current pixel dimensions.
pub struct RenderTarget {
    /// Image width in pixels.
    pub width: usize,
    /// Image height in pixels.
    pub height: usize,
    /// RGBA bytes, row-major, 4 bytes per pixel.
    pub data: Vec<u8>,
}

impl RenderTarget {
    /// The image buffer holds exactly 4 bytes for each of its pixels.
    pub open spec fn wf(self) -> bool {
        self.data@.len() == self.width * self.height * 4
    }

    /// Allocates an image of the given pixel dimensions with every byte
    /// fully opaque.
    pub fn new(width: usize, height: usize) -> (t: RenderTarget)
        requires
            width * height * 4 <= usize::MAX,
        ensures
            t.wf(),
            t.width == width,
            t.height == height,
            t.data@ == Seq::new((width * height * 4) as nat, |i: int| OPAQUE_ALPHA),
    {
        let n: usize = width * height;
        let data: Vec<u8> = vec![OPAQUE_ALPHA; 4 * n];
        assert(data@ =~= Seq::new((width * height * 4) as nat, |i: int| OPAQUE_ALPHA));
        RenderTarget { width, height, data }
    }

    /// Allocates an image converted from a backend's RGB pixel buffer: the
    /// startup path of the bridge.
    pub fn new_from_rgb(width: usize, height: usize, rgb: &[u8]) -> (t: RenderTarget)
        requires
            rgb@.len() == width * height * 3,
            width * height * 4 <= usize::MAX,
        ensures
            t.wf(),
            t.width == width,
            t.height == height,
            t.data@ == rgba_of(rgb@),
    {
        proof {
            let n = (width * height) as int;
            assert(rgb@.len() % 3 == 0);
            assert(rgb@.len() / 3 == n);
        }
        let data = rgb_to_rgba(rgb);
        RenderTarget { width, height, data }
    }

    /// The per-tick update: if the backend's pixel dimensions changed,
    /// reallocate the image at the new size (new bytes fully opaque), then
    /// copy the backend's RGB buffer into the image pixel by pixel, forcing
    /// every alpha byte to opaque.
    pub fn update(&mut self, pix_width: usize, pix_height: usize, rgb: &[u8])
        requires
            old(self).wf(),
            rgb@.len() == pix_width * pix_height * 3,
            pix_width * pix_height * 4 <= usize::MAX,
        ensures
            final(self).wf(),
            final(self).width == pix_width,
            final(self).height == pix_height,
            final(self).data@ == rgba_of(rgb@),
    {
        proof {
            let n = (pix_width * pix_height) as int;
            assert(rgb@.len() % 3 == 0);
            assert(rgb@.len() / 3 == n);
        }
        if self.width != pix_width || self.height != pix_height {
            let n: usize = pix_width * pix_height;
            let fresh: Vec<u8> = vec![OPAQUE_ALPHA; 4 * n];
            self.data = fresh;
            self.width = pix_width;
            self.height = pix_height;
        }
        copy_rgb_to_rgba(rgb, &mut self.data);
    }
}

} // verus!
