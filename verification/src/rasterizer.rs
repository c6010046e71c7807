//! The render bridge against the real software rasterizer.
//!
//! Windowed platforms draw the grid with a software terminal backend that
//! rasterizes cells into an RGB pixmap.  The rasterizer itself (fonts,
//! glyph drawing) is outside code; what the bridge relies on — the pixmap's
//! bytes, its dimensions, the fixed cell size, and how a grid resize
//! reshapes it — is stated as trusted contracts over named state, and the
//! bridge's own per-tick update and resize reaction are verified against
//! them.

use vstd::prelude::*;

use crate::render::{cells_that_fit, rgba_of, RenderTarget};

use soft_ratatui::{EmbeddedGraphics, SoftBackend};

verus! {

/// The software terminal backend, held opaquely; its observable state is
/// named by the spec functions below.
#[verifier::external_body]
pub struct SoftRasterizer {
    /// The rasterizing backend; the host draws the grid through it.
    pub inner: SoftBackend<EmbeddedGraphics>,
}

/// The RGB bytes of the rasterizer's pixel buffer, tightly packed, 3 per
/// pixel.
pub uninterp spec fn soft_pixels(b: SoftRasterizer) -> Seq<u8>;

/// The pixel buffer's width in pixels.
pub uninterp spec fn soft_pixel_width(b: SoftRasterizer) -> nat;

/// The pixel buffer's height in pixels.
pub uninterp spec fn soft_pixel_height(b: SoftRasterizer) -> nat;

/// The fixed width of one character cell, in pixels.
pub uninterp spec fn soft_cell_width(b: SoftRasterizer) -> nat;

/// The fixed height of one character cell, in pixels.
pub uninterp spec fn soft_cell_height(b: SoftRasterizer) -> nat;

impl SoftRasterizer {
    /// Relies on SoftBackend::new with the embedded monospaced font: the
    /// cell size is the font's nonzero glyph size, and the pixmap is
    /// allocated at cell size times the given grid size.
    #[verifier::external_body]
    pub fn new(cols: u16, rows: u16) -> (r: SoftRasterizer)
        ensures
            soft_cell_width(r) > 0,
            soft_cell_height(r) > 0,
            soft_pixel_width(r) == soft_cell_width(r) * cols,
            soft_pixel_height(r) == soft_cell_height(r) * rows,
    {
        let font = soft_ratatui::embedded_graphics_unicodefonts::mono_8x13_atlas();
        SoftRasterizer { inner: SoftBackend::<EmbeddedGraphics>::new(cols, rows, font, None, None) }
    }

    /// Relies on SoftBackend::get_pixmap_width: the pixmap's width in
    /// pixels.
    #[verifier::external_body]
    fn pixmap_width(&self) -> (w: usize)
        ensures
            w == soft_pixel_width(*self),
    {
        self.inner.get_pixmap_width()
    }

    /// Relies on SoftBackend::get_pixmap_height: the pixmap's height in
    /// pixels.
    #[verifier::external_body]
    fn pixmap_height(&self) -> (h: usize)
        ensures
            h == soft_pixel_height(*self),
    {
        self.inner.get_pixmap_height()
    }

    /// Relies on SoftBackend::get_pixmap_data: the raw pixmap bytes, which
    /// the pixmap keeps tightly packed at 3 bytes for each of its
    /// width x height pixels.
    #[verifier::external_body]
    fn pixmap_data(&self) -> (r: &[u8])
        ensures
            r@ == soft_pixels(*self),
            r@.len() == soft_pixel_width(*self) * soft_pixel_height(*self) * 3,
    {
        self.inner.get_pixmap_data()
    }

    /// Relies on the backend's public char_width field: the fixed cell
    /// width.
    #[verifier::external_body]
    fn cell_width(&self) -> (w: usize)
        ensures
            w == soft_cell_width(*self),
    {
        self.inner.char_width
    }

    /// Relies on the backend's public char_height field: the fixed cell
    /// height.
    #[verifier::external_body]
    fn cell_height(&self) -> (h: usize)
        ensures
            h == soft_cell_height(*self),
    {
        self.inner.char_height
    }

    /// Relies on SoftBackend::resize: the grid becomes `cols` x `rows`
    /// cells, the pixmap is reallocated at cell size times grid size, and
    /// the cell size itself never changes.
    #[verifier::external_body]
    fn resize_grid(&mut self, cols: u16, rows: u16)
        ensures
            soft_cell_width(*final(self)) == soft_cell_width(*old(self)),
            soft_cell_height(*final(self)) == soft_cell_height(*old(self)),
            soft_pixel_width(*final(self)) == soft_cell_width(*old(self)) * cols,
            soft_pixel_height(*final(self)) == soft_cell_height(*old(self)) * rows,
    {
        self.inner.resize(cols, rows)
    }

    /// A verified snapshot of the pixmap: its pixel dimensions and a copy
    /// of its bytes.
    pub fn pixmap_snapshot(&self) -> (r: (usize, usize, Vec<u8>))
        ensures
            r.0 == soft_pixel_width(*self),
            r.1 == soft_pixel_height(*self),
            r.2@ == soft_pixels(*self),
            r.2@.len() == soft_pixel_width(*self) * soft_pixel_height(*self) * 3,
    {
        let w = self.pixmap_width();
        let h = self.pixmap_height();
        let bytes = vstd::slice::slice_to_vec(self.pixmap_data());
        (w, h, bytes)
    }

    /// The cell width, if it is a count a grid dimension can hold.
    fn cell_width_checked(&self) -> (r: Option<u16>)
        ensures
            match r {
                Some(w) => w == soft_cell_width(*self) && w > 0,
                None => !(0 < soft_cell_width(*self) <= u16::MAX),
            },
    {
        let w = self.cell_width();
        if w == 0 || w > u16::MAX as usize {
            None
        } else {
            Some(w as u16)
        }
    }

    /// The cell height, if it is a count a grid dimension can hold.
    fn cell_height_checked(&self) -> (r: Option<u16>)
        ensures
            match r {
                Some(h) => h == soft_cell_height(*self) && h > 0,
                None => !(0 < soft_cell_height(*self) <= u16::MAX),
            },
    {
        let h = self.cell_height();
        if h == 0 || h > u16::MAX as usize {
            None
        } else {
            Some(h as u16)
        }
    }
}

/// The per-tick bridge update against the real rasterizer: reads the
/// pixmap's current dimensions and bytes and brings the published image in
/// step, reallocating it when the dimensions changed and forcing every
/// alpha byte opaque.  Reports `false`, leaving the image untouched,
/// exactly when the image would not fit addressable memory.
pub fn soft_bridge_tick(target: &mut RenderTarget, soft: &SoftRasterizer) -> (ok: bool)
    requires
        old(target).wf(),
    ensures
        final(target).wf(),
        ok == (soft_pixel_width(*soft) * soft_pixel_height(*soft) * 4 <= usize::MAX),
        ok ==> {
            &&& final(target).width == soft_pixel_width(*soft)
            &&& final(target).height == soft_pixel_height(*soft)
            &&& final(target).data@ == rgba_of(soft_pixels(*soft))
        },
        !ok ==> *final(target) == *old(target),
{
    let w = soft.pixmap_width();
    let h = soft.pixmap_height();
    let area = match w.checked_mul(h) {
        Some(area) => area,
        None => {
            proof {
                assert(w * h * 4 > usize::MAX) by (nonlinear_arith)
                    requires
                        w * h > usize::MAX,
                        w >= 0,
                        h >= 0,
                ;
            }
            return false;
        },
    };
    if area.checked_mul(4).is_none() {
        return false;
    }
    let rgb = soft.pixmap_data();
    target.update(w, h, rgb);
    true
}

/// The resize reaction against the real rasterizer: regrows the grid to as
/// many whole cells as fit the window's new pixel dimensions — integer
/// (floor) division, leftover pixels belong to no cell — which reshapes the
/// pixmap to cell size times the new grid size.  Reports `false`, changing
/// nothing, only for a degenerate cell size (zero, or wider than a grid
/// dimension can count).
pub fn soft_handle_resize(soft: &mut SoftRasterizer, pix_width: u16, pix_height: u16) -> (ok: bool)
    ensures
        ok == (0 < soft_cell_width(*old(soft)) <= u16::MAX && 0 < soft_cell_height(*old(soft))
            <= u16::MAX),
        ok ==> {
            &&& soft_cell_width(*final(soft)) == soft_cell_width(*old(soft))
            &&& soft_cell_height(*final(soft)) == soft_cell_height(*old(soft))
            &&& soft_pixel_width(*final(soft)) == soft_cell_width(*old(soft)) * (
            pix_width as int / soft_cell_width(*old(soft)) as int)
            &&& soft_pixel_height(*final(soft)) == soft_cell_height(*old(soft)) * (
            pix_height as int / soft_cell_height(*old(soft)) as int)
        },
        !ok ==> *final(soft) == *old(soft),
{
    let cw = soft.cell_width_checked();
    let ch = soft.cell_height_checked();
    match (cw, ch) {
        (Some(cw), Some(ch)) => {
            let cols = cells_that_fit(pix_width, cw);
            let rows = cells_that_fit(pix_height, ch);
            soft.resize_grid(cols, rows);
            true
        },
        _ => false,
    }
}

} // verus!
