//! The output backends: devices that turn a character grid into visible
//! output.
//!
//! A backend is selected once at startup and carries a capability tag: it
//! either drives a real text-mode device natively, exposes an RGB pixel
//! buffer for software rasterization, or discards everything (the test
//! double).  The raster variant is modeled by its observable state: fixed
//! per-character cell size, current grid size, and the rendered pixel
//! buffer; the rasterizer that fills the buffer runs outside and hands its
//! output in as plain bytes.

use vstd::prelude::*;

use crate::render::cells_that_fit;

verus! {

/// The capability tag of an output backend variant.
#[derive(Clone, Copy, Debug, PartialEq, Eq, Structural)]
pub enum BackendKind {
    /// The device has its own text mode and displays the grid natively.
    NativeDisplay,
    /// The device exposes an RGB pixel buffer for software rasterization.
    RasterPixels,
    /// The device discards all output.
    Null,
}

/// A backend that renders the grid into an RGB pixel buffer instead of
/// driving a real terminal device.
pub struct RasterDevice {
    /// Fixed width of one character cell, in pixels.
    pub cell_width: u16,
    /// Fixed height of one character cell, in pixels.
    pub cell_height: u16,
    /// Current number of grid columns.
    pub cols: u16,
    /// Current number of grid rows.
    pub rows: u16,
    /// The rendered grid as tightly packed RGB bytes, 3 per pixel.
    pub pixels: Vec<u8>,
}

/// The product of two 16-bit values fits comfortably below any `usize` bound.
proof fn lemma_u16_mul_fits(a: int, b: int)
    requires
        0 <= a <= 65535,
        0 <= b <= 65535,
    ensures
        0 <= a * b <= 0xfffe0001,
{
    assert(0 <= a * b <= 0xfffe0001) by (nonlinear_arith)
        requires
            0 <= a <= 65535,
            0 <= b <= 65535,
    ;
}

impl RasterDevice {
    /// Pixel width of the buffer: every column is `cell_width` pixels wide.
    pub open spec fn pixel_width_spec(self) -> int {
        self.cols * self.cell_width
    }

    /// Pixel height of the buffer: every row is `cell_height` pixels tall.
    pub open spec fn pixel_height_spec(self) -> int {
        self.rows * self.cell_height
    }

    /// Cell dimensions are nonzero and the buffer holds exactly 3 bytes per
    /// pixel of the current grid's pixel area.
    pub open spec fn wf(self) -> bool {
        &&& self.cell_width >= 1
        &&& self.cell_height >= 1
        &&& self.pixels@.len() == self.pixel_width_spec() * self.pixel_height_spec() * 3
    }

    /// Allocates a backend with the given cell size and grid size, its
    /// buffer cleared to black.
    pub fn new(cell_width: u16, cell_height: u16, cols: u16, rows: u16) -> (b: RasterDevice)
        requires
            cell_width >= 1,
            cell_height >= 1,
            (cols * cell_width) * (rows * cell_height) * 3 <= usize::MAX,
        ensures
            b.wf(),
            b.cell_width == cell_width,
            b.cell_height == cell_height,
            b.cols == cols,
            b.rows == rows,
            forall|i: int| 0 <= i < b.pixels@.len() ==> b.pixels@[i] == 0u8,
    {
        proof {
            lemma_u16_mul_fits(cols as int, cell_width as int);
            lemma_u16_mul_fits(rows as int, cell_height as int);
        }
        let pw: usize = cols as usize * cell_width as usize;
        let ph: usize = rows as usize * cell_height as usize;
        proof {
            assert(pw * ph * 3 <= usize::MAX);
        }
        let area: usize = pw * ph;
        let pixels: Vec<u8> = vec![0u8; area * 3];
        RasterDevice { cell_width, cell_height, cols, rows, pixels }
    }

    /// Pixel width of the buffer.
    pub fn pixel_width(&self) -> (w: usize)
        requires
            self.wf(),
        ensures
            w == self.pixel_width_spec(),
    {
        proof {
            lemma_u16_mul_fits(self.cols as int, self.cell_width as int);
        }
        self.cols as usize * self.cell_width as usize
    }

    /// Pixel height of the buffer.
    pub fn pixel_height(&self) -> (h: usize)
        requires
            self.wf(),
        ensures
            h == self.pixel_height_spec(),
    {
        proof {
            lemma_u16_mul_fits(self.rows as int, self.cell_height as int);
        }
        self.rows as usize * self.cell_height as usize
    }

    /// Resizes the grid to `cols` x `rows` cells and reallocates the pixel
    /// buffer at the matching size, cleared to black; the cell size is
    /// fixed for the life of the backend.
    pub fn resize(&mut self, cols: u16, rows: u16)
        requires
            old(self).wf(),
            (cols * old(self).cell_width) * (rows * old(self).cell_height) * 3 <= usize::MAX,
        ensures
            final(self).wf(),
            final(self).cell_width == old(self).cell_width,
            final(self).cell_height == old(self).cell_height,
            final(self).cols == cols,
            final(self).rows == rows,
            forall|i: int| 0 <= i < final(self).pixels@.len() ==> final(self).pixels@[i] == 0u8,
    {
        proof {
            lemma_u16_mul_fits(cols as int, self.cell_width as int);
            lemma_u16_mul_fits(rows as int, self.cell_height as int);
        }
        let pw: usize = cols as usize * self.cell_width as usize;
        let ph: usize = rows as usize * self.cell_height as usize;
        proof {
            assert(pw * ph * 3 <= usize::MAX);
        }
        let area: usize = pw * ph;
        let fresh: Vec<u8> = vec![0u8; area * 3];
        self.cols = cols;
        self.rows = rows;
        self.pixels = fresh;
    }

    /// Resizes the grid to as many whole cells as fit the given pixel
    /// dimensions: integer (floor) division, leftover pixels stay blank.
    /// This is the only path that changes grid dimensions.
    pub fn resize_to_pixels(&mut self, pix_width: u16, pix_height: u16)
        requires
            old(self).wf(),
            (pix_width as int) * (pix_height as int) * 3 <= usize::MAX,
        ensures
            final(self).wf(),
            final(self).cell_width == old(self).cell_width,
            final(self).cell_height == old(self).cell_height,
            final(self).cols == pix_width as int / old(self).cell_width as int,
            final(self).rows == pix_height as int / old(self).cell_height as int,
            forall|i: int| 0 <= i < final(self).pixels@.len() ==> final(self).pixels@[i] == 0u8,
    {
        let cols = cells_that_fit(pix_width, self.cell_width);
        let rows = cells_that_fit(pix_height, self.cell_height);
        proof {
            let cw = self.cell_width as int;
            let ch = self.cell_height as int;
            let w = pix_width as int;
            let h = pix_height as int;
            assert(cols * cw <= w && rows * ch <= h) by (nonlinear_arith)
                requires
                    cols == w / cw,
                    rows == h / ch,
                    cw >= 1,
                    ch >= 1,
                    w >= 0,
                    h >= 0,
            ;
            assert((cols * cw) * (rows * ch) * 3 <= w * h * 3) by (nonlinear_arith)
                requires
                    0 <= cols * cw <= w,
                    0 <= rows * ch <= h,
            ;
        }
        self.resize(cols, rows);
    }

    /// Replaces the pixel buffer with freshly rasterized bytes of the same
    /// dimensions.
    pub fn set_pixels(&mut self, data: Vec<u8>)
        requires
            old(self).wf(),
            data@.len() == old(self).pixel_width_spec() * old(self).pixel_height_spec() * 3,
        ensures
            final(self).wf(),
            final(self).cell_width == old(self).cell_width,
            final(self).cell_height == old(self).cell_height,
            final(self).cols == old(self).cols,
            final(self).rows == old(self).rows,
            final(self).pixels@ == data@,
    {
        self.pixels = data;
    }
}

/// The runtime-selected output device: one variant per capability.
pub enum OutputBackend {
    /// A real terminal device that displays the grid natively.
    Native,
    /// A software-rasterized device exposing an RGB pixel buffer.
    Raster(RasterDevice),
    /// A device that discards all output.
    Null,
}

impl OutputBackend {
    /// A raster backend must carry a well-formed pixel buffer.
    pub open spec fn wf(self) -> bool {
        match self {
            OutputBackend::Raster(r) => r.wf(),
            _ => true,
        }
    }

    /// The capability tag of the active variant.
    pub fn kind(&self) -> (k: BackendKind)
        ensures
            k == (match self {
                OutputBackend::Native => BackendKind::NativeDisplay,
                OutputBackend::Raster(_) => BackendKind::RasterPixels,
                OutputBackend::Null => BackendKind::Null,
            }),
    {
        match self {
            OutputBackend::Native => BackendKind::NativeDisplay,
            OutputBackend::Raster(_) => BackendKind::RasterPixels,
            OutputBackend::Null => BackendKind::Null,
        }
    }
}

} // verus!
