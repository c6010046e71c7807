//! Wiring the render bridge to the active backend.
//!
//! The bridge is only active for raster backends: at startup it allocates
//! the published image from the backend's pixel buffer, and each tick it
//! brings the image back in step with the buffer, reallocating on a size
//! change.  Asking for the bridge on a backend without pixel output is a
//! programmer error and fails fast at construction.

use vstd::prelude::*;

use crate::backend::{OutputBackend, RasterDevice};
use crate::errors::SessionError;
use crate::render::{rgba_of, RenderTarget};

verus! {

/// Starts the render bridge for the active backend: reads the pixel
/// dimensions, allocates the image in the display's color format, and fills
/// it from the current pixel buffer.  A backend without raster output is
/// rejected with `BackendMismatch`.
pub fn bridge_startup(backend: &OutputBackend) -> (r: Result<RenderTarget, SessionError>)
    requires
        backend.wf(),
        backend matches OutputBackend::Raster(b) ==> b.pixel_width_spec() * b.pixel_height_spec()
            * 4 <= usize::MAX,
    ensures
        match r {
            Ok(t) => {
                &&& backend matches OutputBackend::Raster(b)
                &&& t.wf()
                &&& t.width == b.pixel_width_spec()
                &&& t.height == b.pixel_height_spec()
                &&& t.data@ == rgba_of(b.pixels@)
            },
            Err(e) => e is BackendMismatch && !(backend is Raster),
        },
{
    match backend {
        OutputBackend::Raster(b) => {
            let w = b.pixel_width();
            let h = b.pixel_height();
            proof {
                assert(b.pixels@.len() == (w * h) as int * 3);
            }
            Ok(RenderTarget::new_from_rgb(w, h, b.pixels.as_slice()))
        },
        _ => Err(SessionError::BackendMismatch),
    }
}

/// The per-tick bridge update: reads the backend's current pixel
/// dimensions, reallocates the image if they changed, and copies the pixel
/// buffer into the image with every alpha byte forced opaque.
pub fn bridge_tick(target: &mut RenderTarget, backend: &RasterDevice)
    requires
        old(target).wf(),
        backend.wf(),
        backend.pixel_width_spec() * backend.pixel_height_spec() * 4 <= usize::MAX,
    ensures
        final(target).wf(),
        final(target).width == backend.pixel_width_spec(),
        final(target).height == backend.pixel_height_spec(),
        final(target).data@ == rgba_of(backend.pixels@),
{
    let w = backend.pixel_width();
    let h = backend.pixel_height();
    proof {
        assert(backend.pixels@.len() == (w * h) as int * 3);
    }
    target.update(w, h, backend.pixels.as_slice());
}

} // verus!
