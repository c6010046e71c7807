use neonex::backend::{BackendKind, OutputBackend, RasterDevice};
use neonex::bridge::{bridge_startup, bridge_tick};
use neonex::errors::SessionError;

#[test]
fn backend_kinds_match_variants() {
    assert_eq!(OutputBackend::Native.kind(), BackendKind::NativeDisplay);
    assert_eq!(OutputBackend::Null.kind(), BackendKind::Null);
    let b = RasterDevice::new(15, 15, 10, 10);
    assert_eq!(OutputBackend::Raster(b).kind(), BackendKind::RasterPixels);
}

#[test]
fn bridge_rejects_backends_without_pixels() {
    assert!(matches!(bridge_startup(&OutputBackend::Native), Err(SessionError::BackendMismatch)));
    assert!(matches!(bridge_startup(&OutputBackend::Null), Err(SessionError::BackendMismatch)));
}

#[test]
fn resize_reaction_scenario_end_to_end() {
    // The backend reports a 150x150 pixel surface at a 15x15 cell size:
    // a 10x10 grid.
    let mut backend = RasterDevice::new(15, 15, 10, 10);
    assert_eq!(backend.pixel_width(), 150);
    assert_eq!(backend.pixel_height(), 150);

    let target = bridge_startup(&OutputBackend::Raster(backend)).unwrap();
    assert_eq!(target.width, 150);
    assert_eq!(target.height, 150);
    assert_eq!(target.data.len(), 150 * 150 * 4);

    // A resize to 300x150 pixels regrows the grid to 20x10 cells.
    backend = RasterDevice::new(15, 15, 10, 10);
    backend.resize_to_pixels(300, 150);
    assert_eq!(backend.cols, 20);
    assert_eq!(backend.rows, 10);
    assert_eq!(backend.pixel_width(), 300);
    assert_eq!(backend.pixel_height(), 150);

    // The next tick reallocates the image to match and re-copies every
    // pixel with the alpha channel forced opaque.
    let mut rendered: Vec<u8> = Vec::new();
    for i in 0..300usize * 150 * 3 {
        rendered.push((i % 251) as u8);
    }
    backend.set_pixels(rendered.clone());

    let mut target = bridge_startup(&OutputBackend::Raster(RasterDevice::new(15, 15, 10, 10)))
        .unwrap();
    bridge_tick(&mut target, &backend);
    assert_eq!(target.width, 300);
    assert_eq!(target.height, 150);
    assert_eq!(target.data.len(), 300 * 150 * 4);
    for p in 0..300 * 150 {
        for c in 0..3 {
            assert_eq!(target.data[4 * p + c], rendered[3 * p + c]);
        }
        assert_eq!(target.data[4 * p + 3], 255);
    }
}

#[test]
fn fractional_pixels_remain_unused() {
    let mut backend = RasterDevice::new(15, 15, 1, 1);
    backend.resize_to_pixels(1204, 809);
    assert_eq!(backend.cols, 80);
    assert_eq!(backend.rows, 53);
    assert_eq!(backend.pixel_width(), 1200);
    assert_eq!(backend.pixel_height(), 795);
}

#[test]
fn set_pixels_replaces_the_buffer() {
    let mut backend = RasterDevice::new(2, 2, 1, 1);
    let fresh = vec![7u8; 2 * 2 * 3];
    backend.set_pixels(fresh.clone());
    assert_eq!(backend.pixels, fresh);
}
