use neonex::rasterizer::{soft_bridge_tick, soft_handle_resize, SoftRasterizer};
use neonex::render::RenderTarget;

#[test]
fn rasterizer_reports_cell_times_grid_pixels() {
    let soft = SoftRasterizer::new(4, 2);
    let (width, height, bytes) = soft.pixmap_snapshot();
    // The embedded monospaced font has a fixed nonzero glyph size, so the
    // pixmap is an exact multiple of the grid size.
    assert!(width > 0 && height > 0);
    assert_eq!(width % 4, 0);
    assert_eq!(height % 2, 0);
    assert_eq!(bytes.len(), width * height * 3);
}

#[test]
fn bridge_tick_converts_the_real_pixmap() {
    let soft = SoftRasterizer::new(3, 2);
    let (width, height, rgb) = soft.pixmap_snapshot();
    let mut target = RenderTarget::new(1, 1);
    assert!(soft_bridge_tick(&mut target, &soft));
    assert_eq!(target.width, width);
    assert_eq!(target.height, height);
    assert_eq!(target.data.len(), width * height * 4);
    for p in 0..width * height {
        for c in 0..3 {
            assert_eq!(target.data[4 * p + c], rgb[3 * p + c]);
        }
        assert_eq!(target.data[4 * p + 3], 255);
    }
}

#[test]
fn window_resize_floors_to_whole_cells() {
    let mut soft = SoftRasterizer::new(4, 2);
    let (w0, h0, _) = soft.pixmap_snapshot();
    let cell_width = w0 / 4;
    let cell_height = h0 / 2;
    assert!(soft_handle_resize(&mut soft, 100, 100));
    let (width, height, bytes) = soft.pixmap_snapshot();
    assert_eq!(width, cell_width * (100 / cell_width));
    assert_eq!(height, cell_height * (100 / cell_height));
    assert_eq!(bytes.len(), width * height * 3);
}
