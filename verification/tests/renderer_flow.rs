use quadview::render_target::{CopyPlan, PixelFormat, RenderTarget, SwapchainTarget, TextureTarget};
use quadview::renderer::{State, TextureError, CACHE_HEIGHT, CACHE_WIDTH};

#[test]
fn render_submits_once_until_dirtied_again() {
    let mut s = State::new((512, 512), TextureTarget::new());
    assert!(s.is_dirty());
    let first = s.render();
    assert!(first.is_some());
    assert!(!s.is_dirty());
    // A second render with no intervening mutator submits nothing.
    let second = s.render();
    assert!(second.is_none());
    assert!(!s.is_dirty());
    // A mutator re-dirties, and render submits exactly once more.
    s.update_position((1, 1));
    assert!(s.is_dirty());
    assert!(s.render().is_some());
    assert!(s.render().is_none());
}

#[test]
fn frame_plan_carries_fixed_draw_parameters() {
    let mut s = State::new((512, 512), SwapchainTarget::new(PixelFormat::Bgra8Unorm));
    let plan = s.render().unwrap();
    assert_eq!(plan.vertices.len(), 4);
    assert_eq!(plan.index_count, 6);
    assert_eq!(plan.clear_color, (0, 0, 0, 255));
    // A presentable target appends no post-draw commands.
    assert_eq!(plan.post_copy, None);
}

#[test]
fn offscreen_target_appends_copy() {
    let mut s = State::new((800, 600), TextureTarget::new());
    let plan = s.render().unwrap();
    assert_eq!(
        plan.post_copy,
        Some(CopyPlan { bytes_per_row: 3200, rows_per_image: 600, width: 800, height: 600 })
    );
}

#[test]
fn resize_recreates_target_and_viewport() {
    let mut s = State::new((512, 512), TextureTarget::new());
    assert!(s.render().is_some());
    s.resize((800, 600));
    // The target reports the new size, and the staging buffer matches.
    assert_eq!(s.target.size, Some((800, 600)));
    assert_eq!(s.target.buffer_size, Some(800 * 600 * 4));
    assert!(s.is_dirty());
    // The next frame's vertices are consistent with an 800x600
    // viewport: the fresh 1x1 image under Fit(1.0) scales by 600 and is
    // centered, so corner (0,0) maps to pixel (100,0): clip (-3/4, 1);
    // corner (1,1) maps to pixel (700,600): clip (3/4, -1).
    let plan = s.render().unwrap();
    let v = &plan.vertices;
    assert_eq!(4 * v[0].position.0.n, -3 * v[0].position.0.d);
    assert_eq!(v[0].position.1.n, v[0].position.1.d);
    assert_eq!(4 * v[2].position.0.n, 3 * v[2].position.0.d);
    assert_eq!(v[2].position.1.n, -v[2].position.1.d);
}

#[test]
fn swap_image_rejects_oversized_dims() {
    let mut s = State::new((512, 512), TextureTarget::new());
    assert!(s.render().is_some());
    let pixels = vec![0u8; 4 * 2048 * 2048];
    let r = s.swap_image(&pixels, (2048, 2048));
    assert_eq!(r, Err(TextureError::CapacityExceeded));
    // Prior state is unchanged: geometry still sized to the old image,
    // and no redraw was scheduled.
    assert_eq!(s.quad.image_size, (1, 1));
    assert_eq!(s.quad.texture_size, (1, 1));
    assert!(!s.is_dirty());
    // One dimension over the cache is enough to be rejected.
    let tall = vec![0u8; 4 * 10 * 1025];
    assert_eq!(s.swap_image(&tall, (10, 1025)), Err(TextureError::CapacityExceeded));
}

#[test]
fn swap_image_uploads_into_cache() {
    let mut s = State::new((512, 512), TextureTarget::new());
    assert!(s.render().is_some());
    let pixels = vec![0u8; 4 * 200 * 100];
    let up = s.swap_image(&pixels, (200, 100)).unwrap();
    assert_eq!(up.offset, 0);
    assert_eq!(up.bytes_per_row, 800);
    assert_eq!(up.rows_per_image, 100);
    assert_eq!(up.width, 200);
    assert_eq!(up.height, 100);
    assert_eq!(s.quad.image_size, (200, 100));
    assert_eq!(s.quad.texture_size, (CACHE_WIDTH, CACHE_HEIGHT));
    assert!(s.is_dirty());
}

#[test]
fn swap_image_accepts_full_cache() {
    let mut s = State::new((512, 512), TextureTarget::new());
    let pixels = vec![0u8; 4 * 1024 * 1024];
    let up = s.swap_image(&pixels, (CACHE_WIDTH, CACHE_HEIGHT)).unwrap();
    assert_eq!(up.bytes_per_row, 4 * CACHE_WIDTH);
    assert_eq!(s.quad.image_size, (CACHE_WIDTH, CACHE_HEIGHT));
}

#[test]
fn mutators_mark_dirty() {
    let mut s = State::new((512, 512), SwapchainTarget::new(PixelFormat::Bgra8Unorm));
    assert!(s.render().is_some());
    s.update_zoom((0, 10));
    assert!(s.is_dirty());
    assert!(s.render().is_some());
    s.clear_anchor();
    assert!(s.is_dirty());
    assert_eq!(s.view.anchor, None);
}

#[test]
fn target_variants_report_formats_and_surfaces() {
    let mut sw = SwapchainTarget::new(PixelFormat::Bgra8Unorm);
    assert!(sw.compatible_surface());
    sw.create((64, 64));
    assert_eq!(sw.format(), PixelFormat::Bgra8Unorm);
    assert_eq!(sw.on_render(), None);
    assert_eq!(sw.size, Some((64, 64)));

    let mut tx = TextureTarget::new();
    assert!(!tx.compatible_surface());
    tx.create((64, 32));
    assert_eq!(tx.format(), PixelFormat::Rgba8UnormSrgb);
    assert_eq!(tx.buffer_size, Some(64 * 32 * 4));
    assert_eq!(
        tx.on_render(),
        Some(CopyPlan { bytes_per_row: 256, rows_per_image: 32, width: 64, height: 32 })
    );
}
