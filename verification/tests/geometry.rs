use quadview::frac::Frac;
use quadview::vertex::{Quad, DIM_MAX};
use quadview::view_state::ViewState;

#[test]
fn test() {
    let mut state = ViewState::new();
    state.set_anchor((256, 256));
    state.set_position((0, 0));
    let mut q = Quad::new();
    q.set_viewport_size((512, 512));
    q.map_texture_coords((512, 512), (1024, 1024));
    let v = q.get_vertex(&state);
    assert_eq!(v.len(), 4);
    // Pan is (-256, -256), zoom is Fit(1.0) on a 512x512 image in a
    // 512x512 viewport: corner (0,0) lands at viewport (-256,-256),
    // which is clip (-2, 2); corner (1,1) lands at (256,256), clip (0,0).
    assert_eq!(v[0].position.0.n, -2 * v[0].position.0.d);
    assert_eq!(v[0].position.1.n, 2 * v[0].position.1.d);
    assert_eq!(v[2].position.0.n, 0);
    assert_eq!(v[2].position.1.n, 0);
}

#[test]
fn fit_zoom_centers_image() {
    // image 512x512, viewport 512x512, zoom Fit(1.0), pan (0,0):
    // the image center (256,256) maps to the viewport center (256,256).
    let state = ViewState::new();
    let mut q = Quad::new();
    q.set_viewport_size((512, 512));
    q.map_texture_coords((512, 512), (1024, 1024));
    let t = q.compute_image_to_screen(&state);
    let c = t.transform_vertex(&Frac::new(256, 1), &Frac::new(256, 1));
    assert_eq!(c.0.n, 256 * c.0.d);
    assert_eq!(c.1.n, 256 * c.1.d);
}

#[test]
fn fit_zoom_centers_tall_image() {
    // A 100x400 image in an 800x400 viewport fits by height (scale 1);
    // its center (50,200) maps to the viewport center (400,200).
    let state = ViewState::new();
    let mut q = Quad::new();
    q.set_viewport_size((800, 400));
    q.map_texture_coords((100, 400), (1024, 1024));
    let t = q.compute_image_to_screen(&state);
    let c = t.transform_vertex(&Frac::new(50, 1), &Frac::new(200, 1));
    assert_eq!(c.0.n, 400 * c.0.d);
    assert_eq!(c.1.n, 200 * c.1.d);
}

#[test]
fn texture_coords_scale_to_cache_fraction() {
    let mut q = Quad::new();
    q.map_texture_coords((200, 100), (1024, 1024));
    // Corner 2 carried texture coordinate (1,1): now (200/1024, 100/1024).
    assert_eq!(q.vertices[2].tex_coords.0.n, 200);
    assert_eq!(q.vertices[2].tex_coords.0.d, 1024);
    assert_eq!(q.vertices[2].tex_coords.1.n, 100);
    assert_eq!(q.vertices[2].tex_coords.1.d, 1024);
    // Positions are rescaled to image pixels.
    assert_eq!(q.vertices[2].position.0.n, 200);
    assert_eq!(q.vertices[2].position.0.d, 1);
    assert_eq!(q.vertices[2].position.1.n, 100);
    // Corner 0 stays at the origin.
    assert_eq!(q.vertices[0].position.0.n, 0);
    assert_eq!(q.vertices[0].tex_coords.0.n, 0);
    assert_eq!(q.image_size, (200, 100));
    assert_eq!(q.texture_size, (1024, 1024));
}

#[test]
fn quad_counts_and_indices() {
    let q = Quad::new();
    assert_eq!(q.vertex_count(), 4);
    assert_eq!(q.index_count(), 6);
    assert_eq!(q.index_ref().as_slice(), &[0u16, 1, 2, 0, 2, 3]);
}

#[test]
fn with_init_sets_viewport() {
    let q = Quad::with_init((640, 480));
    assert_eq!(q.viewport_size, (640, 480));
    assert_eq!(q.image_size, (1, 1));
    let q2 = Quad::with_init((DIM_MAX, DIM_MAX));
    assert_eq!(q2.viewport_size, (DIM_MAX, DIM_MAX));
}

#[test]
fn pixel_zoom_maps_pixels_directly() {
    // Pixel(2.0): one image pixel is two viewport pixels; a 100x100
    // image in a 400x400 viewport is centered, so corner (0,0) lands at
    // (100,100) viewport pixels: clip (-1/2, 1/2).
    let mut state = ViewState::new();
    state.set_zoom_mode(quadview::view_state::Zoom::Pixel(512));
    let mut q = Quad::new();
    q.set_viewport_size((400, 400));
    q.map_texture_coords((100, 100), (1024, 1024));
    let v = q.get_vertex(&state);
    assert_eq!(2 * v[0].position.0.n, -v[0].position.0.d);
    assert_eq!(2 * v[0].position.1.n, v[0].position.1.d);
}
