//! A pan/zoom image viewer core: exact rational view-transform math,
//! pointer-gesture state, quad geometry, and a dirty-flag render state
//! machine that drives presentable and offscreen render targets.

pub mod frac;
pub mod render_target;
pub mod renderer;
pub mod transform;
pub mod vertex;
pub mod view_state;
