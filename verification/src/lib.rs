//! Layout, scrolling and animation logic of gpui's uniform list,
//! matched-geometry, GPU-canvas and video-surface elements, and the text
//! rules of the cross-platform test macros.
pub mod element_id;
pub mod geometry;
pub mod gpu_canvas;
pub mod list_animation;
pub mod matched_geometry;
pub mod platform_text;
pub mod scroll;
pub mod surface;
pub mod surface_import;
pub mod uniform_list;
