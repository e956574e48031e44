//! Appearance logic of a workspace window: how see-through each part of the
//! window is, and how large a floating panel is drawn.

pub mod calls;
pub mod color;
pub mod floating_panel;
pub mod laws;
pub mod outcomes;
pub mod rounding;
pub mod sections;
pub mod text;
pub mod theme;
pub mod transparency_blur;
