//! Text rendering core: a glyph atlas built from a rasterised font, the
//! layout of strings into textured quads, the window/projection state
//! machine, and the outcome rules of shader compilation.

pub mod atlas;
pub mod layout;
pub mod raster;
pub mod shader;
pub mod viewport;
