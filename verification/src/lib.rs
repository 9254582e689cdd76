//! Integer and index logic of a small software rasteriser that draws a
//! solar system: colour packing and blending, the bounded particle trails
//! that follow each body, the primitive-assembly and line-index stages of
//! the pipeline, and the keyboard decisions of the free-flight camera.

pub mod color;
pub mod planet;
pub mod trail;
pub mod render;
pub mod input;
