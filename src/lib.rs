//! Rendering of GPU compute kernels into WGSL source text.
//!
//! `ir` holds the kernel model, `text` the string helpers, `render` the
//! renderer and its specification, `laws` the properties proved of the
//! rendered text, and `ident` the feature-name formatter.
pub mod ident;
pub mod ir;
pub mod laws;
pub mod render;
pub mod text;

pub use ident::{lower_dash, LowerDash};
pub use ir::{
    Binding, ComputeShader, Elem, Item, LocalArray, Location, SharedMemory, Visibility,
    WorkgroupSize,
};
