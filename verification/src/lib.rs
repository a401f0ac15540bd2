//! An ergonomic layer over a GPU API, kept apart from the GPU itself.
//!
//! The library holds the typed resources of a small renderer (devices,
//! textures, buffers, binding groups, pipelines, frames) and works out what
//! the GPU is to be asked for: the descriptors of what is created, the
//! layout of vertices and bindings, and the arithmetic of copying texels.
//! Each function states what it returns. The handles of the GPU API are
//! carried in the resources as the types that a [`backend::Backend`] names;
//! the calls that create, copy and draw are made by the crate that names
//! them.

pub mod backend;
pub mod binding;
pub mod buffers;
pub mod color;
pub mod device;
pub mod error;
pub mod frame;
pub mod geometry;
pub mod pipeline;
pub mod renderer;
pub mod sampler;
pub mod shape;
pub mod swapchain;
pub mod texture;
pub mod transform;
pub mod vertex;
