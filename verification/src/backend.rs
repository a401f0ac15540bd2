//! The handle types of the GPU API that the resources of this library carry.

use vstd::prelude::*;

verus! {

/// Names the types by which a GPU API hands out its objects. The library
/// keeps such handles in its resources and never looks inside them.
pub trait Backend {
    /// The connection to the GPU.
    type Device;

    /// The queue that takes finished command buffers.
    type Queue;

    /// A surface that frames are presented on.
    type Surface;

    /// The images that are presented on a surface in turn.
    type SwapChain;

    /// The texture a surface hands out for one frame.
    type SurfaceTexture;

    type Texture;

    type TextureView;

    /// The texel format of a texture, as the GPU API names it.
    type TextureFormat: Copy;

    type Buffer;

    type Sampler;

    type BindGroup;

    type BindGroupLayout;

    type RenderPipeline;

    type ShaderModule;

    type CommandEncoder;
}

} // verus!
