//! Buffers on the GPU and off-screen render targets.

use crate::backend::Backend;
use crate::binding::{Bind, BindGroupEntry, BindingResource, BufferBinding};
use crate::pipeline::TextureFormat;
use crate::texture::Texture;
use std::ops::Range;
use vstd::prelude::*;

verus! {

/// Z-Depth buffer.
pub struct DepthBuffer<B: Backend> {
    pub texture: Texture<B>,
}

impl<B: Backend> DepthBuffer<B> {
    /// The texel format of every depth buffer.
    pub fn format() -> (format: TextureFormat)
        ensures
            format == TextureFormat::Depth32Float,
    {
        TextureFormat::Depth32Float
    }
}

/// Another name for the depth buffer.
pub type ZBuffer<B> = DepthBuffer<B>;

/// Off-screen framebuffer. Can be used as a render target in render passes.
pub struct Framebuffer<B: Backend> {
    pub texture: Texture<B>,
    pub depth: DepthBuffer<B>,
}

impl<B: Backend> Framebuffer<B> {
    /// Size in pixels of the framebuffer.
    pub fn size(&self) -> (pixels: usize)
        requires
            self.texture.size.spec_area() <= usize::MAX,
        ensures
            pixels == self.texture.size.spec_area(),
    {
        self.texture.size.texels()
    }

    /// Framebuffer width, in pixels.
    pub fn width(&self) -> (width: u32)
        ensures
            width == self.texture.size.width,
    {
        self.texture.size.width
    }

    /// Framebuffer height, in pixels.
    pub fn height(&self) -> (height: u32)
        ensures
            height == self.texture.size.height,
    {
        self.texture.size.height
    }
}

impl<B: Backend> Bind<B> for Framebuffer<B> {
    open spec fn bindable(&self) -> bool {
        true
    }

    open spec fn resource(&self) -> BindingResource<'_, B> {
        BindingResource::TextureView(&self.texture.view)
    }

    fn binding(&self, index: u32) -> (entry: BindGroupEntry<'_, B>) {
        BindGroupEntry { binding: index, resource: BindingResource::TextureView(&self.texture.view) }
    }
}

impl<B: Backend> Bind<B> for Texture<B> {
    open spec fn bindable(&self) -> bool {
        true
    }

    open spec fn resource(&self) -> BindingResource<'_, B> {
        BindingResource::TextureView(&self.view)
    }

    fn binding(&self, index: u32) -> (entry: BindGroupEntry<'_, B>) {
        BindGroupEntry { binding: index, resource: BindingResource::TextureView(&self.view) }
    }
}

impl<B: Backend> From<Framebuffer<B>> for Texture<B> {
    fn from(fb: Framebuffer<B>) -> (texture: Self) {
        fb.texture
    }
}

impl<B: Backend> vstd::std_specs::convert::FromSpecImpl<Framebuffer<B>> for Texture<B> {
    open spec fn obeys_from_spec() -> bool {
        true
    }

    open spec fn from_spec(fb: Framebuffer<B>) -> Self {
        fb.texture
    }
}

/// A uniform buffer that can be bound in a 'BindingGroup'. It holds
/// `count` values of `size` bytes each.
pub struct UniformBuffer<B: Backend> {
    pub wgpu: B::Buffer,
    pub size: usize,
    pub count: usize,
}

impl<B: Backend> UniformBuffer<B> {
    /// The number of bytes the buffer holds.
    pub open spec fn spec_byte_len(&self) -> int {
        self.size * self.count
    }

    /// The number of bytes the buffer holds.
    pub fn byte_len(&self) -> (bytes: u64)
        requires
            self.spec_byte_len() <= usize::MAX,
        ensures
            bytes == self.spec_byte_len(),
    {
        (self.size * self.count) as u64
    }
}

impl<B: Backend> Bind<B> for UniformBuffer<B> {
    /// The length of the buffer in bytes must be a number the machine can
    /// hold.
    open spec fn bindable(&self) -> bool {
        self.spec_byte_len() <= usize::MAX
    }

    /// The whole buffer from its start; an empty buffer is bound without a
    /// size.
    open spec fn resource(&self) -> BindingResource<'_, B> {
        BindingResource::Buffer(
            BufferBinding {
                buffer: &self.wgpu,
                offset: 0,
                size: if self.spec_byte_len() == 0 {
                    None
                } else {
                    Some(self.spec_byte_len() as u64)
                },
            },
        )
    }

    fn binding(&self, index: u32) -> (entry: BindGroupEntry<'_, B>) {
        let bytes: u64 = self.byte_len();
        BindGroupEntry {
            binding: index,
            resource: BindingResource::Buffer(
                BufferBinding {
                    buffer: &self.wgpu,
                    offset: 0,
                    size: if bytes == 0 {
                        None
                    } else {
                        Some(bytes)
                    },
                },
            ),
        }
    }
}

/// A buffer of vertices, `size` bytes long.
pub struct VertexBuffer<B: Backend> {
    pub size: u32,
    pub wgpu: B::Buffer,
}

impl<B: Backend> VertexBuffer<B> {
    /// The bytes of the buffer that are drawn from: all of them.
    pub fn slice(&self) -> (bytes: Range<u64>)
        ensures
            bytes.start == 0,
            bytes.end == self.size,
    {
        0..self.size as u64
    }
}

/// A buffer of `elements` 16-bit indices.
pub struct IndexBuffer<B: Backend> {
    pub wgpu: B::Buffer,
    pub elements: u32,
}

impl<B: Backend> IndexBuffer<B> {
    /// The bytes of the buffer that are drawn from: two for each index.
    pub fn slice(&self) -> (bytes: Range<u64>)
        requires
            self.elements * 2 <= usize::MAX,
        ensures
            bytes.start == 0,
            bytes.end == self.elements * 2,
    {
        broadcast use vstd::layout::layout_of_primitives;

        0..(self.elements as usize * std::mem::size_of::<u16>()) as u64
    }
}

} // verus!
