//! What a device is asked to create: descriptors of textures, buffers,
//! binding group layouts and surfaces, worked out from what the caller
//! gives.

use crate::backend::Backend;
use crate::binding::{
    layout_entries, Bind, BindGroupEntry, BindGroupLayoutEntry, Binding, BindingGroupLayout,
};
use crate::geometry::Size;
use crate::pipeline::{BindingSet, TextureFormat};
use crate::texture::{extent, spec_extent, Extent3d};
use vstd::prelude::*;

verus! {

/// What a texture may be used for.
#[derive(Debug, Clone, Copy, PartialEq, Eq, Structural)]
pub struct TextureUsages {
    pub copy_src: bool,
    pub copy_dst: bool,
    pub texture_binding: bool,
    pub storage_binding: bool,
    pub render_attachment: bool,
}

/// What a buffer may be used for.
#[derive(Debug, Clone, Copy, PartialEq, Eq, Structural)]
pub struct BufferUsages {
    pub map_read: bool,
    pub map_write: bool,
    pub copy_src: bool,
    pub copy_dst: bool,
    pub index: bool,
    pub vertex: bool,
    pub uniform: bool,
    pub storage: bool,
    pub indirect: bool,
    pub query_resolve: bool,
}

impl TextureUsages {
    /// No use at all.
    pub open spec fn spec_empty() -> TextureUsages {
        TextureUsages {
            copy_src: false,
            copy_dst: false,
            texture_binding: false,
            storage_binding: false,
            render_attachment: false,
        }
    }

    /// No use at all.
    pub fn empty() -> (usages: Self)
        ensures
            usages == Self::spec_empty(),
    {
        TextureUsages {
            copy_src: false,
            copy_dst: false,
            texture_binding: false,
            storage_binding: false,
            render_attachment: false,
        }
    }
}

impl BufferUsages {
    /// No use at all.
    pub open spec fn spec_empty() -> BufferUsages {
        BufferUsages {
            map_read: false,
            map_write: false,
            copy_src: false,
            copy_dst: false,
            index: false,
            vertex: false,
            uniform: false,
            storage: false,
            indirect: false,
            query_resolve: false,
        }
    }

    /// No use at all.
    pub fn empty() -> (usages: Self)
        ensures
            usages == Self::spec_empty(),
    {
        BufferUsages {
            map_read: false,
            map_write: false,
            copy_src: false,
            copy_dst: false,
            index: false,
            vertex: false,
            uniform: false,
            storage: false,
            indirect: false,
            query_resolve: false,
        }
    }
}

/// The number of dimensions of a texture.
#[derive(Debug, Clone, Copy, PartialEq, Eq, Structural)]
pub enum TextureDimension {
    D2,
}

/// Everything a texture is made from, for a texel format `F`.
#[derive(Debug, Clone, Copy)]
pub struct TextureDescriptor<F> {
    pub size: Extent3d,
    pub mip_level_count: u32,
    pub sample_count: u32,
    pub dimension: TextureDimension,
    pub format: F,
    pub usage: TextureUsages,
}

/// The two textures of a framebuffer.
#[derive(Debug, Clone, Copy)]
pub struct FramebufferDescriptor<F> {
    pub texture: TextureDescriptor<F>,
    pub depth: TextureDescriptor<TextureFormat>,
}

/// How a surface blends with what lies behind its window.
#[derive(Debug, Clone, Copy, PartialEq, Eq, Structural)]
pub enum CompositeAlphaMode {
    Auto,
}

/// How a surface is set up, for a texel format `F` and a presentation mode
/// `P`.
#[derive(Debug, Clone, Copy)]
pub struct SurfaceConfiguration<F, P> {
    pub usage: TextureUsages,
    pub format: F,
    pub present_mode: P,
    pub width: u32,
    pub height: u32,
    pub alpha_mode: CompositeAlphaMode,
}

/// A buffer that is created with its contents.
#[derive(Debug, Clone, Copy)]
pub struct BufferInitDescriptor {
    pub label: Option<&'static str>,
    pub usage: BufferUsages,
}

/// A uniform buffer that is created with its contents: `count` values of
/// `size` bytes each.
#[derive(Debug, Clone, Copy)]
pub struct UniformBufferDescriptor {
    pub size: usize,
    pub count: usize,
    pub buffer: BufferInitDescriptor,
}

/// The layout of one binding group: its place among the sets of a pipeline
/// and the entries of its slots.
#[derive(Debug)]
pub struct BindGroupLayoutDescriptor {
    pub set_index: u32,
    pub entries: Vec<BindGroupLayoutEntry>,
}

/// The two-dimensional texture with a single mip level that has the given
/// size, format, usage and number of samples.
pub open spec fn spec_texture_descriptor<F>(
    size: Size<u32>,
    format: F,
    usage: TextureUsages,
    sample_count: u32,
) -> TextureDescriptor<F> {
    TextureDescriptor {
        size: spec_extent(size),
        mip_level_count: 1,
        sample_count,
        dimension: TextureDimension::D2,
        format,
        usage,
    }
}

/// What a framebuffer's colour texture is used for: it is bound, copied from
/// and to, and rendered to.
pub open spec fn framebuffer_usage() -> TextureUsages {
    TextureUsages {
        copy_src: true,
        copy_dst: true,
        texture_binding: true,
        storage_binding: false,
        render_attachment: true,
    }
}

/// What a depth buffer is used for: it is copied to and rendered to.
pub open spec fn zbuffer_usage() -> TextureUsages {
    TextureUsages {
        copy_src: false,
        copy_dst: true,
        texture_binding: false,
        storage_binding: false,
        render_attachment: true,
    }
}

/// What a surface is used for: it is rendered to.
pub open spec fn surface_usage() -> TextureUsages {
    TextureUsages {
        copy_src: false,
        copy_dst: false,
        texture_binding: false,
        storage_binding: false,
        render_attachment: true,
    }
}

/// Describes a texture of the given size, format, usage and number of
/// samples.
pub fn texture_descriptor<F>(
    size: Size<u32>,
    format: F,
    usage: TextureUsages,
    sample_count: u32,
) -> (descriptor: TextureDescriptor<F>)
    ensures
        descriptor == spec_texture_descriptor(size, format, usage, sample_count),
{
    let texture_extent = extent(size);
    TextureDescriptor {
        size: texture_extent,
        mip_level_count: 1,
        sample_count,
        dimension: TextureDimension::D2,
        format,
        usage,
    }
}

/// Describes the depth buffer of the given size and number of samples.
pub fn zbuffer_descriptor(size: Size<u32>, sample_count: u32) -> (descriptor: TextureDescriptor<
    TextureFormat,
>)
    ensures
        descriptor == spec_texture_descriptor(
            size,
            TextureFormat::Depth32Float,
            zbuffer_usage(),
            sample_count,
        ),
{
    let format = TextureFormat::Depth32Float;
    let extent = extent(size);
    TextureDescriptor {
        size: extent,
        mip_level_count: 1,
        sample_count,
        dimension: TextureDimension::D2,
        format,
        usage: TextureUsages {
            copy_src: false,
            copy_dst: true,
            texture_binding: false,
            storage_binding: false,
            render_attachment: true,
        },
    }
}

/// Describes the framebuffer of the given size, colour format and number
/// of samples: its colour texture and a depth buffer of the same size and
/// number of samples.
pub fn framebuffer_descriptor<F>(size: Size<u32>, format: F, sample_count: u32) -> (descriptor:
    FramebufferDescriptor<F>)
    ensures
        descriptor.texture == spec_texture_descriptor(
            size,
            format,
            framebuffer_usage(),
            sample_count,
        ),
        descriptor.depth == spec_texture_descriptor(
            size,
            TextureFormat::Depth32Float,
            zbuffer_usage(),
            sample_count,
        ),
{
    let extent = extent(size);
    FramebufferDescriptor {
        texture: TextureDescriptor {
            size: extent,
            mip_level_count: 1,
            sample_count,
            dimension: TextureDimension::D2,
            format,
            usage: TextureUsages {
                copy_src: true,
                copy_dst: true,
                texture_binding: true,
                storage_binding: false,
                render_attachment: true,
            },
        },
        depth: zbuffer_descriptor(size, sample_count),
    }
}

/// Describes the surface of the given size, presentation mode and format.
pub fn surface_configuration<F, P>(size: Size<u32>, mode: P, format: F) -> (configuration:
    SurfaceConfiguration<F, P>)
    ensures
        configuration.usage == surface_usage(),
        configuration.format == format,
        configuration.present_mode == mode,
        configuration.width == size.width,
        configuration.height == size.height,
        configuration.alpha_mode == CompositeAlphaMode::Auto,
{
    SurfaceConfiguration {
        usage: TextureUsages {
            copy_src: false,
            copy_dst: false,
            texture_binding: false,
            storage_binding: false,
            render_attachment: true,
        },
        format,
        present_mode: mode,
        width: size.width,
        height: size.height,
        alpha_mode: CompositeAlphaMode::Auto,
    }
}

/// The number of bytes of `count` values of type `T`, cut down to its low
/// 32 bits.
pub open spec fn spec_vertex_buffer_size<T>(count: nat) -> int {
    ((count * vstd::layout::size_of::<T>()) % 0x1_0000_0000) as int
}

/// The size in bytes that a vertex buffer with the given vertices is
/// recorded with.
pub fn vertex_buffer_size<T>(vertices: &[T]) -> (size: u32)
    requires
        vertices@.len() * vstd::layout::size_of::<T>() <= usize::MAX,
    ensures
        size == spec_vertex_buffer_size::<T>(vertices@.len()),
{
    let bytes: usize = vertices.len() * std::mem::size_of::<T>();
    assert((bytes as u32) as u64 == (bytes as u64) % 0x1_0000_0000u64) by (bit_vector);
    #[verifier::truncate]
    (bytes as u32)
}

/// What a buffer of vertices is used for.
pub open spec fn vertex_usage() -> BufferUsages {
    BufferUsages { vertex: true, ..BufferUsages::spec_empty() }
}

/// What a buffer of indices is used for.
pub open spec fn index_usage() -> BufferUsages {
    BufferUsages { index: true, ..BufferUsages::spec_empty() }
}

/// What a uniform buffer is used for: it is read as uniforms and copied to.
pub open spec fn uniform_usage() -> BufferUsages {
    BufferUsages { uniform: true, copy_dst: true, ..BufferUsages::spec_empty() }
}

/// What a buffer of texels on their way into a texture is used for.
pub open spec fn copy_source_usage() -> BufferUsages {
    BufferUsages { copy_src: true, ..BufferUsages::spec_empty() }
}

/// Describes a buffer with the given usage that is created from a slice:
/// it has no label.
pub fn buffer_from_slice(usage: BufferUsages) -> (descriptor: BufferInitDescriptor)
    ensures
        descriptor.label is None,
        descriptor.usage == usage,
{
    BufferInitDescriptor { label: None, usage }
}

/// Describes a buffer that holds vertices.
pub fn vertex_buffer() -> (descriptor: BufferInitDescriptor)
    ensures
        descriptor.label is None,
        descriptor.usage == vertex_usage(),
{
    let mut usage = BufferUsages::empty();
    usage.vertex = true;
    buffer_from_slice(usage)
}

/// Describes a buffer that holds texels on their way into a texture.
pub fn copy_source_buffer() -> (descriptor: BufferInitDescriptor)
    ensures
        descriptor.label is None,
        descriptor.usage == copy_source_usage(),
{
    let mut usage = BufferUsages::empty();
    usage.copy_src = true;
    buffer_from_slice(usage)
}

/// Describes the buffer that holds the given indices. The count of
/// indices is recorded cut down to its low 32 bits.
pub fn index_buffer(indices: &[u16]) -> (out: (BufferInitDescriptor, u32))
    ensures
        out.0.label is None,
        out.0.usage == index_usage(),
        out.1 == indices@.len() % 0x1_0000_0000,
{
    let mut usage = BufferUsages::empty();
    usage.index = true;
    let count: usize = indices.len();
    assert((count as u32) as u64 == (count as u64) % 0x1_0000_0000u64) by (bit_vector);
    (buffer_from_slice(usage), #[verifier::truncate]
    (count as u32))
}

/// Describes the uniform buffer that holds the given values: as many as
/// the slice holds, each of the size of a `T`.
pub fn uniform_buffer<T>(buf: &[T]) -> (descriptor: UniformBufferDescriptor)
    ensures
        descriptor.size == vstd::layout::size_of::<T>(),
        descriptor.count == buf@.len(),
        descriptor.buffer.label matches Some(label) && label@ == "Uniform Buffer"@,
        descriptor.buffer.usage == uniform_usage(),
{
    let mut usage = BufferUsages::empty();
    usage.uniform = true;
    usage.copy_dst = true;
    UniformBufferDescriptor {
        size: std::mem::size_of::<T>(),
        count: buf.len(),
        buffer: BufferInitDescriptor { label: Some("Uniform Buffer"), usage },
    }
}

/// Describes the layout of the binding group with the given slots, which
/// is the set `index` of its pipeline.
pub fn binding_group_layout(index: u32, slots: &[Binding]) -> (descriptor:
    BindGroupLayoutDescriptor)
    ensures
        descriptor.set_index == index,
        descriptor.entries@.len() == slots@.len(),
        forall|i: int|
            0 <= i < slots@.len() ==> #[trigger] descriptor.entries@[i]
                == crate::binding::layout_entry_at(slots@, i),
{
    BindGroupLayoutDescriptor { set_index: index, entries: layout_entries(slots) }
}

/// Describes the binding group layouts of a pipeline with the given sets,
/// one for each set and in their order. A set is numbered by its place; a
/// place beyond 32 bits wraps around.
pub fn pipeline_layout(ss: &[BindingSet]) -> (sets: Vec<BindGroupLayoutDescriptor>)
    ensures
        sets@.len() == ss@.len(),
        forall|i: int|
            0 <= i < ss@.len() ==> {
                &&& (#[trigger] sets@[i]).set_index == i % 0x1_0000_0000
                &&& sets@[i].entries@.len() == ss@[i].0@.len()
                &&& forall|k: int|
                    0 <= k < ss@[i].0@.len() ==> #[trigger] sets@[i].entries@[k]
                        == crate::binding::layout_entry_at(ss@[i].0@, k)
            },
{
    let mut sets: Vec<BindGroupLayoutDescriptor> = Vec::new();
    let mut i: usize = 0;
    while i < ss.len()
        invariant
            i <= ss@.len(),
            sets@.len() == i,
            forall|j: int|
                0 <= j < i ==> {
                    &&& (#[trigger] sets@[j]).set_index == j % 0x1_0000_0000
                    &&& sets@[j].entries@.len() == ss@[j].0@.len()
                    &&& forall|k: int|
                        0 <= k < ss@[j].0@.len() ==> #[trigger] sets@[j].entries@[k]
                            == crate::binding::layout_entry_at(ss@[j].0@, k)
                },
        decreases ss@.len() - i,
    {
        assert((i as u32) as u64 == (i as u64) % 0x1_0000_0000u64) by (bit_vector);
        let set = binding_group_layout(#[verifier::truncate]
        (i as u32), ss[i].0);
        sets.push(set);
        i = i + 1;
    }
    sets
}

/// The entries of the binding group that binds the given resources by
/// the given layout, each resource at the slot of its place, together with
/// the place of the group among the sets of its pipeline. There must be as
/// many resources as the layout has slots. A place beyond 32 bits wraps
/// around.
pub fn binding_group<'a, B: Backend>(
    layout: &BindingGroupLayout<B>,
    binds: &'a [&'a dyn Bind<B>],
) -> (out: (u32, Vec<BindGroupEntry<'a, B>>))
    requires
        binds@.len() == layout.size,
        forall|i: int| 0 <= i < binds@.len() ==> (#[trigger] binds@[i]).bindable(),
    ensures
        out.0 == layout.set_index,
        out.1@.len() == binds@.len(),
        forall|i: int|
            0 <= i < binds@.len() ==> (#[trigger] out.1@[i]).binding == i % 0x1_0000_0000
                && out.1@[i].resource == binds@[i].resource(),
{
    let mut bindings: Vec<BindGroupEntry<'a, B>> = Vec::new();
    let mut i: usize = 0;
    while i < binds.len()
        invariant
            i <= binds@.len(),
            forall|k: int| 0 <= k < binds@.len() ==> (#[trigger] binds@[k]).bindable(),
            bindings@.len() == i,
            forall|k: int|
                0 <= k < i ==> (#[trigger] bindings@[k]).binding == k % 0x1_0000_0000
                    && bindings@[k].resource == binds@[k].resource(),
        decreases binds@.len() - i,
    {
        assert((i as u32) as u64 == (i as u64) % 0x1_0000_0000u64) by (bit_vector);
        let b = binds[i];
        bindings.push(b.binding(#[verifier::truncate]
        (i as u32)));
        i = i + 1;
    }
    (layout.set_index, bindings)
}

/// The connection to a GPU, with the surface it renders to, if any, and the
/// size that surface was last set up with.
pub struct Device<B: Backend> {
    pub wgpu: B::Device,
    pub queue: B::Queue,
    pub surface: Option<B::Surface>,
    pub size: Size<u32>,
}

impl<B: Backend> Device<B> {
    /// A device whose surface has not been set up yet: its size is zero.
    pub fn new(wgpu: B::Device, queue: B::Queue, surface: Option<B::Surface>) -> (device: Self)
        ensures
            device.wgpu == wgpu,
            device.queue == queue,
            device.surface == surface,
            device.size == (Size { width: 0u32, height: 0u32 }),
    {
        Device { wgpu, queue, surface, size: Size { width: 0, height: 0 } }
    }

    pub fn device(&self) -> (wgpu: &B::Device)
        ensures
            *wgpu == self.wgpu,
    {
        &self.wgpu
    }

    pub fn device_mut(&mut self) -> (wgpu: &mut B::Device)
        ensures
            *wgpu == old(self).wgpu,
            final(self).wgpu == *final(wgpu),
            final(self).queue == old(self).queue,
            final(self).surface == old(self).surface,
            final(self).size == old(self).size,
    {
        &mut self.wgpu
    }

    /// The size the surface was last set up with.
    pub fn size(&self) -> (size: Size<u32>)
        ensures
            size == self.size,
    {
        self.size
    }

    /// Describes the surface of the given size, presentation mode and
    /// format, and records the size. The device must have a surface.
    pub fn surface_configuration<P>(&mut self, size: Size<u32>, mode: P, format: B::TextureFormat) -> (out:
        SurfaceConfiguration<B::TextureFormat, P>)
        requires
            old(self).surface is Some,
        ensures
            final(self).size == size,
            final(self).wgpu == old(self).wgpu,
            final(self).queue == old(self).queue,
            final(self).surface == old(self).surface,
            out.usage == surface_usage(),
            out.format == format,
            out.present_mode == mode,
            out.width == size.width,
            out.height == size.height,
            out.alpha_mode == CompositeAlphaMode::Auto,
    {
        let desc = surface_configuration(size, mode, format);
        self.size = size;
        desc
    }
}

} // verus!
