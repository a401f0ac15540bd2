//! What a shader can have bound, and how a group of bindings is laid out.

use crate::backend::Backend;
use vstd::prelude::*;

verus! {

/// A group of bindings.
pub struct BindingGroup<B: Backend> {
    pub wgpu: B::BindGroup,
    pub set_index: u32,
}

impl<B: Backend> BindingGroup<B> {
    pub fn new(set_index: u32, wgpu: B::BindGroup) -> (group: Self)
        ensures
            group.set_index == set_index,
            group.wgpu == wgpu,
    {
        Self { set_index, wgpu }
    }
}

/// The layout of a `BindingGroup`.
pub struct BindingGroupLayout<B: Backend> {
    pub wgpu: B::BindGroupLayout,
    pub size: usize,
    pub set_index: u32,
}

impl<B: Backend> BindingGroupLayout<B> {
    pub fn new(set_index: u32, layout: B::BindGroupLayout, size: usize) -> (out: Self)
        ensures
            out.wgpu == layout,
            out.size == size,
            out.set_index == set_index,
    {
        Self { wgpu: layout, size, set_index }
    }
}

/// A part of a buffer that is bound. A size of zero is given as `None`.
pub struct BufferBinding<'a, B: Backend> {
    pub buffer: &'a B::Buffer,
    pub offset: u64,
    pub size: Option<u64>,
}

/// A resource that is bound.
pub enum BindingResource<'a, B: Backend> {
    Buffer(BufferBinding<'a, B>),
    TextureView(&'a B::TextureView),
    Sampler(&'a B::Sampler),
}

/// A resource together with the slot it is bound to.
pub struct BindGroupEntry<'a, B: Backend> {
    pub binding: u32,
    pub resource: BindingResource<'a, B>,
}

/// A trait representing a resource that can be bound.
pub trait Bind<B: Backend> {
    /// Whether the resource can be bound as it stands. Any resource can,
    /// unless its implementation says otherwise.
    open spec fn bindable(&self) -> bool {
        true
    }

    /// What is bound when the resource is bound. A verified
    /// implementation says so here.
    open spec fn resource(&self) -> BindingResource<'_, B> {
        arbitrary()
    }

    /// Binds the resource to the slot `index`.
    fn binding(&self, index: u32) -> (entry: BindGroupEntry<'_, B>)
        requires
            self.bindable(),
        ensures
            entry.binding == index,
            entry.resource == self.resource(),
    ;
}

/// The shader stages that can see a binding.
#[derive(Debug, Clone, Copy, PartialEq, Eq, Structural)]
pub struct ShaderStages {
    pub vertex: bool,
    pub fragment: bool,
    pub compute: bool,
}

impl ShaderStages {
    /// The vertex stage alone.
    pub fn vertex() -> (stages: Self)
        ensures
            stages == (ShaderStages { vertex: true, fragment: false, compute: false }),
    {
        ShaderStages { vertex: true, fragment: false, compute: false }
    }

    /// The fragment stage alone.
    pub fn fragment() -> (stages: Self)
        ensures
            stages == (ShaderStages { vertex: false, fragment: true, compute: false }),
    {
        ShaderStages { vertex: false, fragment: true, compute: false }
    }
}

/// A binding type.
#[derive(Debug, Clone, Copy, PartialEq, Eq, Structural)]
pub enum BindingType {
    UniformBuffer,
    UniformBufferDynamic,
    Sampler,
    SampledTexture,
}

/// The kind of a buffer binding.
#[derive(Debug, Clone, Copy, PartialEq, Eq, Structural)]
pub enum BufferBindingType {
    Uniform,
}

/// What a shader reads from a texture.
#[derive(Debug, Clone, Copy, PartialEq, Eq, Structural)]
pub enum TextureSampleType {
    Float { filterable: bool },
}

/// The dimensions of a texture view.
#[derive(Debug, Clone, Copy, PartialEq, Eq, Structural)]
pub enum TextureViewDimension {
    D2,
}

/// A binding type in the shape the GPU API takes it.
#[derive(Debug, Clone, Copy, PartialEq, Eq)]
pub enum BindingLayout {
    Buffer { ty: BufferBindingType, has_dynamic_offset: bool, min_binding_size: Option<u64> },
    Texture {
        sample_type: TextureSampleType,
        multisampled: bool,
        view_dimension: TextureViewDimension,
    },
    Sampler { comparison: bool, filtering: bool },
}

impl BindingType {
    /// The binding type in the shape the GPU API takes it. Both kinds of
    /// uniform buffer are bound without a dynamic offset and without a
    /// minimum size; a texture is a two-dimensional one that is read as
    /// unfiltered floats; a sampler both compares and filters.
    pub open spec fn spec_to_wgpu(self) -> BindingLayout {
        match self {
            BindingType::UniformBuffer => BindingLayout::Buffer {
                ty: BufferBindingType::Uniform,
                has_dynamic_offset: false,
                min_binding_size: None,
            },
            BindingType::UniformBufferDynamic => BindingLayout::Buffer {
                ty: BufferBindingType::Uniform,
                has_dynamic_offset: false,
                min_binding_size: None,
            },
            BindingType::SampledTexture => BindingLayout::Texture {
                sample_type: TextureSampleType::Float { filterable: false },
                multisampled: false,
                view_dimension: TextureViewDimension::D2,
            },
            BindingType::Sampler => BindingLayout::Sampler { comparison: true, filtering: true },
        }
    }

    /// The binding type in the shape the GPU API takes it.
    pub fn to_wgpu(&self) -> (layout: BindingLayout)
        ensures
            layout == self.spec_to_wgpu(),
    {
        match self {
            BindingType::UniformBuffer => BindingLayout::Buffer {
                ty: BufferBindingType::Uniform,
                has_dynamic_offset: false,
                min_binding_size: None,
            },
            BindingType::UniformBufferDynamic => BindingLayout::Buffer {
                ty: BufferBindingType::Uniform,
                has_dynamic_offset: false,
                min_binding_size: None,
            },
            BindingType::SampledTexture => BindingLayout::Texture {
                sample_type: TextureSampleType::Float { filterable: false },
                multisampled: false,
                view_dimension: TextureViewDimension::D2,
            },
            BindingType::Sampler => BindingLayout::Sampler { comparison: true, filtering: true },
        }
    }
}

/// One slot of a binding group: what is bound there and which stages see it.
#[derive(Debug, Clone, Copy, PartialEq, Eq, Structural)]
pub struct Binding {
    pub binding: BindingType,
    pub stage: ShaderStages,
}

/// One slot of a binding group layout in the shape the GPU API takes it.
#[derive(Debug, Clone, Copy, PartialEq, Eq)]
pub struct BindGroupLayoutEntry {
    pub binding: u32,
    pub visibility: ShaderStages,
    pub ty: BindingLayout,
    pub count: Option<u32>,
}

/// The layout entry of the slot at place `i`: it is bound at `i`, seen by
/// the stages of the slot, and holds a single resource. A place beyond 32
/// bits wraps around.
pub open spec fn layout_entry_at(slots: Seq<Binding>, i: int) -> BindGroupLayoutEntry {
    BindGroupLayoutEntry {
        binding: (i % 0x1_0000_0000) as u32,
        visibility: slots[i].stage,
        ty: slots[i].binding.spec_to_wgpu(),
        count: None,
    }
}

/// The layout entries of a binding group with the given slots, one for
/// each slot and in their order.
pub fn layout_entries(slots: &[Binding]) -> (entries: Vec<BindGroupLayoutEntry>)
    ensures
        entries@.len() == slots@.len(),
        forall|i: int|
            0 <= i < slots@.len() ==> #[trigger] entries@[i] == layout_entry_at(slots@, i),
{
    let mut bindings: Vec<BindGroupLayoutEntry> = Vec::new();
    let mut i: usize = 0;
    while i < slots.len()
        invariant
            i <= slots@.len(),
            bindings@.len() == i,
            forall|k: int| 0 <= k < i ==> #[trigger] bindings@[k] == layout_entry_at(slots@, k),
        decreases slots@.len() - i,
    {
        let s = slots[i];
        let at: usize = bindings.len();
        assert((at as u32) as u64 == (at as u64) % 0x1_0000_0000u64) by (bit_vector);
        bindings.push(
            BindGroupLayoutEntry {
                binding: #[verifier::truncate]
                (at as u32),
                visibility: s.stage,
                ty: s.binding.to_wgpu(),
                count: None,
            },
        );
        i = i + 1;
    }
    bindings
}

} // verus!
