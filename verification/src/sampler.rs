//! Texture samplers.

use crate::backend::Backend;
use crate::binding::{Bind, BindGroupEntry, BindingResource};
use crate::pipeline::CompareFunction;
use vstd::prelude::*;

verus! {

/// A sampler on the GPU.
pub struct Sampler<B: Backend> {
    pub wgpu: B::Sampler,
}

impl<B: Backend> Bind<B> for Sampler<B> {
    open spec fn bindable(&self) -> bool {
        true
    }

    open spec fn resource(&self) -> BindingResource<'_, B> {
        BindingResource::Sampler(&self.wgpu)
    }

    fn binding(&self, index: u32) -> (entry: BindGroupEntry<'_, B>) {
        BindGroupEntry { binding: index, resource: BindingResource::Sampler(&self.wgpu) }
    }
}

/// How texels are picked when a texture is scaled.
#[derive(Debug, Clone, Copy, PartialEq, Eq, Structural)]
pub enum Filter {
    Nearest,
    Linear,
}

/// A filter in the shape the GPU API takes it.
#[derive(Debug, Clone, Copy, PartialEq, Eq, Structural)]
pub enum FilterMode {
    Nearest,
    Linear,
}

impl Filter {
    /// The filter in the shape the GPU API takes it.
    pub open spec fn spec_to_wgpu(self) -> FilterMode {
        match self {
            Filter::Nearest => FilterMode::Nearest,
            Filter::Linear => FilterMode::Linear,
        }
    }

    /// The filter in the shape the GPU API takes it.
    pub fn to_wgpu(&self) -> (mode: FilterMode)
        ensures
            mode == self.spec_to_wgpu(),
    {
        match self {
            Filter::Nearest => FilterMode::Nearest,
            Filter::Linear => FilterMode::Linear,
        }
    }
}

/// The colour a sampler returns beyond the border of a texture.
#[derive(Debug, Clone, Copy, PartialEq, Eq, Structural)]
pub enum SamplerBorderColor {
    TransparentBlack,
    OpaqueBlack,
    OpaqueWhite,
}

/// What a sampler returns outside of the texture.
#[derive(Debug, Clone, Copy, PartialEq, Eq, Structural)]
pub enum AddressMode {
    ClampToEdge,
}

/// Everything a sampler is made from. The two level-of-detail clamps are
/// whole numbers here; the GPU API takes them as floating-point numbers of
/// the same value.
#[derive(Debug, Clone, Copy, PartialEq, Eq)]
pub struct SamplerDescriptor {
    pub address_mode_u: AddressMode,
    pub address_mode_v: AddressMode,
    pub address_mode_w: AddressMode,
    pub mag_filter: FilterMode,
    pub min_filter: FilterMode,
    pub mipmap_filter: FilterMode,
    pub lod_min_clamp: i32,
    pub lod_max_clamp: i32,
    pub compare: Option<CompareFunction>,
    pub anisotropy_clamp: Option<u8>,
    pub border_color: Option<SamplerBorderColor>,
}

/// The sampler with the given filters: it clamps to the edge in every
/// direction, picks the nearest mip level, keeps the level of detail within
/// a hundred levels either way, and neither compares nor filters
/// anisotropically.
pub open spec fn spec_sampler_descriptor(
    min_filter: FilterMode,
    mag_filter: FilterMode,
) -> SamplerDescriptor {
    SamplerDescriptor {
        address_mode_u: AddressMode::ClampToEdge,
        address_mode_v: AddressMode::ClampToEdge,
        address_mode_w: AddressMode::ClampToEdge,
        mag_filter,
        min_filter,
        mipmap_filter: FilterMode::Nearest,
        lod_min_clamp: (-100i32),
        lod_max_clamp: 100,
        compare: None,
        anisotropy_clamp: None,
        border_color: None,
    }
}

/// Describes the sampler with the given filters.
pub fn sampler_descriptor(min_filter: FilterMode, mag_filter: FilterMode) -> (descriptor:
    SamplerDescriptor)
    ensures
        descriptor == spec_sampler_descriptor(min_filter, mag_filter),
{
    SamplerDescriptor {
        address_mode_u: AddressMode::ClampToEdge,
        address_mode_v: AddressMode::ClampToEdge,
        address_mode_w: AddressMode::ClampToEdge,
        mag_filter,
        min_filter,
        mipmap_filter: FilterMode::Nearest,
        lod_min_clamp: -100,
        lod_max_clamp: 100,
        compare: None,
        anisotropy_clamp: None,
        border_color: None,
    }
}

} // verus!
