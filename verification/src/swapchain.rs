//! Presentation to a surface.

use crate::backend::Backend;
use crate::buffers::DepthBuffer;
use crate::device::{surface_usage, TextureUsages};
use crate::geometry::Size;
use crate::pipeline::TextureFormat;
use vstd::prelude::*;

verus! {

/// Whether presentation waits for the display.
#[derive(Debug, Clone, Copy, PartialEq, Eq, Structural)]
pub enum PresentMode {
    Vsync,
    NoVsync,
}

/// A presentation mode in the shape the GPU API takes it.
#[derive(Debug, Clone, Copy, PartialEq, Eq, Structural)]
pub enum SurfacePresentMode {
    AutoVsync,
    AutoNoVsync,
    Fifo,
    FifoRelaxed,
    Immediate,
    Mailbox,
}

impl PresentMode {
    /// The mode in the shape the GPU API takes it: with vertical sync the
    /// newest frame waits in a mailbox, without it frames are shown at once.
    pub open spec fn spec_to_wgpu(self) -> SurfacePresentMode {
        match self {
            PresentMode::Vsync => SurfacePresentMode::Mailbox,
            PresentMode::NoVsync => SurfacePresentMode::Immediate,
        }
    }

    /// The mode in the shape the GPU API takes it.
    pub fn to_wgpu(&self) -> (mode: SurfacePresentMode)
        ensures
            mode == self.spec_to_wgpu(),
    {
        match self {
            PresentMode::Vsync => SurfacePresentMode::Mailbox,
            PresentMode::NoVsync => SurfacePresentMode::Immediate,
        }
    }
}

impl From<PresentMode> for SurfacePresentMode {
    fn from(present_mode: PresentMode) -> (mode: SurfacePresentMode) {
        match present_mode {
            PresentMode::Vsync => SurfacePresentMode::Mailbox,
            PresentMode::NoVsync => SurfacePresentMode::Immediate,
        }
    }
}

impl vstd::std_specs::convert::FromSpecImpl<PresentMode> for SurfacePresentMode {
    open spec fn obeys_from_spec() -> bool {
        true
    }

    open spec fn from_spec(present_mode: PresentMode) -> Self {
        present_mode.spec_to_wgpu()
    }
}

impl Default for PresentMode {
    /// Presentation waits for the display unless told otherwise.
    fn default() -> (mode: Self)
        ensures
            mode == PresentMode::Vsync,
    {
        PresentMode::Vsync
    }
}

/// Everything a swap chain is made from, for a texel format `F` and a
/// presentation mode `P`.
#[derive(Debug, Clone, Copy)]
pub struct SwapChainDescriptor<F, P> {
    pub usage: TextureUsages,
    pub format: F,
    pub present_mode: P,
    pub width: u32,
    pub height: u32,
}

/// A handle to a swap chain.
///
/// A `SwapChain` represents the image or series of images that will be
/// presented to a renderer.
pub struct SwapChain<B: Backend> {
    pub wgpu: B::SwapChain,
    pub depth: DepthBuffer<B>,
    pub size: Size<u32>,
    pub format: B::TextureFormat,
}

impl<B: Backend> SwapChain<B> {
    /// The texel format of a swap chain, unless another is asked for.
    pub fn default_format() -> (format: TextureFormat)
        ensures
            format == TextureFormat::Bgra8UnormSrgb,
    {
        TextureFormat::Bgra8UnormSrgb
    }

    /// Get the texture format in use
    pub fn format(&self) -> (format: B::TextureFormat)
        ensures
            format == self.format,
    {
        self.format
    }

    /// Describes the swap chain of the given size, presentation mode and
    /// format: its images are rendered to and have the given size.
    pub fn descriptor<P>(size: Size<u32>, mode: P, format: B::TextureFormat) -> (descriptor:
        SwapChainDescriptor<B::TextureFormat, P>)
        ensures
            descriptor.usage == surface_usage(),
            descriptor.format == format,
            descriptor.present_mode == mode,
            descriptor.width == size.width,
            descriptor.height == size.height,
    {
        let mut usage = TextureUsages::empty();
        usage.render_attachment = true;
        SwapChainDescriptor {
            usage,
            format,
            present_mode: mode,
            width: size.width,
            height: size.height,
        }
    }
}

} // verus!
