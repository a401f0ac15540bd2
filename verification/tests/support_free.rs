use easygpu::buffers::DepthBuffer;
use easygpu::error::Error;
use easygpu::geometry::Size;
use easygpu::pipeline::TextureFormat;
use easygpu::sampler::{sampler_descriptor, AddressMode, Filter, FilterMode};
use easygpu::swapchain::{PresentMode, SurfacePresentMode};
use easygpu::texture::{extent, Texture};

#[test]
fn error_messages() {
    let none: Error<u8> = Error::NoAdaptersFound;
    assert_eq!(none.message(), "a suitable graphics adapter was not found");
    assert_eq!(Error::RequestDeviceError(3u8).message(), "device creation error");
}

#[test]
fn missing_adapter_is_an_error() {
    let found: Result<u8, Error<()>> = Error::adapter_found(Some(9));
    assert!(matches!(found, Ok(9)));
    let found: Result<u8, Error<()>> = Error::adapter_found(None);
    assert!(matches!(found, Err(Error::NoAdaptersFound)));
}

#[test]
fn refused_device_is_an_error() {
    let granted: Result<u8, Error<&str>> = Error::device_granted(Ok(1));
    assert!(matches!(granted, Ok(1)));
    let granted: Result<u8, Error<&str>> = Error::device_granted(Err("lost"));
    assert!(matches!(granted, Err(Error::RequestDeviceError("lost"))));
}

#[test]
fn present_modes_in_gpu_terms() {
    assert_eq!(PresentMode::Vsync.to_wgpu(), SurfacePresentMode::Mailbox);
    assert_eq!(PresentMode::NoVsync.to_wgpu(), SurfacePresentMode::Immediate);
    assert_eq!(SurfacePresentMode::from(PresentMode::Vsync), SurfacePresentMode::Mailbox);
    assert_eq!(SurfacePresentMode::from(PresentMode::NoVsync), SurfacePresentMode::Immediate);
    assert_eq!(PresentMode::default(), PresentMode::Vsync);
}

#[test]
fn filters_in_gpu_terms() {
    assert_eq!(Filter::Nearest.to_wgpu(), FilterMode::Nearest);
    assert_eq!(Filter::Linear.to_wgpu(), FilterMode::Linear);
}

#[test]
fn sampler_clamps_to_the_edge() {
    let sampler = sampler_descriptor(FilterMode::Linear, FilterMode::Nearest);
    assert_eq!(sampler.min_filter, FilterMode::Linear);
    assert_eq!(sampler.mag_filter, FilterMode::Nearest);
    assert_eq!(sampler.mipmap_filter, FilterMode::Nearest);
    assert_eq!(sampler.address_mode_u, AddressMode::ClampToEdge);
    assert_eq!(sampler.address_mode_v, AddressMode::ClampToEdge);
    assert_eq!(sampler.address_mode_w, AddressMode::ClampToEdge);
    assert_eq!((sampler.lod_min_clamp, sampler.lod_max_clamp), (-100, 100));
    assert_eq!(sampler.compare, None);
    assert_eq!(sampler.anisotropy_clamp, None);
    assert_eq!(sampler.border_color, None);
}

struct Void;

impl easygpu::backend::Backend for Void {
    type Device = ();
    type Queue = ();
    type Surface = ();
    type SwapChain = ();
    type SurfaceTexture = ();
    type Texture = ();
    type TextureView = ();
    type TextureFormat = u8;
    type Buffer = ();
    type Sampler = ();
    type BindGroup = ();
    type BindGroupLayout = ();
    type RenderPipeline = ();
    type ShaderModule = ();
    type CommandEncoder = ();
}

#[test]
fn formats_that_the_library_names() {
    assert_eq!(Texture::<Void>::color_format(), TextureFormat::Rgba8UnormSrgb);
    assert_eq!(
        easygpu::swapchain::SwapChain::<Void>::default_format(),
        TextureFormat::Bgra8UnormSrgb
    );
    assert_eq!(easygpu::buffers::ZBuffer::<Void>::format(), TextureFormat::Depth32Float);
}

#[test]
fn swap_chain_keeps_its_format() {
    let size = Size { width: 4u32, height: 4u32 };
    let chain: easygpu::swapchain::SwapChain<Void> = easygpu::swapchain::SwapChain {
        wgpu: (),
        depth: DepthBuffer {
            texture: Texture { wgpu: (), view: (), extent: extent(size), format: 1, size },
        },
        size,
        format: 7,
    };
    assert_eq!(chain.format(), 7);
}
