use easygpu::pipeline::{
    multisample_state, render_pipeline_state, BlendComponent, BlendFactor, BlendOp, BlendState,
    Blending, ColorWrites, CompareFunction, FrontFace, PolygonMode, PrimitiveTopology,
    StencilFaceState, TextureFormat,
};

#[test]
fn blending_new_keeps_its_arguments() {
    let blending = Blending::new(BlendFactor::Zero, BlendFactor::SrcAlpha, BlendOp::Add);
    assert_eq!(
        blending.as_wgpu(),
        BlendComponent {
            src_factor: BlendFactor::Zero,
            dst_factor: BlendFactor::SrcAlpha,
            operation: BlendOp::Add
        }
    );
}

#[test]
fn constant_blending_keeps_the_source() {
    assert_eq!(
        Blending::constant(),
        Blending::new(BlendFactor::One, BlendFactor::Zero, BlendOp::Add)
    );
}

#[test]
fn default_blending_is_alpha_blending() {
    assert_eq!(
        Blending::default(),
        Blending::new(BlendFactor::SrcAlpha, BlendFactor::OneMinusSrcAlpha, BlendOp::Add)
    );
    assert_ne!(Blending::default(), Blending::constant());
}

#[test]
fn multisample_state_writes_every_sample() {
    let state = multisample_state(4);
    assert_eq!(state.count, 4);
    assert_eq!(state.mask, u64::MAX);
    assert!(!state.alpha_to_coverage_enabled);
}

#[test]
fn pipeline_state_blends_colour_and_alpha_alike() {
    let state = render_pipeline_state(Blending::default(), 7u8, multisample_state(1));
    let component = Blending::default().as_wgpu();
    assert_eq!(state.vertex_entry_point, "main");
    assert_eq!(state.fragment_entry_point, "main");
    assert_eq!(state.target.format, 7u8);
    assert_eq!(state.target.blend, Some(BlendState { color: component, alpha: component }));
    assert_eq!(
        state.target.write_mask,
        ColorWrites { red: true, green: true, blue: true, alpha: true }
    );
    assert_eq!(state.multisample, multisample_state(1));
}

#[test]
fn pipeline_state_draws_filled_triangles_with_depth() {
    let state = render_pipeline_state(Blending::constant(), (), multisample_state(4));
    assert_eq!(state.primitive.topology, PrimitiveTopology::TriangleList);
    assert_eq!(state.primitive.front_face, FrontFace::Ccw);
    assert_eq!(state.primitive.polygon_mode, PolygonMode::Fill);
    assert_eq!(state.primitive.strip_index_format, None);
    assert_eq!(state.primitive.cull_mode, None);
    assert!(!state.primitive.unclipped_depth);
    assert!(!state.primitive.conservative);
    assert_eq!(state.depth_stencil.format, TextureFormat::Depth32Float);
    assert!(state.depth_stencil.depth_write_enabled);
    assert_eq!(state.depth_stencil.depth_compare, CompareFunction::LessEqual);
    assert_eq!(state.depth_stencil.stencil.front, StencilFaceState::Ignore);
    assert_eq!(state.depth_stencil.stencil.back, StencilFaceState::Ignore);
    assert_eq!(state.depth_stencil.stencil.read_mask, 0);
    assert_eq!(state.depth_stencil.stencil.write_mask, 0);
    assert_eq!(
        (
            state.depth_stencil.bias.constant,
            state.depth_stencil.bias.slope_scale,
            state.depth_stencil.bias.clamp
        ),
        (0, 0, 0)
    );
    assert_eq!(state.multisample.count, 4);
}
