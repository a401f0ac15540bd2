use easygpu::vertex::{InputStepMode, VertexAttribute, VertexFormat, VertexLayout};

#[test]
fn bytesize_of_each_format() {
    assert_eq!(VertexFormat::Float.bytesize(), 4);
    assert_eq!(VertexFormat::Float2.bytesize(), 8);
    assert_eq!(VertexFormat::Float3.bytesize(), 12);
    assert_eq!(VertexFormat::Float4.bytesize(), 16);
    assert_eq!(VertexFormat::UByte4.bytesize(), 4);
}

#[test]
fn layout_places_attributes_one_after_the_other() {
    let layout = VertexLayout::from(&[VertexFormat::Float3, VertexFormat::UByte4, VertexFormat::Float2]);
    let wgpu = layout.to_wgpu();
    assert_eq!(wgpu.array_stride, 24);
    assert_eq!(wgpu.step_mode, InputStepMode::Vertex);
    assert_eq!(
        wgpu.attributes,
        &[
            VertexAttribute { shader_location: 0, offset: 0, format: VertexFormat::Float3 },
            VertexAttribute { shader_location: 1, offset: 12, format: VertexFormat::UByte4 },
            VertexAttribute { shader_location: 2, offset: 16, format: VertexFormat::Float2 },
        ]
    );
}

#[test]
fn layout_of_no_attributes_is_empty() {
    let layout = VertexLayout::from(&[]);
    assert_eq!(layout.to_wgpu().array_stride, 0);
    assert!(layout.to_wgpu().attributes.is_empty());
    let layout = VertexLayout::default();
    assert_eq!(layout.to_wgpu().array_stride, 0);
    assert!(layout.to_wgpu().attributes.is_empty());
}

#[test]
fn layout_of_one_attribute_starts_at_zero() {
    let layout = VertexLayout::from(&[VertexFormat::Float4]);
    assert_eq!(layout.to_wgpu().array_stride, 16);
    assert_eq!(
        layout.to_wgpu().attributes,
        &[VertexAttribute { shader_location: 0, offset: 0, format: VertexFormat::Float4 }]
    );
}
