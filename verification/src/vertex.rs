//! Vertex attribute formats and the layout of a vertex buffer.

use vstd::prelude::*;

verus! {

/// The scalar layout of one vertex attribute.
#[derive(Debug, Clone, Copy, PartialEq, Eq, Structural)]
pub enum VertexFormat {
    Float,
    Float2,
    Float3,
    Float4,
    UByte4,
}

impl VertexFormat {
    /// Number of bytes one attribute of this format occupies.
    pub open spec fn spec_bytesize(self) -> nat {
        match self {
            VertexFormat::Float => 4,
            VertexFormat::Float2 => 8,
            VertexFormat::Float3 => 12,
            VertexFormat::Float4 => 16,
            VertexFormat::UByte4 => 4,
        }
    }

    /// Number of bytes one attribute of this format occupies.
    pub fn bytesize(self) -> (n: usize)
        ensures
            n == self.spec_bytesize(),
    {
        match self {
            VertexFormat::Float => 4,
            VertexFormat::Float2 => 8,
            VertexFormat::Float3 => 12,
            VertexFormat::Float4 => 16,
            VertexFormat::UByte4 => 4,
        }
    }
}

/// One attribute of a vertex: where the shader reads it, where it starts in
/// the vertex, and how it is laid out.
#[derive(Debug, Clone, Copy, PartialEq, Eq, Structural)]
pub struct VertexAttribute {
    pub shader_location: u32,
    pub offset: u64,
    pub format: VertexFormat,
}

/// How often the vertex buffer advances.
#[derive(Debug, Clone, Copy, PartialEq, Eq, Structural)]
pub enum InputStepMode {
    Vertex,
}

/// The layout of a vertex buffer in the shape the GPU API takes it.
#[derive(Debug, Clone, Copy)]
pub struct VertexBufferLayout<'a> {
    pub array_stride: u64,
    pub step_mode: InputStepMode,
    pub attributes: &'a [VertexAttribute],
}

/// The number of bytes that the given attributes occupy together.
pub open spec fn stride_of(formats: Seq<VertexFormat>) -> nat
    decreases formats.len(),
{
    if formats.len() == 0 {
        0
    } else {
        stride_of(formats.drop_last()) + formats.last().spec_bytesize()
    }
}

/// The attribute that stands at place `i` in a vertex made of `formats`: the
/// shader reads it at location `i`, and it starts where the attributes
/// before it end. A location beyond 32 bits wraps around.
pub open spec fn attribute_at(formats: Seq<VertexFormat>, i: int) -> VertexAttribute {
    VertexAttribute {
        shader_location: (i % 0x1_0000_0000) as u32,
        offset: stride_of(formats.take(i)) as u64,
        format: formats[i],
    }
}

/// No attribute takes more than sixteen bytes.
pub proof fn lemma_stride_bound(formats: Seq<VertexFormat>)
    ensures
        stride_of(formats) <= 16 * formats.len(),
    decreases formats.len(),
{
    if formats.len() > 0 {
        lemma_stride_bound(formats.drop_last());
    }
}

/// A vertex never gets shorter when attributes are added at its end.
pub proof fn lemma_stride_monotonic(formats: Seq<VertexFormat>, i: int)
    requires
        0 <= i <= formats.len(),
    ensures
        stride_of(formats.take(i)) <= stride_of(formats),
    decreases formats.len() - i,
{
    if i < formats.len() {
        lemma_stride_monotonic(formats, i + 1);
        assert(formats.take(i + 1).drop_last() =~= formats.take(i));
    } else {
        assert(formats.take(i) =~= formats);
    }
}

/// Each attribute begins where the one before it ends: the attributes of
/// a vertex neither overlap nor leave gaps.
pub proof fn lemma_attributes_adjoin(formats: Seq<VertexFormat>, i: int)
    requires
        0 <= i < formats.len(),
    ensures
        stride_of(formats.take(i + 1)) == stride_of(formats.take(i)) + formats[i].spec_bytesize(),
        stride_of(formats.take(0)) == 0,
{
    assert(formats.take(i + 1).drop_last() =~= formats.take(i));
    assert(formats.take(i + 1).last() == formats[i]);
}

/// Describes a 'VertexBuffer' layout.
#[derive(Debug)]
pub struct VertexLayout {
    wgpu_attrs: Vec<VertexAttribute>,
    size: usize,
}

impl VertexLayout {
    /// The attributes of a vertex, in their order.
    pub closed spec fn attributes(&self) -> Seq<VertexAttribute> {
        self.wgpu_attrs@
    }

    /// The number of bytes of one vertex.
    pub closed spec fn stride(&self) -> nat {
        self.size as nat
    }

    /// Lays out a vertex that holds the given attributes one after the
    /// other.
    pub fn from(formats: &[VertexFormat]) -> (vl: Self)
        requires
            stride_of(formats@) <= usize::MAX,
        ensures
            vl.stride() == stride_of(formats@),
            vl.attributes().len() == formats@.len(),
            forall|i: int|
                0 <= i < formats@.len() ==> #[trigger] vl.attributes()[i] == attribute_at(
                    formats@,
                    i,
                ),
    {
        let mut vl = VertexLayout { wgpu_attrs: Vec::new(), size: 0 };
        let mut i: usize = 0;
        while i < formats.len()
            invariant
                i <= formats@.len(),
                stride_of(formats@) <= usize::MAX,
                vl.size == stride_of(formats@.take(i as int)),
                vl.wgpu_attrs@.len() == i,
                forall|k: int|
                    0 <= k < i ==> #[trigger] vl.wgpu_attrs@[k] == attribute_at(formats@, k),
            decreases formats@.len() - i,
        {
            let vf = formats[i];
            let location: usize = vl.wgpu_attrs.len();
            proof {
                lemma_stride_monotonic(formats@, i + 1);
                assert(formats@.take(i + 1).drop_last() =~= formats@.take(i as int));
                assert(formats@.take(i + 1).last() == formats@[i as int]);
                assert((location as u32) as u64 == (location as u64) % 0x1_0000_0000u64)
                    by (bit_vector);
            }
            vl.wgpu_attrs.push(
                VertexAttribute {
                    shader_location: #[verifier::truncate]
                    (location as u32),
                    offset: vl.size as u64,
                    format: vf,
                },
            );
            vl.size = vl.size + vf.bytesize();
            i = i + 1;
        }
        assert(formats@.take(formats@.len() as int) =~= formats@);
        vl
    }

    /// The layout in the shape the GPU API takes it: the stride is the size
    /// of a vertex, and the buffer advances once for each vertex.
    pub fn to_wgpu(&self) -> (layout: VertexBufferLayout<'_>)
        ensures
            layout.array_stride == self.stride(),
            layout.step_mode == InputStepMode::Vertex,
            layout.attributes@ == self.attributes(),
    {
        VertexBufferLayout {
            array_stride: self.size as u64,
            step_mode: InputStepMode::Vertex,
            attributes: self.wgpu_attrs.as_slice(),
        }
    }
}

impl Default for VertexLayout {
    /// The layout of a vertex without attributes.
    fn default() -> (vl: Self)
        ensures
            vl.stride() == 0,
            vl.attributes().len() == 0,
    {
        VertexLayout { wgpu_attrs: Vec::new(), size: 0 }
    }
}

} // verus!
