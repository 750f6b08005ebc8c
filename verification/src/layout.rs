//! How vertex data is laid out in a vertex buffer: the attributes of a vertex,
//! their formats, their byte offsets inside the vertex and the vertex's stride.

use vstd::prelude::*;

verus! {

/// The attribute formats the vertices use.
#[derive(Debug, Clone, Copy, PartialEq, Eq, Structural)]
pub enum VertexFormat {
    /// Two 32-bit floats (`vec2<f32>` in a shader).
    Float32x2,
    /// Three 32-bit floats (`vec3<f32>` in a shader).
    Float32x3,
}

/// How far the buffer advances: per vertex or per instance.
#[derive(Debug, Clone, Copy, PartialEq, Eq, Structural)]
pub enum VertexStepMode {
    Vertex,
    Instance,
}

/// The size in bytes of one attribute of a format.
pub open spec fn format_size(format: VertexFormat) -> nat {
    match format {
        VertexFormat::Float32x2 => 8,
        VertexFormat::Float32x3 => 12,
    }
}

impl VertexFormat {
    /// The size in bytes of one attribute of this format.
    pub fn size(self) -> (n: u64)
        ensures
            n as nat == format_size(self),
    {
        match self {
            VertexFormat::Float32x2 => 8,
            VertexFormat::Float32x3 => 12,
        }
    }
}

/// One shader input of a vertex: its format, where it starts inside the
/// vertex, and the `@location` it is bound to in the shader.
#[derive(Debug, Clone, Copy, PartialEq, Eq, Structural)]
pub struct VertexAttribute {
    pub format: VertexFormat,
    pub offset: u64,
    pub shader_location: u32,
}

/// The layout of one vertex buffer: the stride between two vertices, the step
/// mode and the attributes of each vertex.
#[derive(Debug, Clone, PartialEq, Eq)]
pub struct VertexBufferLayout {
    pub array_stride: u64,
    pub step_mode: VertexStepMode,
    pub attributes: Vec<VertexAttribute>,
}

/// The bytes taken by the first `n` formats, laid one after the other.
pub open spec fn packed_size(formats: Seq<VertexFormat>, n: int) -> nat
    decreases n,
{
    if n <= 0 || formats.len() == 0 {
        0
    } else if n > formats.len() {
        packed_size(formats, formats.len() as int)
    } else {
        packed_size(formats, n - 1) + format_size(formats[n - 1])
    }
}

/// The attributes for the given formats, in order: attribute `i` has format
/// `formats[i]`, starts where the previous ones end and is bound to shader
/// location `i`.
pub open spec fn packed_attributes(formats: Seq<VertexFormat>) -> Seq<VertexAttribute> {
    Seq::new(
        formats.len(),
        |i: int|
            VertexAttribute {
                format: formats[i],
                offset: packed_size(formats, i) as u64,
                shader_location: i as u32,
            },
    )
}

proof fn lemma_packed_size_bounded(formats: Seq<VertexFormat>, n: int)
    ensures
        packed_size(formats, n) <= 12 * (if n < 0 { 0 } else if n > formats.len() { formats.len() as int } else { n }),
    decreases n,
{
    if n <= 0 || formats.len() == 0 {
    } else if n > formats.len() {
        lemma_packed_size_bounded(formats, formats.len() as int);
    } else {
        lemma_packed_size_bounded(formats, n - 1);
    }
}

/// Lays the given formats out one after the other, binding attribute `i` to
/// shader location `i`; the same layout a `vertex_attr_array` of these formats
/// describes.
pub fn vertex_attr_array(formats: &[VertexFormat]) -> (attrs: Vec<VertexAttribute>)
    requires
        formats@.len() <= u32::MAX,
    ensures
        attrs@ == packed_attributes(formats@),
{
    let mut attrs: Vec<VertexAttribute> = Vec::new();
    let mut offset: u64 = 0;
    let mut i: usize = 0;
    while i < formats.len()
        invariant
            i <= formats@.len(),
            formats@.len() <= u32::MAX,
            offset as nat == packed_size(formats@, i as int),
            attrs@ == packed_attributes(formats@).subrange(0, i as int),
        decreases formats@.len() - i,
    {
        proof {
            lemma_packed_size_bounded(formats@, i as int);
        }
        let format = formats[i];
        attrs.push(VertexAttribute { format, offset, shader_location: i as u32 });
        offset = offset + format.size();
        i = i + 1;
        assert(attrs@ =~= packed_attributes(formats@).subrange(0, i as int));
    }
    assert(attrs@ =~= packed_attributes(formats@));
    attrs
}

/// The formats of a vertex with a position and a color: `@location(0)` and
/// `@location(1)` of the shader.
pub open spec fn spec_color_vertex_formats() -> Seq<VertexFormat> {
    seq![VertexFormat::Float32x3, VertexFormat::Float32x3]
}

/// The formats of a vertex with a position and texture coordinates.
pub open spec fn spec_texture_vertex_formats() -> Seq<VertexFormat> {
    seq![VertexFormat::Float32x3, VertexFormat::Float32x2]
}

/// A vertex buffer of tightly packed vertices with the given formats: the
/// stride is the sum of the attribute sizes and the buffer steps per vertex.
pub open spec fn is_packed_layout(layout: VertexBufferLayout, formats: Seq<VertexFormat>) -> bool {
    &&& layout.array_stride as nat == packed_size(formats, formats.len() as int)
    &&& layout.step_mode == VertexStepMode::Vertex
    &&& layout.attributes@ == packed_attributes(formats)
}

/// The layout of a position-and-color vertex written out attribute by
/// attribute: a 24-byte stride, the position at offset 0 bound to location 0
/// and the color right after it, at offset 12, bound to location 1.
pub fn color_vertex_desc() -> (layout: VertexBufferLayout)
    ensures
        layout.array_stride == 24,
        layout.step_mode == VertexStepMode::Vertex,
        layout.attributes@ == seq![
            VertexAttribute { format: VertexFormat::Float32x3, offset: 0, shader_location: 0 },
            VertexAttribute { format: VertexFormat::Float32x3, offset: 12, shader_location: 1 },
        ],
{
    let position_size = VertexFormat::Float32x3.size();
    let color_size = VertexFormat::Float32x3.size();
    let mut attributes: Vec<VertexAttribute> = Vec::new();
    attributes.push(
        VertexAttribute { format: VertexFormat::Float32x3, offset: 0, shader_location: 0 },
    );
    attributes.push(
        VertexAttribute {
            format: VertexFormat::Float32x3,
            offset: position_size,
            shader_location: 1,
        },
    );
    VertexBufferLayout {
        array_stride: position_size + color_size,
        step_mode: VertexStepMode::Vertex,
        attributes,
    }
}

fn color_vertex_formats() -> (f: Vec<VertexFormat>)
    ensures
        f@ == spec_color_vertex_formats(),
{
    let mut f: Vec<VertexFormat> = Vec::new();
    f.push(VertexFormat::Float32x3);
    f.push(VertexFormat::Float32x3);
    assert(f@ =~= spec_color_vertex_formats());
    f
}

fn texture_vertex_formats() -> (f: Vec<VertexFormat>)
    ensures
        f@ == spec_texture_vertex_formats(),
{
    let mut f: Vec<VertexFormat> = Vec::new();
    f.push(VertexFormat::Float32x3);
    f.push(VertexFormat::Float32x2);
    assert(f@ =~= spec_texture_vertex_formats());
    f
}

/// Builds the layout of packed vertices with the given formats.
pub fn packed_layout(formats: &[VertexFormat]) -> (layout: VertexBufferLayout)
    requires
        formats@.len() <= u32::MAX,
    ensures
        is_packed_layout(layout, formats@),
{
    let attributes = vertex_attr_array(formats);
    let n = formats.len();
    let stride: u64 = if n == 0 {
        0
    } else {
        proof {
            lemma_packed_size_bounded(formats@, n - 1);
            assert(attributes@[n - 1] == packed_attributes(formats@)[n - 1]);
        }
        attributes[n - 1].offset + formats[n - 1].size()
    };
    VertexBufferLayout { array_stride: stride, step_mode: VertexStepMode::Vertex, attributes }
}

/// The layout of a position-and-color vertex computed from its formats.
pub fn color_vertex_desc_macro() -> (layout: VertexBufferLayout)
    ensures
        is_packed_layout(layout, spec_color_vertex_formats()),
{
    let formats = color_vertex_formats();
    packed_layout(formats.as_slice())
}

/// The layout of a position-and-texture-coordinates vertex: position at
/// location 0, texture coordinates at location 1, packed.
pub fn texture_vertex_desc() -> (layout: VertexBufferLayout)
    ensures
        is_packed_layout(layout, spec_texture_vertex_formats()),
{
    let formats = texture_vertex_formats();
    packed_layout(formats.as_slice())
}

/// Writing the attributes out by hand and computing them from the formats
/// describe the same layout of a position-and-color vertex.
pub proof fn law_desc_matches_desc_macro(hand: VertexBufferLayout, computed: VertexBufferLayout)
    requires
        hand.array_stride == 24,
        hand.step_mode == VertexStepMode::Vertex,
        hand.attributes@ == seq![
            VertexAttribute { format: VertexFormat::Float32x3, offset: 0, shader_location: 0 },
            VertexAttribute { format: VertexFormat::Float32x3, offset: 12, shader_location: 1 },
        ],
        is_packed_layout(computed, spec_color_vertex_formats()),
    ensures
        hand.array_stride == computed.array_stride,
        hand.step_mode == computed.step_mode,
        hand.attributes@ == computed.attributes@,
{
    let f = spec_color_vertex_formats();
    reveal_with_fuel(packed_size, 3);
    assert(packed_size(f, 1) == 12);
    assert(packed_size(f, 2) == 24);
    assert(hand.attributes@ =~= packed_attributes(f));
}

/// In a packed layout each attribute starts where the one before it ends, the
/// first at offset 0, and the last one ends exactly at the stride: the
/// attributes never overlap and fill the vertex.
pub proof fn law_packed_attributes_tile_the_vertex(formats: Seq<VertexFormat>)
    requires
        formats.len() <= u32::MAX,
    ensures
        forall|i: int|
            0 <= i < formats.len() ==> (#[trigger] packed_attributes(formats)[i]).offset as nat
                + format_size(formats[i]) == packed_size(formats, i + 1),
        formats.len() > 0 ==> packed_attributes(formats)[0].offset == 0,
        forall|i: int|
            0 <= i < formats.len() ==> (#[trigger] packed_attributes(formats)[i]).offset as nat
                + format_size(formats[i]) <= packed_size(formats, formats.len() as int),
{
    assert forall|i: int| 0 <= i < formats.len() implies (#[trigger] packed_attributes(
        formats,
    )[i]).offset as nat + format_size(formats[i]) == packed_size(formats, i + 1) by {
        lemma_packed_size_bounded(formats, i);
    }
    assert forall|i: int| 0 <= i < formats.len() implies (#[trigger] packed_attributes(
        formats,
    )[i]).offset as nat + format_size(formats[i]) <= packed_size(
        formats,
        formats.len() as int,
    ) by {
        lemma_packed_size_bounded(formats, i);
        lemma_packed_size_monotonic(formats, i + 1, formats.len() as int);
    }
}

proof fn lemma_packed_size_monotonic(formats: Seq<VertexFormat>, m: int, n: int)
    requires
        0 <= m <= n <= formats.len(),
    ensures
        packed_size(formats, m) <= packed_size(formats, n),
    decreases n - m,
{
    if m < n {
        lemma_packed_size_monotonic(formats, m, n - 1);
    }
}

} // verus!
