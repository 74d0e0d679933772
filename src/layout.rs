use vstd::prelude::*;

verus! {

/// Size in bytes of one vertex: a position and a texture coordinate of two
/// 32-bit floats each, then four colour bytes.
pub const VERTEX_SIZE: usize = 20;

/// Size in bytes of one index: indices are 16-bit.
pub const INDEX_SIZE: usize = 2;

/// What a field of the vertex holds, as the GUI library's conversion step
/// names it; `AttributeCount` ends the list.
#[derive(Clone, Copy, Debug, PartialEq, Eq, Structural)]
pub enum VertexAttribute {
    Position,
    TexCoord,
    Color,
    AttributeCount,
}

/// How a field of the vertex is stored; `FormatCount` ends the list.
#[derive(Clone, Copy, Debug, PartialEq, Eq, Structural)]
pub enum VertexFormat {
    Float,
    R8G8B8A8,
    FormatCount,
}

/// One field of the vertex: what it holds, how, and its byte offset.
#[derive(Clone, Copy, Debug, PartialEq, Eq, Structural)]
pub struct LayoutElement {
    pub attribute: VertexAttribute,
    pub format: VertexFormat,
    pub offset: usize,
}

/// The vertex layout handed to the conversion step: position as floats at
/// byte 0, texture coordinate as floats at byte 8, colour as RGBA bytes at
/// byte 16, and the closing element.
pub open spec fn vertex_layout_spec() -> Seq<LayoutElement> {
    seq![
        LayoutElement { attribute: VertexAttribute::Position, format: VertexFormat::Float, offset: 0 },
        LayoutElement { attribute: VertexAttribute::TexCoord, format: VertexFormat::Float, offset: 8 },
        LayoutElement { attribute: VertexAttribute::Color, format: VertexFormat::R8G8B8A8, offset: 16 },
        LayoutElement { attribute: VertexAttribute::AttributeCount, format: VertexFormat::FormatCount, offset: 32 },
    ]
}

/// Builds the vertex layout that the conversion step packs vertices by.
pub fn vertex_layout() -> (r: Vec<LayoutElement>)
    ensures
        r@ == vertex_layout_spec(),
{
    let r = vec![
        LayoutElement { attribute: VertexAttribute::Position, format: VertexFormat::Float, offset: 0 },
        LayoutElement { attribute: VertexAttribute::TexCoord, format: VertexFormat::Float, offset: 8 },
        LayoutElement { attribute: VertexAttribute::Color, format: VertexFormat::R8G8B8A8, offset: 16 },
        LayoutElement { attribute: VertexAttribute::AttributeCount, format: VertexFormat::FormatCount, offset: 32 },
    ];
    assert(r@ == vertex_layout_spec());
    r
}

/// The sizes of the two staging buffers: how many vertices and indices they
/// hold, and how many bytes the conversion step may write into each.
#[derive(Clone, Copy, Debug, PartialEq, Eq, Structural)]
pub struct StagingSizes {
    pub vertex_count: usize,
    pub index_count: usize,
    pub vertex_bytes: usize,
    pub index_bytes: usize,
}

/// Sizes staging buffers of exactly `vbo_size` vertices and `ebo_size`
/// indices, or `None` where their byte sizes do not fit in `usize`.
pub fn staging_sizes(vbo_size: usize, ebo_size: usize) -> (r: Option<StagingSizes>)
    ensures
        r is Some <==> vbo_size * VERTEX_SIZE <= usize::MAX && ebo_size * INDEX_SIZE <= usize::MAX,
        r matches Some(s) ==> {
            &&& s.vertex_count == vbo_size
            &&& s.index_count == ebo_size
            &&& s.vertex_bytes == vbo_size * VERTEX_SIZE
            &&& s.index_bytes == ebo_size * INDEX_SIZE
        },
{
    let vertex_bytes = vbo_size.checked_mul(VERTEX_SIZE);
    let index_bytes = ebo_size.checked_mul(INDEX_SIZE);
    match (vertex_bytes, index_bytes) {
        (Some(vb), Some(ib)) => Some(
            StagingSizes { vertex_count: vbo_size, index_count: ebo_size, vertex_bytes: vb, index_bytes: ib },
        ),
        _ => None,
    }
}

} // verus!
