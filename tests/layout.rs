use nuklear_backend_glium::{
    staging_sizes, vertex_layout, LayoutElement, StagingSizes, VertexAttribute, VertexFormat, INDEX_SIZE, VERTEX_SIZE,
};

#[test]
fn vertex_layout_offsets() {
    let l = vertex_layout();
    assert_eq!(
        l,
        vec![
            LayoutElement { attribute: VertexAttribute::Position, format: VertexFormat::Float, offset: 0 },
            LayoutElement { attribute: VertexAttribute::TexCoord, format: VertexFormat::Float, offset: 8 },
            LayoutElement { attribute: VertexAttribute::Color, format: VertexFormat::R8G8B8A8, offset: 16 },
            LayoutElement { attribute: VertexAttribute::AttributeCount, format: VertexFormat::FormatCount, offset: 32 },
        ]
    );
}

#[test]
fn staging_sizes_are_exact() {
    assert_eq!(VERTEX_SIZE, 2 * std::mem::size_of::<f32>() * 2 + 4);
    assert_eq!(INDEX_SIZE, std::mem::size_of::<u16>());
    assert_eq!(
        staging_sizes(512, 128),
        Some(StagingSizes { vertex_count: 512, index_count: 128, vertex_bytes: 10240, index_bytes: 256 })
    );
    assert_eq!(
        staging_sizes(0, 0),
        Some(StagingSizes { vertex_count: 0, index_count: 0, vertex_bytes: 0, index_bytes: 0 })
    );
}

#[test]
fn staging_sizes_that_overflow_are_refused() {
    assert_eq!(staging_sizes(usize::MAX / 20 + 1, 4), None);
    assert_eq!(staging_sizes(4, usize::MAX / 2 + 1), None);
    assert!(staging_sizes(usize::MAX / 20, usize::MAX / 2).is_some());
}
