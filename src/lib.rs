//! Draw-call planning for an immediate-mode GUI rendered through a GPU backend.
//!
//! The library holds the texture registry, the vertex layout handed to the GUI
//! library's conversion step, the sizing of the staging buffers, the scissor
//! computation and the walk over a frame's draw commands. The GPU calls
//! themselves are made by the caller from the plan that this crate produces.
mod frame;
mod layout;
mod registry;
mod scissor;

pub use frame::{
    DrawCall, DrawCommand, FrameError, lemma_empty_command_skipped, lemma_empty_frame,
    lemma_index_ranges_consecutive, plan_frame, plan_spec,
};
pub use layout::{
    INDEX_SIZE, LayoutElement, StagingSizes, VERTEX_SIZE, VertexAttribute, VertexFormat, staging_sizes,
    vertex_layout, vertex_layout_spec,
};
pub use registry::{
    TextureEntry, TextureRegistry, lemma_handles_dense, lemma_out_of_range_handles,
    lemma_register_then_resolve, resolve_spec,
};
pub use scissor::{ClipRect, ScissorRect, saturate_u32, scissor_rect, scissor_spec};
