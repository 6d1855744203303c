use vstd::prelude::*;
use crate::vma_buffer::VMABuffer;

verus! {

/// Per-frame index and vertex buffers with the pipeline objects (raw
/// handles) of a basic renderer.
pub struct BaseRenderer {
    pub index_buffers: Vec<VMABuffer>,
    pub vertex_buffers: Vec<VMABuffer>,
    pub pipeline_layout: u64,
    pub pipeline: u64,
    pub descriptor_pool: u64,
    pub sampled_image_desc_set_layout: u64,
    pub sampler: u64,
}

} // verus!
