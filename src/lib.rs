//! GPU resource and synchronization layer: adapter selection, managed buffers
//! and images with explicit mapping rules, image layout transitions derived
//! from a closed table, and swapchain bookkeeping.
pub mod backend;
pub mod compute_shader;
pub mod create_info;
pub mod device_selector;
pub mod error;
pub mod image_layout_transitions;
pub mod init;
pub mod renderer;
pub mod shader;
pub mod swapchain;
pub mod vma_buffer;
pub mod vma_image;
