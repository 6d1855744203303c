use gpu_allocator::vulkan::Allocation;
use vku::error::Error;
use vku::image_layout_transitions::{
    get_image_layout_transition_barrier2, ImageLayout, LayoutTracker, ACCESS_COLOR_ATTACHMENT_READ,
    ACCESS_COLOR_ATTACHMENT_WRITE, ACCESS_DEPTH_STENCIL_ATTACHMENT_WRITE, ACCESS_NONE, ACCESS_SHADER_READ,
    ACCESS_TRANSFER_READ, ACCESS_TRANSFER_WRITE, STAGE_COLOR_ATTACHMENT_OUTPUT, STAGE_EARLY_FRAGMENT_TESTS,
    STAGE_FRAGMENT_SHADER, STAGE_TOP_OF_PIPE, STAGE_TRANSFER,
};
use vku::vma_buffer::{MemoryClass, VMABuffer};
use vku::vma_image::{Extent3D, VMAImage, ASPECT_COLOR};


fn table() -> Vec<(ImageLayout, ImageLayout, u64, u64, u64, u64)> {
    vec![
        (ImageLayout::Undefined, ImageLayout::TransferDstOptimal, ACCESS_NONE, ACCESS_TRANSFER_WRITE, STAGE_TOP_OF_PIPE, STAGE_TRANSFER),
        (ImageLayout::Undefined, ImageLayout::ShaderReadOnlyOptimal, ACCESS_NONE, ACCESS_SHADER_READ, STAGE_TOP_OF_PIPE, STAGE_FRAGMENT_SHADER),
        (ImageLayout::Undefined, ImageLayout::PresentSrc, ACCESS_NONE, ACCESS_COLOR_ATTACHMENT_READ, STAGE_TOP_OF_PIPE, STAGE_COLOR_ATTACHMENT_OUTPUT),
        (ImageLayout::Undefined, ImageLayout::ColorAttachmentOptimal, ACCESS_NONE, ACCESS_COLOR_ATTACHMENT_WRITE, STAGE_TOP_OF_PIPE, STAGE_COLOR_ATTACHMENT_OUTPUT),
        (ImageLayout::Undefined, ImageLayout::DepthAttachmentOptimal, ACCESS_NONE, ACCESS_DEPTH_STENCIL_ATTACHMENT_WRITE, STAGE_TOP_OF_PIPE, STAGE_EARLY_FRAGMENT_TESTS),
        (ImageLayout::ShaderReadOnlyOptimal, ImageLayout::TransferDstOptimal, ACCESS_SHADER_READ, ACCESS_TRANSFER_WRITE, STAGE_FRAGMENT_SHADER, STAGE_TRANSFER),
        (ImageLayout::ShaderReadOnlyOptimal, ImageLayout::PresentSrc, ACCESS_SHADER_READ, ACCESS_COLOR_ATTACHMENT_READ, STAGE_FRAGMENT_SHADER, STAGE_COLOR_ATTACHMENT_OUTPUT),
        (ImageLayout::ShaderReadOnlyOptimal, ImageLayout::ColorAttachmentOptimal, ACCESS_SHADER_READ, ACCESS_COLOR_ATTACHMENT_WRITE, STAGE_FRAGMENT_SHADER, STAGE_COLOR_ATTACHMENT_OUTPUT),
        (ImageLayout::TransferDstOptimal, ImageLayout::TransferSrcOptimal, ACCESS_TRANSFER_WRITE, ACCESS_TRANSFER_READ, STAGE_TRANSFER, STAGE_TRANSFER),
        (ImageLayout::TransferDstOptimal, ImageLayout::ShaderReadOnlyOptimal, ACCESS_TRANSFER_WRITE, ACCESS_SHADER_READ, STAGE_TRANSFER, STAGE_FRAGMENT_SHADER),
        (ImageLayout::TransferDstOptimal, ImageLayout::PresentSrc, ACCESS_TRANSFER_WRITE, ACCESS_COLOR_ATTACHMENT_READ, STAGE_TRANSFER, STAGE_COLOR_ATTACHMENT_OUTPUT),
        (ImageLayout::PresentSrc, ImageLayout::TransferDstOptimal, ACCESS_COLOR_ATTACHMENT_READ, ACCESS_TRANSFER_WRITE, STAGE_COLOR_ATTACHMENT_OUTPUT, STAGE_TRANSFER),
        (ImageLayout::PresentSrc, ImageLayout::ShaderReadOnlyOptimal, ACCESS_COLOR_ATTACHMENT_READ, ACCESS_SHADER_READ, STAGE_COLOR_ATTACHMENT_OUTPUT, STAGE_FRAGMENT_SHADER),
        (ImageLayout::ColorAttachmentOptimal, ImageLayout::ColorAttachmentOptimal, ACCESS_COLOR_ATTACHMENT_WRITE, ACCESS_COLOR_ATTACHMENT_WRITE, STAGE_COLOR_ATTACHMENT_OUTPUT, STAGE_COLOR_ATTACHMENT_OUTPUT),
        (ImageLayout::ColorAttachmentOptimal, ImageLayout::ShaderReadOnlyOptimal, ACCESS_COLOR_ATTACHMENT_WRITE, ACCESS_SHADER_READ, STAGE_COLOR_ATTACHMENT_OUTPUT, STAGE_FRAGMENT_SHADER),
    ]
}

fn all_layouts() -> Vec<ImageLayout> {
    vec![
        ImageLayout::Undefined,
        ImageLayout::General,
        ImageLayout::ColorAttachmentOptimal,
        ImageLayout::DepthStencilAttachmentOptimal,
        ImageLayout::DepthStencilReadOnlyOptimal,
        ImageLayout::ShaderReadOnlyOptimal,
        ImageLayout::TransferSrcOptimal,
        ImageLayout::TransferDstOptimal,
        ImageLayout::Preinitialized,
        ImageLayout::DepthAttachmentOptimal,
        ImageLayout::DepthReadOnlyOptimal,
        ImageLayout::PresentSrc,
        ImageLayout::Other(1000117000),
    ]
}

#[test]
fn every_table_entry_yields_its_scope() {
    for (src, dst, sa, da, ss, ds) in table() {
        let b = get_image_layout_transition_barrier2(42, src, dst, ASPECT_COLOR, None, None).unwrap();
        assert_eq!(b.image, 42);
        assert_eq!(b.src_access_mask, sa);
        assert_eq!(b.dst_access_mask, da);
        assert_eq!(b.src_stage_mask, ss);
        assert_eq!(b.dst_stage_mask, ds);
        assert_eq!(b.old_layout, src);
        assert_eq!(b.new_layout, dst);
        assert_eq!(b.aspect_mask, ASPECT_COLOR);
        assert_eq!((b.base_mip_level, b.level_count, b.base_array_layer, b.layer_count), (0, 1, 0, 1));
    }
}

#[test]
fn pairs_outside_the_table_fail() {
    let entries = table();
    let mut refused = 0;
    for src in all_layouts() {
        for dst in all_layouts() {
            let listed = entries.iter().any(|e| e.0 == src && e.1 == dst);
            let r = get_image_layout_transition_barrier2(1, src, dst, ASPECT_COLOR, None, None);
            if listed {
                assert!(r.is_ok());
            } else {
                assert_eq!(r, Err(Error::UnsupportedImageLayoutTransition));
                refused += 1;
            }
        }
    }
    assert_eq!(refused, 13 * 13 - 15);
}

#[test]
fn undefined_to_transfer_dst_needs_no_source_access() {
    let b = get_image_layout_transition_barrier2(7, ImageLayout::Undefined, ImageLayout::TransferDstOptimal, ASPECT_COLOR, None, None).unwrap();
    assert_eq!(b.src_access_mask, 0);
    assert_eq!(b.src_stage_mask, 0x1);
    assert_eq!(b.dst_access_mask, 0x1000);
    assert_eq!(b.dst_stage_mask, 0x1000);
}

#[test]
fn queue_indices_default_to_zero_and_pass_through() {
    let b = get_image_layout_transition_barrier2(7, ImageLayout::TransferDstOptimal, ImageLayout::ShaderReadOnlyOptimal, 1, None, None).unwrap();
    assert_eq!((b.src_queue_family_index, b.dst_queue_family_index), (0, 0));
    let b = get_image_layout_transition_barrier2(7, ImageLayout::TransferDstOptimal, ImageLayout::ShaderReadOnlyOptimal, 1, Some(2), Some(5)).unwrap();
    assert_eq!((b.src_queue_family_index, b.dst_queue_family_index), (2, 5));
    let b = get_image_layout_transition_barrier2(7, ImageLayout::TransferDstOptimal, ImageLayout::ShaderReadOnlyOptimal, 1, Some(2), None).unwrap();
    assert_eq!((b.src_queue_family_index, b.dst_queue_family_index), (2, 0));
}

#[test]
fn tracker_advances_only_on_success() {
    let mut t = LayoutTracker::undefined();
    assert_eq!(t.get(), ImageLayout::Undefined);
    assert!(t.request_transition(3, ImageLayout::TransferDstOptimal, 1, None, None).is_ok());
    assert_eq!(t.get(), ImageLayout::TransferDstOptimal);
    assert_eq!(
        t.request_transition(3, ImageLayout::DepthAttachmentOptimal, 1, None, None),
        Err(Error::UnsupportedImageLayoutTransition)
    );
    assert_eq!(t.get(), ImageLayout::TransferDstOptimal);
    assert!(t.request_transition(3, ImageLayout::ShaderReadOnlyOptimal, 1, None, None).is_ok());
    assert_eq!(t.get(), ImageLayout::ShaderReadOnlyOptimal);
}

fn sample_image() -> VMAImage {
    let staging = VMABuffer::new(11, Allocation::default(), MemoryClass::Upload, 40000);
    VMAImage::new(staging, 12, Extent3D { width: 100, height: 100, depth: 1 }, ASPECT_COLOR, 13, Allocation::default())
}

#[test]
fn image_starts_undefined_and_follows_the_table() {
    let mut image = sample_image();
    assert_eq!(image.current_layout.get(), ImageLayout::Undefined);
    let b = image.get_image_layout_transition_barrier2(ImageLayout::TransferDstOptimal, None, None).unwrap();
    assert_eq!(b.image, 12);
    assert_eq!(b.old_layout, ImageLayout::Undefined);
    assert_eq!(image.current_layout.get(), ImageLayout::TransferDstOptimal);
    let b = image.get_image_layout_transition_barrier2(ImageLayout::ShaderReadOnlyOptimal, Some(1), Some(0)).unwrap();
    assert_eq!(b.old_layout, ImageLayout::TransferDstOptimal);
    assert_eq!(b.src_queue_family_index, 1);
    assert_eq!(image.current_layout.get(), ImageLayout::ShaderReadOnlyOptimal);
}

#[test]
fn image_keeps_its_layout_on_unsupported_transition() {
    let mut image = sample_image();
    let r = image.get_image_layout_transition_barrier2(ImageLayout::General, None, None);
    assert_eq!(r, Err(Error::UnsupportedImageLayoutTransition));
    assert_eq!(image.current_layout.get(), ImageLayout::Undefined);
}

#[test]
fn raw_codes_of_named_layouts_find_their_entries() {
    let named = get_image_layout_transition_barrier2(3, ImageLayout::Undefined, ImageLayout::TransferDstOptimal, 1, None, None).unwrap();
    let raw = get_image_layout_transition_barrier2(3, ImageLayout::Other(0), ImageLayout::Other(7), 1, None, None).unwrap();
    assert_eq!(raw.dst_access_mask, named.dst_access_mask);
    assert_eq!(raw.src_stage_mask, named.src_stage_mask);
    assert_eq!(raw.new_layout, ImageLayout::Other(7));
    let present = get_image_layout_transition_barrier2(3, ImageLayout::Other(1000001002), ImageLayout::ShaderReadOnlyOptimal, 1, None, None);
    assert!(present.is_ok());
    assert_eq!(
        get_image_layout_transition_barrier2(3, ImageLayout::Other(1000117000), ImageLayout::TransferDstOptimal, 1, None, None),
        Err(Error::UnsupportedImageLayoutTransition)
    );
}
