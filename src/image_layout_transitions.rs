use vstd::prelude::*;
use crate::error::Error;

verus! {

/// Stage masks, with the bit values of the graphics API's 64-bit stage flags.
pub const STAGE_TOP_OF_PIPE: u64 = 0x1;
pub const STAGE_FRAGMENT_SHADER: u64 = 0x80;
pub const STAGE_EARLY_FRAGMENT_TESTS: u64 = 0x100;
pub const STAGE_COLOR_ATTACHMENT_OUTPUT: u64 = 0x400;
pub const STAGE_TRANSFER: u64 = 0x1000;

/// Access masks, with the bit values of the graphics API's 64-bit access flags.
pub const ACCESS_NONE: u64 = 0;
pub const ACCESS_SHADER_READ: u64 = 0x20;
pub const ACCESS_COLOR_ATTACHMENT_READ: u64 = 0x80;
pub const ACCESS_COLOR_ATTACHMENT_WRITE: u64 = 0x100;
pub const ACCESS_DEPTH_STENCIL_ATTACHMENT_WRITE: u64 = 0x400;
pub const ACCESS_TRANSFER_READ: u64 = 0x800;
pub const ACCESS_TRANSFER_WRITE: u64 = 0x1000;

/// The usage state of an image on the device.
///
/// `Other` holds, by its raw code, any layout that has no variant of its own.
#[derive(Debug, Clone, Copy, PartialEq, Eq, Structural)]
pub enum ImageLayout {
    Undefined,
    General,
    ColorAttachmentOptimal,
    DepthStencilAttachmentOptimal,
    DepthStencilReadOnlyOptimal,
    ShaderReadOnlyOptimal,
    TransferSrcOptimal,
    TransferDstOptimal,
    Preinitialized,
    DepthAttachmentOptimal,
    DepthReadOnlyOptimal,
    PresentSrc,
    Other(i32),
}

/// The synchronization scope of one layout transition: the four masks a
/// barrier needs.
#[derive(Debug, Clone, Copy, PartialEq, Eq, Structural)]
pub struct TransitionScope {
    pub src_access: u64,
    pub dst_access: u64,
    pub src_stage: u64,
    pub dst_stage: u64,
}

pub open spec fn scope(src_access: u64, dst_access: u64, src_stage: u64, dst_stage: u64) -> TransitionScope {
    TransitionScope { src_access, dst_access, src_stage, dst_stage }
}

/// The layout a value stands for: `Other` with the raw code of a layout that
/// has a variant of its own is that variant.
pub open spec fn canonical(l: ImageLayout) -> ImageLayout {
    match l {
        ImageLayout::Other(raw) => if raw == 0 {
            ImageLayout::Undefined
        } else if raw == 1 {
            ImageLayout::General
        } else if raw == 2 {
            ImageLayout::ColorAttachmentOptimal
        } else if raw == 3 {
            ImageLayout::DepthStencilAttachmentOptimal
        } else if raw == 4 {
            ImageLayout::DepthStencilReadOnlyOptimal
        } else if raw == 5 {
            ImageLayout::ShaderReadOnlyOptimal
        } else if raw == 6 {
            ImageLayout::TransferSrcOptimal
        } else if raw == 7 {
            ImageLayout::TransferDstOptimal
        } else if raw == 8 {
            ImageLayout::Preinitialized
        } else if raw == 1000241000 {
            ImageLayout::DepthAttachmentOptimal
        } else if raw == 1000241001 {
            ImageLayout::DepthReadOnlyOptimal
        } else if raw == 1000001002 {
            ImageLayout::PresentSrc
        } else {
            l
        },
        _ => l,
    }
}

/// Maps a layout to the variant it stands for (see `canonical`).
pub fn canonical_layout(l: ImageLayout) -> (r: ImageLayout)
    ensures
        r == canonical(l),
{
    match l {
        ImageLayout::Other(raw) => if raw == 0 {
            ImageLayout::Undefined
        } else if raw == 1 {
            ImageLayout::General
        } else if raw == 2 {
            ImageLayout::ColorAttachmentOptimal
        } else if raw == 3 {
            ImageLayout::DepthStencilAttachmentOptimal
        } else if raw == 4 {
            ImageLayout::DepthStencilReadOnlyOptimal
        } else if raw == 5 {
            ImageLayout::ShaderReadOnlyOptimal
        } else if raw == 6 {
            ImageLayout::TransferSrcOptimal
        } else if raw == 7 {
            ImageLayout::TransferDstOptimal
        } else if raw == 8 {
            ImageLayout::Preinitialized
        } else if raw == 1000241000 {
            ImageLayout::DepthAttachmentOptimal
        } else if raw == 1000241001 {
            ImageLayout::DepthReadOnlyOptimal
        } else if raw == 1000001002 {
            ImageLayout::PresentSrc
        } else {
            l
        },
        _ => l,
    }
}

/// The transition table: the minimal scope for each supported
/// `(current, destination)` pair, `None` for every pair outside it. Layouts
/// are compared by what they stand for, so `Other` with a known raw code
/// finds the same entry as its variant.
pub open spec fn transition_scope(src: ImageLayout, dst: ImageLayout) -> Option<TransitionScope> {
    table_scope(canonical(src), canonical(dst))
}

/// The entries of the table, over canonical layouts.
pub open spec fn table_scope(src: ImageLayout, dst: ImageLayout) -> Option<TransitionScope> {
    match (src, dst) {
        (ImageLayout::Undefined, ImageLayout::TransferDstOptimal) =>
            Some(scope(ACCESS_NONE, ACCESS_TRANSFER_WRITE, STAGE_TOP_OF_PIPE, STAGE_TRANSFER)),
        (ImageLayout::Undefined, ImageLayout::ShaderReadOnlyOptimal) =>
            Some(scope(ACCESS_NONE, ACCESS_SHADER_READ, STAGE_TOP_OF_PIPE, STAGE_FRAGMENT_SHADER)),
        (ImageLayout::Undefined, ImageLayout::PresentSrc) =>
            Some(scope(ACCESS_NONE, ACCESS_COLOR_ATTACHMENT_READ, STAGE_TOP_OF_PIPE, STAGE_COLOR_ATTACHMENT_OUTPUT)),
        (ImageLayout::Undefined, ImageLayout::ColorAttachmentOptimal) =>
            Some(scope(ACCESS_NONE, ACCESS_COLOR_ATTACHMENT_WRITE, STAGE_TOP_OF_PIPE, STAGE_COLOR_ATTACHMENT_OUTPUT)),
        (ImageLayout::Undefined, ImageLayout::DepthAttachmentOptimal) =>
            Some(scope(ACCESS_NONE, ACCESS_DEPTH_STENCIL_ATTACHMENT_WRITE, STAGE_TOP_OF_PIPE, STAGE_EARLY_FRAGMENT_TESTS)),
        (ImageLayout::ShaderReadOnlyOptimal, ImageLayout::TransferDstOptimal) =>
            Some(scope(ACCESS_SHADER_READ, ACCESS_TRANSFER_WRITE, STAGE_FRAGMENT_SHADER, STAGE_TRANSFER)),
        (ImageLayout::ShaderReadOnlyOptimal, ImageLayout::PresentSrc) =>
            Some(scope(ACCESS_SHADER_READ, ACCESS_COLOR_ATTACHMENT_READ, STAGE_FRAGMENT_SHADER, STAGE_COLOR_ATTACHMENT_OUTPUT)),
        (ImageLayout::ShaderReadOnlyOptimal, ImageLayout::ColorAttachmentOptimal) =>
            Some(scope(ACCESS_SHADER_READ, ACCESS_COLOR_ATTACHMENT_WRITE, STAGE_FRAGMENT_SHADER, STAGE_COLOR_ATTACHMENT_OUTPUT)),
        (ImageLayout::TransferDstOptimal, ImageLayout::TransferSrcOptimal) =>
            Some(scope(ACCESS_TRANSFER_WRITE, ACCESS_TRANSFER_READ, STAGE_TRANSFER, STAGE_TRANSFER)),
        (ImageLayout::TransferDstOptimal, ImageLayout::ShaderReadOnlyOptimal) =>
            Some(scope(ACCESS_TRANSFER_WRITE, ACCESS_SHADER_READ, STAGE_TRANSFER, STAGE_FRAGMENT_SHADER)),
        (ImageLayout::TransferDstOptimal, ImageLayout::PresentSrc) =>
            Some(scope(ACCESS_TRANSFER_WRITE, ACCESS_COLOR_ATTACHMENT_READ, STAGE_TRANSFER, STAGE_COLOR_ATTACHMENT_OUTPUT)),
        (ImageLayout::PresentSrc, ImageLayout::TransferDstOptimal) =>
            Some(scope(ACCESS_COLOR_ATTACHMENT_READ, ACCESS_TRANSFER_WRITE, STAGE_COLOR_ATTACHMENT_OUTPUT, STAGE_TRANSFER)),
        (ImageLayout::PresentSrc, ImageLayout::ShaderReadOnlyOptimal) =>
            Some(scope(ACCESS_COLOR_ATTACHMENT_READ, ACCESS_SHADER_READ, STAGE_COLOR_ATTACHMENT_OUTPUT, STAGE_FRAGMENT_SHADER)),
        (ImageLayout::ColorAttachmentOptimal, ImageLayout::ColorAttachmentOptimal) =>
            Some(scope(ACCESS_COLOR_ATTACHMENT_WRITE, ACCESS_COLOR_ATTACHMENT_WRITE, STAGE_COLOR_ATTACHMENT_OUTPUT, STAGE_COLOR_ATTACHMENT_OUTPUT)),
        (ImageLayout::ColorAttachmentOptimal, ImageLayout::ShaderReadOnlyOptimal) =>
            Some(scope(ACCESS_COLOR_ATTACHMENT_WRITE, ACCESS_SHADER_READ, STAGE_COLOR_ATTACHMENT_OUTPUT, STAGE_FRAGMENT_SHADER)),
        _ => None,
    }
}

/// Looks a pair up in the transition table.
pub fn lookup_transition(src: ImageLayout, dst: ImageLayout) -> (r: Option<TransitionScope>)
    ensures
        r == transition_scope(src, dst),
{
    match (canonical_layout(src), canonical_layout(dst)) {
        (ImageLayout::Undefined, ImageLayout::TransferDstOptimal) =>
            Some(TransitionScope { src_access: ACCESS_NONE, dst_access: ACCESS_TRANSFER_WRITE, src_stage: STAGE_TOP_OF_PIPE, dst_stage: STAGE_TRANSFER }),
        (ImageLayout::Undefined, ImageLayout::ShaderReadOnlyOptimal) =>
            Some(TransitionScope { src_access: ACCESS_NONE, dst_access: ACCESS_SHADER_READ, src_stage: STAGE_TOP_OF_PIPE, dst_stage: STAGE_FRAGMENT_SHADER }),
        (ImageLayout::Undefined, ImageLayout::PresentSrc) =>
            Some(TransitionScope { src_access: ACCESS_NONE, dst_access: ACCESS_COLOR_ATTACHMENT_READ, src_stage: STAGE_TOP_OF_PIPE, dst_stage: STAGE_COLOR_ATTACHMENT_OUTPUT }),
        (ImageLayout::Undefined, ImageLayout::ColorAttachmentOptimal) =>
            Some(TransitionScope { src_access: ACCESS_NONE, dst_access: ACCESS_COLOR_ATTACHMENT_WRITE, src_stage: STAGE_TOP_OF_PIPE, dst_stage: STAGE_COLOR_ATTACHMENT_OUTPUT }),
        (ImageLayout::Undefined, ImageLayout::DepthAttachmentOptimal) =>
            Some(TransitionScope { src_access: ACCESS_NONE, dst_access: ACCESS_DEPTH_STENCIL_ATTACHMENT_WRITE, src_stage: STAGE_TOP_OF_PIPE, dst_stage: STAGE_EARLY_FRAGMENT_TESTS }),
        (ImageLayout::ShaderReadOnlyOptimal, ImageLayout::TransferDstOptimal) =>
            Some(TransitionScope { src_access: ACCESS_SHADER_READ, dst_access: ACCESS_TRANSFER_WRITE, src_stage: STAGE_FRAGMENT_SHADER, dst_stage: STAGE_TRANSFER }),
        (ImageLayout::ShaderReadOnlyOptimal, ImageLayout::PresentSrc) =>
            Some(TransitionScope { src_access: ACCESS_SHADER_READ, dst_access: ACCESS_COLOR_ATTACHMENT_READ, src_stage: STAGE_FRAGMENT_SHADER, dst_stage: STAGE_COLOR_ATTACHMENT_OUTPUT }),
        (ImageLayout::ShaderReadOnlyOptimal, ImageLayout::ColorAttachmentOptimal) =>
            Some(TransitionScope { src_access: ACCESS_SHADER_READ, dst_access: ACCESS_COLOR_ATTACHMENT_WRITE, src_stage: STAGE_FRAGMENT_SHADER, dst_stage: STAGE_COLOR_ATTACHMENT_OUTPUT }),
        (ImageLayout::TransferDstOptimal, ImageLayout::TransferSrcOptimal) =>
            Some(TransitionScope { src_access: ACCESS_TRANSFER_WRITE, dst_access: ACCESS_TRANSFER_READ, src_stage: STAGE_TRANSFER, dst_stage: STAGE_TRANSFER }),
        (ImageLayout::TransferDstOptimal, ImageLayout::ShaderReadOnlyOptimal) =>
            Some(TransitionScope { src_access: ACCESS_TRANSFER_WRITE, dst_access: ACCESS_SHADER_READ, src_stage: STAGE_TRANSFER, dst_stage: STAGE_FRAGMENT_SHADER }),
        (ImageLayout::TransferDstOptimal, ImageLayout::PresentSrc) =>
            Some(TransitionScope { src_access: ACCESS_TRANSFER_WRITE, dst_access: ACCESS_COLOR_ATTACHMENT_READ, src_stage: STAGE_TRANSFER, dst_stage: STAGE_COLOR_ATTACHMENT_OUTPUT }),
        (ImageLayout::PresentSrc, ImageLayout::TransferDstOptimal) =>
            Some(TransitionScope { src_access: ACCESS_COLOR_ATTACHMENT_READ, dst_access: ACCESS_TRANSFER_WRITE, src_stage: STAGE_COLOR_ATTACHMENT_OUTPUT, dst_stage: STAGE_TRANSFER }),
        (ImageLayout::PresentSrc, ImageLayout::ShaderReadOnlyOptimal) =>
            Some(TransitionScope { src_access: ACCESS_COLOR_ATTACHMENT_READ, dst_access: ACCESS_SHADER_READ, src_stage: STAGE_COLOR_ATTACHMENT_OUTPUT, dst_stage: STAGE_FRAGMENT_SHADER }),
        (ImageLayout::ColorAttachmentOptimal, ImageLayout::ColorAttachmentOptimal) =>
            Some(TransitionScope { src_access: ACCESS_COLOR_ATTACHMENT_WRITE, dst_access: ACCESS_COLOR_ATTACHMENT_WRITE, src_stage: STAGE_COLOR_ATTACHMENT_OUTPUT, dst_stage: STAGE_COLOR_ATTACHMENT_OUTPUT }),
        (ImageLayout::ColorAttachmentOptimal, ImageLayout::ShaderReadOnlyOptimal) =>
            Some(TransitionScope { src_access: ACCESS_COLOR_ATTACHMENT_WRITE, dst_access: ACCESS_SHADER_READ, src_stage: STAGE_COLOR_ATTACHMENT_OUTPUT, dst_stage: STAGE_FRAGMENT_SHADER }),
        _ => None,
    }
}

/// An image memory barrier over mip level 0 and array layer 0 of an image.
#[derive(Debug, Clone, Copy, PartialEq, Eq, Structural)]
pub struct ImageBarrier {
    /// Raw handle of the image.
    pub image: u64,
    pub src_stage_mask: u64,
    pub dst_stage_mask: u64,
    pub src_access_mask: u64,
    pub dst_access_mask: u64,
    pub src_queue_family_index: u32,
    pub dst_queue_family_index: u32,
    pub old_layout: ImageLayout,
    pub new_layout: ImageLayout,
    pub aspect_mask: u32,
    pub base_mip_level: u32,
    pub level_count: u32,
    pub base_array_layer: u32,
    pub layer_count: u32,
}

/// A queue family index that defaults to 0 when omitted; with both sides
/// omitted the barrier transfers no ownership.
pub open spec fn queue_or_default(q: Option<u32>) -> u32 {
    match q {
        Some(i) => i,
        None => 0,
    }
}

/// The barrier that moves `image` from `src` to `dst` under `s`.
pub open spec fn barrier_for(
    image: u64,
    src: ImageLayout,
    dst: ImageLayout,
    aspect_mask: u32,
    src_queue: Option<u32>,
    dst_queue: Option<u32>,
    s: TransitionScope,
) -> ImageBarrier {
    ImageBarrier {
        image,
        src_stage_mask: s.src_stage,
        dst_stage_mask: s.dst_stage,
        src_access_mask: s.src_access,
        dst_access_mask: s.dst_access,
        src_queue_family_index: queue_or_default(src_queue),
        dst_queue_family_index: queue_or_default(dst_queue),
        old_layout: src,
        new_layout: dst,
        aspect_mask,
        base_mip_level: 0,
        level_count: 1,
        base_array_layer: 0,
        layer_count: 1,
    }
}

/// What a transition request yields: the barrier for a pair of the table,
/// `UnsupportedImageLayoutTransition` for any other pair.
pub open spec fn transition_result(
    image: u64,
    src: ImageLayout,
    dst: ImageLayout,
    aspect_mask: u32,
    src_queue: Option<u32>,
    dst_queue: Option<u32>,
) -> Result<ImageBarrier, Error> {
    match transition_scope(src, dst) {
        Some(s) => Ok(barrier_for(image, src, dst, aspect_mask, src_queue, dst_queue, s)),
        None => Err(Error::UnsupportedImageLayoutTransition),
    }
}

/// The layout an image is in after a transition request from `current` to
/// `dst`: `dst` for a pair of the table, `current` for any other.
pub open spec fn next_layout(current: ImageLayout, dst: ImageLayout) -> ImageLayout {
    if transition_scope(current, dst) is Some {
        dst
    } else {
        current
    }
}

/// For every pair of the table a request succeeds and the image ends in the
/// destination layout; for every other pair it fails with
/// `UnsupportedImageLayoutTransition` and the layout stays as it was.
pub proof fn lemma_transition_table(
    image: u64,
    current: ImageLayout,
    dst: ImageLayout,
    aspect_mask: u32,
    src_queue: Option<u32>,
    dst_queue: Option<u32>,
)
    ensures
        transition_scope(current, dst) is Some ==> transition_result(
            image,
            current,
            dst,
            aspect_mask,
            src_queue,
            dst_queue,
        ) is Ok && next_layout(current, dst) == dst,
        transition_scope(current, dst) is None ==> transition_result(
            image,
            current,
            dst,
            aspect_mask,
            src_queue,
            dst_queue,
        ) == Err::<ImageBarrier, Error>(Error::UnsupportedImageLayoutTransition) && next_layout(current, dst)
            == current,
{
}

/// Derives the barrier for moving `image` from `src_layout` to `dst_layout`.
pub fn get_image_layout_transition_barrier2(
    image: u64,
    src_layout: ImageLayout,
    dst_layout: ImageLayout,
    aspect_flags: u32,
    src_queue: Option<u32>,
    dst_queue: Option<u32>,
) -> (r: Result<ImageBarrier, Error>)
    ensures
        r == transition_result(image, src_layout, dst_layout, aspect_flags, src_queue, dst_queue),
{
    let s = match lookup_transition(src_layout, dst_layout) {
        Some(s) => s,
        None => return Err(Error::UnsupportedImageLayoutTransition),
    };
    let src_queue_family_index: u32 = match src_queue {
        Some(i) => i,
        None => 0,
    };
    let dst_queue_family_index: u32 = match dst_queue {
        Some(i) => i,
        None => 0,
    };
    Ok(ImageBarrier {
        image,
        src_stage_mask: s.src_stage,
        dst_stage_mask: s.dst_stage,
        src_access_mask: s.src_access,
        dst_access_mask: s.dst_access,
        src_queue_family_index,
        dst_queue_family_index,
        old_layout: src_layout,
        new_layout: dst_layout,
        aspect_mask: aspect_flags,
        base_mip_level: 0,
        level_count: 1,
        base_array_layer: 0,
        layer_count: 1,
    })
}

/// The layout an image is in on the device, as far as the transitions
/// requested on it tell. It starts undefined and moves only through
/// `request_transition`.
pub struct LayoutTracker {
    layout: ImageLayout,
}

impl View for LayoutTracker {
    type V = ImageLayout;

    closed spec fn view(&self) -> ImageLayout {
        self.layout
    }
}

impl LayoutTracker {
    /// A tracker for an image just created: its layout is undefined.
    pub fn undefined() -> (r: Self)
        ensures
            r@ == ImageLayout::Undefined,
    {
        LayoutTracker { layout: ImageLayout::Undefined }
    }

    /// The tracked layout.
    pub fn get(&self) -> (r: ImageLayout)
        ensures
            r == self@,
    {
        self.layout
    }

    /// Derives the barrier that moves `image` from the tracked layout to
    /// `dst`, and advances the tracked layout to `dst` when the pair is in
    /// the table.
    pub fn request_transition(
        &mut self,
        image: u64,
        dst: ImageLayout,
        aspect_mask: u32,
        src_queue: Option<u32>,
        dst_queue: Option<u32>,
    ) -> (r: Result<ImageBarrier, Error>)
        ensures
            r == transition_result(image, old(self)@, dst, aspect_mask, src_queue, dst_queue),
            final(self)@ == next_layout(old(self)@, dst),
    {
        let r = get_image_layout_transition_barrier2(image, self.layout, dst, aspect_mask, src_queue, dst_queue);
        if r.is_ok() {
            self.layout = dst;
        }
        r
    }
}

} // verus!
