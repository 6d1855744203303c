use vstd::prelude::*;
use gpu_allocator::vulkan::Allocation;
use crate::error::{AllocError, Error};
use crate::image_layout_transitions::{
    next_layout, transition_result, ImageBarrier, ImageLayout, LayoutTracker,
};
use crate::vma_buffer::{mapped_bytes, write_outcome, BufferRequest, MemoryClass, VMABuffer, BUFFER_USAGE_TRANSFER_SRC};

verus! {

/// Image usage bits of the graphics API, as the library uses them.
pub const IMAGE_USAGE_TRANSFER_SRC: u32 = 0x1;
pub const IMAGE_USAGE_TRANSFER_DST: u32 = 0x2;
pub const IMAGE_USAGE_SAMPLED: u32 = 0x4;
pub const IMAGE_USAGE_COLOR_ATTACHMENT: u32 = 0x10;
pub const IMAGE_USAGE_DEPTH_STENCIL_ATTACHMENT: u32 = 0x20;

/// Image aspect bits of the graphics API.
pub const ASPECT_COLOR: u32 = 0x1;
pub const ASPECT_DEPTH: u32 = 0x2;

#[derive(Debug, Clone, Copy, PartialEq, Eq, Structural)]
pub struct Extent3D {
    pub width: u32,
    pub height: u32,
    pub depth: u32,
}

/// Bytes that hold every texel of `extent` at `sizeof` bytes a texel.
pub open spec fn texel_bytes(extent: Extent3D, sizeof: usize) -> int {
    extent.width * extent.height * extent.depth * sizeof
}

/// The size of the staging buffer for `extent` at `sizeof` bytes a texel;
/// `None` when it does not fit in `usize`.
pub fn staging_buffer_size(extent: Extent3D, sizeof: usize) -> (r: Option<usize>)
    ensures
        texel_bytes(extent, sizeof) <= usize::MAX ==> r == Some(texel_bytes(extent, sizeof) as usize),
        texel_bytes(extent, sizeof) > usize::MAX ==> r is None,
{
    let w = extent.width as usize;
    let h = extent.height as usize;
    let d = extent.depth as usize;
    if w == 0 || h == 0 || d == 0 || sizeof == 0 {
        assert(texel_bytes(extent, sizeof) == 0) by (nonlinear_arith)
            requires
                w == extent.width, h == extent.height, d == extent.depth,
                w == 0 || h == 0 || d == 0 || sizeof == 0;
        return Some(0);
    }
    let wh = match w.checked_mul(h) {
        Some(v) => v,
        None => {
            assert(texel_bytes(extent, sizeof) >= w * h) by (nonlinear_arith)
                requires w == extent.width, h == extent.height, d == extent.depth, d >= 1, sizeof >= 1;
            return None;
        },
    };
    let whd = match wh.checked_mul(d) {
        Some(v) => v,
        None => {
            assert(texel_bytes(extent, sizeof) >= wh * d) by (nonlinear_arith)
                requires wh == w * h, w == extent.width, h == extent.height, d == extent.depth, sizeof >= 1;
            return None;
        },
    };
    match whd.checked_mul(sizeof) {
        Some(v) => Some(v),
        None => None,
    }
}

/// What an image creation asks of the device: a 2D image of `extent` and
/// `format` with one mip level and one layer, `usage`, a view over `aspect_flags`,
/// and a host-mapped staging buffer large enough for every texel.
#[derive(Debug, Clone, PartialEq, Eq)]
pub struct ImageRequest {
    pub extent: Extent3D,
    pub format: i32,
    pub usage: u32,
    pub aspect_flags: u32,
    pub staging: BufferRequest,
}

pub open spec fn image_request_ok(
    r: ImageRequest,
    extent: Extent3D,
    format: i32,
    sizeof: usize,
    usage: u32,
    aspect_flags: u32,
) -> bool {
    &&& r.extent == extent
    &&& r.format == format
    &&& r.usage == usage
    &&& r.aspect_flags == aspect_flags
    &&& r.staging.size == texel_bytes(extent, sizeof)
    &&& r.staging.usage == BUFFER_USAGE_TRANSFER_SRC
    &&& r.staging.class == MemoryClass::Upload
}

/// The request result: fails with out-of-memory when the staging size does
/// not fit in `usize`.
pub open spec fn image_request_result(
    r: Result<ImageRequest, Error>,
    extent: Extent3D,
    format: i32,
    sizeof: usize,
    usage: u32,
    aspect_flags: u32,
) -> bool {
    match r {
        Ok(req) => texel_bytes(extent, sizeof) <= usize::MAX
            && image_request_ok(req, extent, format, sizeof, usage, aspect_flags),
        Err(e) => texel_bytes(extent, sizeof) > usize::MAX
            && e == Error::GpuAllocError(AllocError::OutOfMemory),
    }
}

fn image_request(extent: Extent3D, format: i32, sizeof: usize, usage: u32, aspect_flags: u32) -> (r: Result<
    ImageRequest,
    Error,
>)
    ensures
        image_request_result(r, extent, format, sizeof, usage, aspect_flags),
{
    match staging_buffer_size(extent, sizeof) {
        Some(n) => {
            let staging = VMABuffer::request(n, BUFFER_USAGE_TRANSFER_SRC, MemoryClass::Upload);
            Ok(ImageRequest { extent, format, usage, aspect_flags, staging })
        },
        None => Err(Error::GpuAllocError(AllocError::OutOfMemory)),
    }
}

/// An image with its view, its allocation and a staging buffer, and the
/// layout it is in on the device.
pub struct VMAImage {
    pub staging_buffer: VMABuffer,
    /// Raw handle of the native image.
    pub image: u64,
    pub extent: Extent3D,
    pub aspect_flags: u32,
    /// Raw handle of the image view.
    pub image_view: u64,
    pub allocation: Allocation,
    /// Advanced only by `get_image_layout_transition_barrier2`.
    pub current_layout: LayoutTracker,
}

impl VMAImage {
    /// The layout the image is in, as far as the transitions requested on
    /// it tell.
    pub open spec fn layout(&self) -> ImageLayout {
        self.current_layout@
    }

    /// The request for an image to upload to and sample: usage sampled,
    /// transfer destination and transfer source.
    pub fn empty_image_request(extent: Extent3D, format: i32, sizeof: usize, aspect_mask: u32) -> (r: Result<
        ImageRequest,
        Error,
    >)
        ensures
            image_request_result(
                r,
                extent,
                format,
                sizeof,
                IMAGE_USAGE_SAMPLED | IMAGE_USAGE_TRANSFER_DST | IMAGE_USAGE_TRANSFER_SRC,
                aspect_mask,
            ),
    {
        image_request(extent, format, sizeof, IMAGE_USAGE_SAMPLED | IMAGE_USAGE_TRANSFER_DST | IMAGE_USAGE_TRANSFER_SRC, aspect_mask)
    }

    /// The request for a depth attachment.
    pub fn depth_image_request(extent: Extent3D, format: i32, sizeof: usize) -> (r: Result<ImageRequest, Error>)
        ensures
            image_request_result(r, extent, format, sizeof, IMAGE_USAGE_DEPTH_STENCIL_ATTACHMENT, ASPECT_DEPTH),
    {
        image_request(extent, format, sizeof, IMAGE_USAGE_DEPTH_STENCIL_ATTACHMENT, ASPECT_DEPTH)
    }

    /// The request for a color attachment that is sampled afterwards.
    pub fn render_image_request(extent: Extent3D, format: i32, sizeof: usize) -> (r: Result<ImageRequest, Error>)
        ensures
            image_request_result(
                r,
                extent,
                format,
                sizeof,
                IMAGE_USAGE_COLOR_ATTACHMENT | IMAGE_USAGE_SAMPLED,
                ASPECT_COLOR,
            ),
    {
        image_request(extent, format, sizeof, IMAGE_USAGE_COLOR_ATTACHMENT | IMAGE_USAGE_SAMPLED, ASPECT_COLOR)
    }

    /// Takes ownership of a native image, its view, its allocation and its
    /// staging buffer. A new image is in the undefined layout.
    pub fn new(
        staging_buffer: VMABuffer,
        image: u64,
        extent: Extent3D,
        aspect_flags: u32,
        image_view: u64,
        allocation: Allocation,
    ) -> (r: Self)
        ensures
            r.staging_buffer == staging_buffer,
            r.image == image,
            r.extent == extent,
            r.aspect_flags == aspect_flags,
            r.image_view == image_view,
            r.allocation == allocation,
            r.layout() == ImageLayout::Undefined,
    {
        VMAImage {
            staging_buffer,
            image,
            extent,
            aspect_flags,
            image_view,
            allocation,
            current_layout: LayoutTracker::undefined(),
        }
    }

    /// Copies `data` to the start of the staging buffer.
    pub fn set_staging_data(&mut self, data: &[u8]) -> (r: Result<(), Error>)
        ensures
            (r, mapped_bytes(final(self).staging_buffer.allocation)) == write_outcome(
                old(self).staging_buffer.class,
                mapped_bytes(old(self).staging_buffer.allocation),
                0,
                data@,
            ),
            r is Err ==> *final(self) == *old(self),
            final(self).staging_buffer.buffer == old(self).staging_buffer.buffer,
            final(self).staging_buffer.class == old(self).staging_buffer.class,
            final(self).staging_buffer.size == old(self).staging_buffer.size,
            final(self).image == old(self).image,
            final(self).extent == old(self).extent,
            final(self).aspect_flags == old(self).aspect_flags,
            final(self).image_view == old(self).image_view,
            final(self).allocation == old(self).allocation,
            final(self).layout() == old(self).layout(),
    {
        self.staging_buffer.set_data(0, data)
    }

    /// The barrier that moves this image from its current layout to
    /// `dst_layout`. On success the image is in `dst_layout` afterwards; a
    /// pair outside the transition table fails and leaves the layout as it was.
    pub fn get_image_layout_transition_barrier2(
        &mut self,
        dst_layout: ImageLayout,
        src_queue: Option<u32>,
        dst_queue: Option<u32>,
    ) -> (r: Result<ImageBarrier, Error>)
        ensures
            r == transition_result(
                old(self).image,
                old(self).layout(),
                dst_layout,
                old(self).aspect_flags,
                src_queue,
                dst_queue,
            ),
            final(self).layout() == next_layout(old(self).layout(), dst_layout),
            final(self).staging_buffer == old(self).staging_buffer,
            final(self).image == old(self).image,
            final(self).extent == old(self).extent,
            final(self).aspect_flags == old(self).aspect_flags,
            final(self).image_view == old(self).image_view,
            final(self).allocation == old(self).allocation,
    {
        self.current_layout.request_transition(self.image, dst_layout, self.aspect_flags, src_queue, dst_queue)
    }
}

} // verus!
