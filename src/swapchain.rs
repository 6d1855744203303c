use vstd::prelude::*;
use ash::extensions::khr::{Surface, Swapchain};
use crate::create_info::{ClearDepthStencil, VkInitCreateInfo};
use crate::error::Error;
use crate::image_layout_transitions::{next_layout, transition_result, ImageBarrier, ImageLayout};
use crate::vma_image::{VMAImage, ASPECT_COLOR};

verus! {

/// Surface transform bit that leaves images as they are.
pub const TRANSFORM_IDENTITY: u32 = 0x1;

#[derive(Debug, Clone, Copy, PartialEq, Eq, Structural)]
pub struct Extent2D {
    pub width: u32,
    pub height: u32,
}

/// A color format the surface offers, with its color space (raw codes).
#[derive(Debug, Clone, Copy, PartialEq, Eq, Structural)]
pub struct SurfaceFormat {
    pub format: i32,
    pub color_space: i32,
}

/// What the surface reports of its limits. A maximum image count of 0 means
/// no maximum; transforms are bit masks.
#[derive(Debug, Clone, Copy, PartialEq, Eq, Structural)]
pub struct SurfaceCapabilities {
    pub min_image_count: u32,
    pub max_image_count: u32,
    pub min_image_extent: Extent2D,
    pub max_image_extent: Extent2D,
    pub supported_transforms: u32,
    pub current_transform: u32,
}

/// The chosen surface configuration.
#[derive(Debug, Clone, Copy, PartialEq, Eq, Structural)]
pub struct SurfaceInfo {
    pub min_extent: Extent2D,
    pub max_extent: Extent2D,
    pub current_extent: Extent2D,
    pub image_count: u32,
    pub present_mode: i32,
    pub color_format: SurfaceFormat,
    pub pre_transform: u32,
}

/// The first offered format whose code is `wanted`.
pub open spec fn find_format(formats: Seq<SurfaceFormat>, wanted: i32) -> Option<SurfaceFormat>
    decreases formats.len(),
{
    if formats.len() == 0 {
        None
    } else {
        match find_format(formats.drop_last(), wanted) {
            Some(f) => Some(f),
            None => if formats.last().format == wanted {
                Some(formats.last())
            } else {
                None
            },
        }
    }
}

/// The image count: the requested one, raised to the surface's minimum.
pub open spec fn image_count_for(requested: u32, caps: SurfaceCapabilities) -> u32 {
    if caps.min_image_count != 0 && requested < caps.min_image_count {
        caps.min_image_count
    } else {
        requested
    }
}

/// The identity transform where the surface supports it, else its current one.
pub open spec fn pre_transform_for(caps: SurfaceCapabilities) -> u32 {
    if caps.supported_transforms & TRANSFORM_IDENTITY != 0 {
        TRANSFORM_IDENTITY
    } else {
        caps.current_transform
    }
}

/// The surface configuration for the requested format, present mode and
/// image count; each unmet requirement fails with its own error, checked in
/// that order.
pub open spec fn surface_info_result(
    formats: Seq<SurfaceFormat>,
    present_modes: Seq<i32>,
    caps: SurfaceCapabilities,
    surface_format: i32,
    present_mode: i32,
    request_img_count: u32,
    window_size: [u32; 2],
) -> Result<SurfaceInfo, Error> {
    match find_format(formats, surface_format) {
        None => Err(Error::RequestedSurfaceFormatNotSupported),
        Some(color_format) => if !present_modes.contains(present_mode) {
            Err(Error::PresentModeNotSupported)
        } else if caps.max_image_count != 0 && request_img_count > caps.max_image_count {
            Err(Error::InsufficientFramesInFlightSupported)
        } else {
            Ok(
                SurfaceInfo {
                    min_extent: caps.min_image_extent,
                    max_extent: caps.max_image_extent,
                    current_extent: Extent2D { width: window_size[0], height: window_size[1] },
                    image_count: image_count_for(request_img_count, caps),
                    present_mode,
                    color_format,
                    pre_transform: pre_transform_for(caps),
                },
            )
        },
    }
}

/// Chooses the surface configuration from what the surface offers and what
/// `create_info` requests.
pub fn choose_surface_info(
    formats: &Vec<SurfaceFormat>,
    present_modes: &Vec<i32>,
    caps: &SurfaceCapabilities,
    create_info: &VkInitCreateInfo,
    window_size: [u32; 2],
) -> (r: Result<SurfaceInfo, Error>)
    ensures
        r == surface_info_result(
            formats@,
            present_modes@,
            *caps,
            create_info.surface_format,
            create_info.present_mode,
            create_info.request_img_count,
            window_size,
        ),
{
    let wanted = create_info.surface_format;
    let mut found: Option<SurfaceFormat> = None;
    let mut i: usize = 0;
    while i < formats.len()
        invariant
            i <= formats@.len(),
            found == find_format(formats@.subrange(0, i as int), wanted),
        decreases formats@.len() - i,
    {
        proof {
            let next = formats@.subrange(0, i + 1);
            assert(next.drop_last() =~= formats@.subrange(0, i as int));
        }
        if found.is_none() && formats[i].format == wanted {
            found = Some(formats[i]);
        }
        i = i + 1;
    }
    assert(formats@.subrange(0, formats@.len() as int) =~= formats@);
    let color_format = match found {
        Some(f) => f,
        None => return Err(Error::RequestedSurfaceFormatNotSupported),
    };
    let mode = create_info.present_mode;
    let mut has_mode = false;
    let mut j: usize = 0;
    while j < present_modes.len()
        invariant
            j <= present_modes@.len(),
            has_mode == present_modes@.subrange(0, j as int).contains(mode),
        decreases present_modes@.len() - j,
    {
        proof {
            let prev = present_modes@.subrange(0, j as int);
            let next = present_modes@.subrange(0, j + 1);
            assert(next =~= prev.push(present_modes@[j as int]));
            if prev.contains(mode) {
                let k = choose|k: int| 0 <= k < prev.len() && prev[k] == mode;
                assert(next[k] == mode);
            }
            if next.contains(mode) && present_modes@[j as int] != mode {
                let k = choose|k: int| 0 <= k < next.len() && next[k] == mode;
                assert(prev[k] == mode);
            }
            assert(next[j as int] == present_modes@[j as int]);
        }
        if present_modes[j] == mode {
            has_mode = true;
        }
        j = j + 1;
    }
    assert(present_modes@.subrange(0, present_modes@.len() as int) =~= present_modes@);
    if !has_mode {
        return Err(Error::PresentModeNotSupported);
    }
    let requested = create_info.request_img_count;
    if caps.max_image_count != 0 && requested > caps.max_image_count {
        return Err(Error::InsufficientFramesInFlightSupported);
    }
    let image_count = if caps.min_image_count != 0 && requested < caps.min_image_count {
        caps.min_image_count
    } else {
        requested
    };
    let pre_transform = if caps.supported_transforms & TRANSFORM_IDENTITY != 0 {
        TRANSFORM_IDENTITY
    } else {
        caps.current_transform
    };
    Ok(
        SurfaceInfo {
            min_extent: caps.min_image_extent,
            max_extent: caps.max_image_extent,
            current_extent: Extent2D { width: window_size[0], height: window_size[1] },
            image_count,
            present_mode: mode,
            color_format,
            pre_transform,
        },
    )
}

/// The layouts of the swapchain's images, by index.
pub struct SwapchainLayouts {
    layouts: Vec<ImageLayout>,
}

impl View for SwapchainLayouts {
    type V = Seq<ImageLayout>;

    closed spec fn view(&self) -> Seq<ImageLayout> {
        self.layouts@
    }
}

impl SwapchainLayouts {
    /// `count` images, all in the undefined layout.
    pub fn all_undefined(count: usize) -> (r: Self)
        ensures
            r@.len() == count,
            forall|i: int| 0 <= i < count ==> r@[i] == ImageLayout::Undefined,
    {
        let mut layouts: Vec<ImageLayout> = Vec::new();
        let mut i: usize = 0;
        while i < count
            invariant
                i <= count,
                layouts@.len() == i,
                forall|k: int| 0 <= k < i ==> layouts@[k] == ImageLayout::Undefined,
            decreases count - i,
        {
            layouts.push(ImageLayout::Undefined);
            i = i + 1;
        }
        SwapchainLayouts { layouts }
    }

    /// The layout of image `index`.
    pub fn get(&self, index: usize) -> (r: ImageLayout)
        requires
            index < self@.len(),
        ensures
            r == self@[index as int],
    {
        self.layouts[index]
    }

    /// The barrier that moves image `index` (handle `image`) to `dst`; the
    /// tracked layout advances as for any managed image.
    pub fn request_transition(
        &mut self,
        index: usize,
        image: u64,
        dst: ImageLayout,
        src_queue: Option<u32>,
        dst_queue: Option<u32>,
    ) -> (r: Result<ImageBarrier, Error>)
        requires
            index < old(self)@.len(),
        ensures
            r == transition_result(image, old(self)@[index as int], dst, ASPECT_COLOR, src_queue, dst_queue),
            final(self)@ == old(self)@.update(index as int, next_layout(old(self)@[index as int], dst)),
    {
        let current = self.layouts[index];
        let r = crate::image_layout_transitions::get_image_layout_transition_barrier2(
            image,
            current,
            dst,
            ASPECT_COLOR,
            src_queue,
            dst_queue,
        );
        if r.is_ok() {
            self.layouts.set(index, dst);
        } else {
            assert(self@ =~= old(self)@.update(index as int, current));
        }
        r
    }
}

/// The presentable image chain: surface and swapchain handles, the images
/// with their views and layouts, and the chosen configuration. Replaced as a
/// whole on resize.
pub struct SwapchainState {
    pub surface: u64,
    pub swapchain: u64,
    pub swapchain_images: Vec<u64>,
    pub swapchain_image_views: Vec<u64>,
    pub image_layouts: SwapchainLayouts,
    pub surface_info: SurfaceInfo,
}

/// What `acquire_next` hands out for a device-chosen `index`: the index, the
/// image, its view and the suboptimal flag.
pub open spec fn acquire_result(s: SwapchainState, index: u32, suboptimal: bool) -> Result<
    (usize, u64, u64, bool),
    Error,
> {
    if index < s.swapchain_images@.len() {
        Ok((index as usize, s.swapchain_images@[index as int], s.swapchain_image_views@[index as int], suboptimal))
    } else {
        Err(Error::SwapchainImageIndexOutOfRange)
    }
}

/// The state a swapchain is in right after it was (re)built with `images`,
/// `views` and extent `extent`, the rest of its configuration taken from `info`.
pub open spec fn built(
    s: SwapchainState,
    surface: u64,
    swapchain: u64,
    images: Seq<u64>,
    views: Seq<u64>,
    info: SurfaceInfo,
    extent: Extent2D,
) -> bool {
    &&& s.surface == surface
    &&& s.swapchain == swapchain
    &&& s.swapchain_images@ == images
    &&& s.swapchain_image_views@ == views
    &&& s.surface_info == (SurfaceInfo { current_extent: extent, ..info })
    &&& s.image_layouts@.len() == images.len()
    &&& forall|i: int| 0 <= i < images.len() ==> s.image_layouts@[i] == ImageLayout::Undefined
}

impl SwapchainState {
    /// One view and one tracked layout for each image.
    pub open spec fn wf(&self) -> bool {
        &&& self.swapchain_image_views@.len() == self.swapchain_images@.len()
        &&& self.image_layouts@.len() == self.swapchain_images@.len()
    }

    /// The extent that every view of the chain reports.
    pub open spec fn view_extent(&self) -> Extent2D {
        self.surface_info.current_extent
    }

    /// A freshly created chain: every image starts in the undefined layout.
    pub fn new(
        surface: u64,
        swapchain: u64,
        swapchain_images: Vec<u64>,
        swapchain_image_views: Vec<u64>,
        surface_info: SurfaceInfo,
    ) -> (r: Self)
        requires
            swapchain_image_views@.len() == swapchain_images@.len(),
        ensures
            r.wf(),
            built(
                r,
                surface,
                swapchain,
                swapchain_images@,
                swapchain_image_views@,
                surface_info,
                surface_info.current_extent,
            ),
    {
        let image_layouts = SwapchainLayouts::all_undefined(swapchain_images.len());
        SwapchainState {
            surface,
            swapchain,
            swapchain_images,
            swapchain_image_views,
            image_layouts,
            surface_info,
        }
    }

    /// Replaces the whole chain after a resize to `new_extent`: new handles,
    /// images and views, every image in the undefined layout again, format,
    /// present mode and the rest of the configuration kept.
    pub fn resize(
        &mut self,
        surface: u64,
        swapchain: u64,
        swapchain_images: Vec<u64>,
        swapchain_image_views: Vec<u64>,
        new_extent: Extent2D,
    )
        requires
            swapchain_image_views@.len() == swapchain_images@.len(),
        ensures
            final(self).wf(),
            built(
                *final(self),
                surface,
                swapchain,
                swapchain_images@,
                swapchain_image_views@,
                old(self).surface_info,
                new_extent,
            ),
    {
        let info = SurfaceInfo { current_extent: new_extent, ..self.surface_info };
        *self = SwapchainState::new(surface, swapchain, swapchain_images, swapchain_image_views, info);
    }

    /// The image the device handed out at `index`, with its view.
    pub fn acquire_next(&self, index: u32, suboptimal: bool) -> (r: Result<(usize, u64, u64, bool), Error>)
        requires
            self.wf(),
        ensures
            r == acquire_result(*self, index, suboptimal),
    {
        let i = index as usize;
        if i < self.swapchain_images.len() {
            Ok((i, self.swapchain_images[i], self.swapchain_image_views[i], suboptimal))
        } else {
            Err(Error::SwapchainImageIndexOutOfRange)
        }
    }

    /// The extent of every view of the chain.
    pub fn image_extent(&self) -> (r: Extent2D)
        ensures
            r == self.view_extent(),
    {
        self.surface_info.current_extent
    }

    /// The barrier that moves image `index` to `dst`.
    pub fn transition_image(
        &mut self,
        index: usize,
        dst: ImageLayout,
        src_queue: Option<u32>,
        dst_queue: Option<u32>,
    ) -> (r: Result<ImageBarrier, Error>)
        requires
            old(self).wf(),
            index < old(self).swapchain_images@.len(),
        ensures
            final(self).wf(),
            r == transition_result(
                old(self).swapchain_images@[index as int],
                old(self).image_layouts@[index as int],
                dst,
                ASPECT_COLOR,
                src_queue,
                dst_queue,
            ),
            final(self).image_layouts@ == old(self).image_layouts@.update(
                index as int,
                next_layout(old(self).image_layouts@[index as int], dst),
            ),
            final(self).swapchain_images@ == old(self).swapchain_images@,
            final(self).swapchain_image_views@ == old(self).swapchain_image_views@,
            final(self).surface_info == old(self).surface_info,
            final(self).surface == old(self).surface,
            final(self).swapchain == old(self).swapchain,
    {
        let image = self.swapchain_images[index];
        self.image_layouts.request_transition(index, image, dst, src_queue, dst_queue)
    }
}

/// After a resize to `new_extent`, every image that `acquire_next` hands out
/// comes with a view whose extent is `new_extent`, and starts in the
/// undefined layout.
pub proof fn lemma_resize_then_acquire(
    before: SwapchainState,
    after: SwapchainState,
    surface: u64,
    swapchain: u64,
    images: Seq<u64>,
    views: Seq<u64>,
    new_extent: Extent2D,
    index: u32,
    suboptimal: bool,
)
    requires
        views.len() == images.len(),
        built(after, surface, swapchain, images, views, before.surface_info, new_extent),
        index < images.len(),
    ensures
        acquire_result(after, index, suboptimal) == Ok::<(usize, u64, u64, bool), Error>(
            (index as usize, images[index as int], views[index as int], suboptimal),
        ),
        after.view_extent() == new_extent,
        after.image_layouts@[index as int] == ImageLayout::Undefined,
        after.surface_info.color_format == before.surface_info.color_format,
        after.surface_info.present_mode == before.surface_info.present_mode,
{
}

/// Result codes of the graphics API that an acquire can end with.
pub const RESULT_SUCCESS: i32 = 0;
pub const RESULT_NOT_READY: i32 = 1;
pub const RESULT_TIMEOUT: i32 = 2;
pub const RESULT_SUBOPTIMAL: i32 = 1000001003;

/// What an acquire that ended with result code `code` means: success,
/// flagged suboptimal or not, `Timeout` when no image came in time, else the
/// code as an API failure.
pub open spec fn acquire_status_of(code: i32) -> Result<bool, Error> {
    if code == RESULT_SUCCESS {
        Ok(false)
    } else if code == RESULT_SUBOPTIMAL {
        Ok(true)
    } else if code == RESULT_TIMEOUT || code == RESULT_NOT_READY {
        Err(Error::Timeout)
    } else {
        Err(Error::VkError(code))
    }
}

/// Reads the result code of an acquire.
pub fn acquire_status(code: i32) -> (r: Result<bool, Error>)
    ensures
        r == acquire_status_of(code),
{
    if code == RESULT_SUCCESS {
        Ok(false)
    } else if code == RESULT_SUBOPTIMAL {
        Ok(true)
    } else if code == RESULT_TIMEOUT || code == RESULT_NOT_READY {
        Err(Error::Timeout)
    } else {
        Err(Error::VkError(code))
    }
}

/// Presentation resources: the surface and swapchain function tables, the
/// image chain, clear values and the depth attachment.
pub struct Head {
    pub surface_loader: Surface,
    pub swapchain_loader: Swapchain,
    pub chain: SwapchainState,
    pub clear_color_value: [u32; 4],
    pub clear_depth_stencil_value: ClearDepthStencil,
    pub depth_format: i32,
    pub depth_format_sizeof: usize,
    pub depth_image: VMAImage,
}

} // verus!
