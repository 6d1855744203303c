use vku::create_info::VkInitCreateInfo;
use vku::error::Error;
use vku::image_layout_transitions::ImageLayout;
use vku::swapchain::{acquire_status, choose_surface_info, Extent2D, SurfaceCapabilities, SurfaceFormat, SwapchainState};

fn caps(min: u32, max: u32, supported_transforms: u32) -> SurfaceCapabilities {
    SurfaceCapabilities {
        min_image_count: min,
        max_image_count: max,
        min_image_extent: Extent2D { width: 1, height: 1 },
        max_image_extent: Extent2D { width: 4096, height: 4096 },
        supported_transforms,
        current_transform: 0x2,
    }
}

fn formats() -> Vec<SurfaceFormat> {
    vec![
        SurfaceFormat { format: 37, color_space: 0 },
        SurfaceFormat { format: 44, color_space: 0 },
        SurfaceFormat { format: 44, color_space: 5 },
    ]
}

#[test]
fn surface_configuration() {
    let ci = VkInitCreateInfo::debug_vk_1_3();
    let info = choose_surface_info(&formats(), &vec![0, 2], &caps(2, 8, 0x3), &ci, [800, 600]).unwrap();
    assert_eq!(info.color_format, SurfaceFormat { format: 44, color_space: 0 });
    assert_eq!(info.present_mode, 2);
    assert_eq!(info.image_count, 3);
    assert_eq!(info.pre_transform, 0x1);
    assert_eq!(info.current_extent, Extent2D { width: 800, height: 600 });
    assert_eq!(info.max_extent, Extent2D { width: 4096, height: 4096 });
}

#[test]
fn image_count_is_raised_to_minimum_and_unbounded_maximum_allows_any() {
    let ci = VkInitCreateInfo::debug_vk_1_3();
    let info = choose_surface_info(&formats(), &vec![2], &caps(4, 0, 0x2), &ci, [1, 1]).unwrap();
    assert_eq!(info.image_count, 4);
    assert_eq!(info.pre_transform, 0x2);
    let mut many = VkInitCreateInfo::debug_vk_1_3();
    many.request_img_count = 100;
    assert_eq!(choose_surface_info(&formats(), &vec![2], &caps(2, 0, 1), &many, [1, 1]).unwrap().image_count, 100);
}

#[test]
fn surface_setup_failures() {
    let ci = VkInitCreateInfo::debug_vk_1_3();
    let only_rgba = vec![SurfaceFormat { format: 37, color_space: 0 }];
    assert_eq!(
        choose_surface_info(&only_rgba, &vec![2], &caps(2, 8, 1), &ci, [1, 1]),
        Err(Error::RequestedSurfaceFormatNotSupported)
    );
    assert_eq!(
        choose_surface_info(&formats(), &vec![0, 1], &caps(2, 8, 1), &ci, [1, 1]),
        Err(Error::PresentModeNotSupported)
    );
    assert_eq!(
        choose_surface_info(&formats(), &vec![2], &caps(1, 2, 1), &ci, [1, 1]),
        Err(Error::InsufficientFramesInFlightSupported)
    );
    assert_eq!(
        choose_surface_info(&vec![], &vec![], &caps(1, 2, 1), &ci, [1, 1]),
        Err(Error::RequestedSurfaceFormatNotSupported)
    );
}

fn chain() -> SwapchainState {
    let ci = VkInitCreateInfo::debug_vk_1_3();
    let info = choose_surface_info(&formats(), &vec![2], &caps(2, 8, 1), &ci, [800, 600]).unwrap();
    SwapchainState::new(1, 2, vec![10, 11, 12], vec![20, 21, 22], info)
}

#[test]
fn acquire_hands_out_image_and_view() {
    let s = chain();
    assert_eq!(s.acquire_next(1, false), Ok((1, 11, 21, false)));
    assert_eq!(s.acquire_next(2, true), Ok((2, 12, 22, true)));
    assert_eq!(s.acquire_next(3, false), Err(Error::SwapchainImageIndexOutOfRange));
    assert_eq!(s.image_extent(), Extent2D { width: 800, height: 600 });
}

#[test]
fn resize_then_acquire_reports_new_extent() {
    let mut s = chain();
    assert!(s.transition_image(0, ImageLayout::ColorAttachmentOptimal, None, None).is_ok());
    assert_eq!(s.image_layouts.get(0), ImageLayout::ColorAttachmentOptimal);
    s.resize(3, 4, vec![30, 31], vec![40, 41], Extent2D { width: 1920, height: 1080 });
    let (index, image, view, suboptimal) = s.acquire_next(0, false).unwrap();
    assert_eq!((index, image, view, suboptimal), (0, 30, 40, false));
    assert_eq!(s.image_extent(), Extent2D { width: 1920, height: 1080 });
    assert_eq!(s.surface_info.current_extent, Extent2D { width: 1920, height: 1080 });
    assert_eq!(s.surface_info.color_format.format, 44);
    assert_eq!(s.surface_info.present_mode, 2);
    assert_eq!((s.surface, s.swapchain), (3, 4));
    assert_eq!(s.image_layouts.get(0), ImageLayout::Undefined);
    assert_eq!(s.acquire_next(2, false), Err(Error::SwapchainImageIndexOutOfRange));
}

#[test]
fn swapchain_image_transitions_follow_the_table() {
    let mut s = chain();
    let b = s.transition_image(2, ImageLayout::ColorAttachmentOptimal, None, None).unwrap();
    assert_eq!(b.image, 12);
    assert_eq!(b.aspect_mask, 1);
    assert_eq!(s.transition_image(2, ImageLayout::PresentSrc, None, None), Err(Error::UnsupportedImageLayoutTransition));
    assert_eq!(s.image_layouts.get(2), ImageLayout::ColorAttachmentOptimal);
    assert_eq!(s.image_layouts.get(1), ImageLayout::Undefined);
}

#[test]
fn acquire_result_codes() {
    assert_eq!(acquire_status(0), Ok(false));
    assert_eq!(acquire_status(1000001003), Ok(true));
    assert_eq!(acquire_status(2), Err(Error::Timeout));
    assert_eq!(acquire_status(1), Err(Error::Timeout));
    assert_eq!(acquire_status(-1000001004), Err(Error::VkError(-1000001004)));
}
