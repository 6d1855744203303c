use vku::device_selector::{
    check_device_extensions, classify_queue_families, required_device_extensions, select_physical_device,
    AdapterProperties, DeviceType, QueueFamily, QueueFamilyIndices,
};
use vku::error::Error;
use vku::init::{queue_family_plan, select_queue, CmdType};

fn fam(graphics: bool, compute: bool, transfer: bool) -> QueueFamily {
    QueueFamily { graphics, compute, transfer }
}

fn adapter(name: &str, device_type: DeviceType, queue_families: Vec<QueueFamily>) -> AdapterProperties {
    AdapterProperties { name: name.to_string(), device_type, queue_families }
}

#[test]
fn classification_picks_first_family_per_role() {
    let fams = vec![
        fam(false, true, true),
        fam(true, true, true),
        fam(true, true, true),
        fam(false, false, true),
        fam(false, true, false),
        fam(false, false, true),
    ];
    let c = classify_queue_families(&fams);
    assert_eq!(c, QueueFamilyIndices { unified: Some(1), transfer: Some(3), compute: Some(0) });
}

#[test]
fn classification_without_dedicated_families() {
    let c = classify_queue_families(&vec![fam(true, true, true), fam(true, false, true)]);
    assert_eq!(c, QueueFamilyIndices { unified: Some(0), transfer: None, compute: None });
    let c = classify_queue_families(&vec![]);
    assert_eq!(c, QueueFamilyIndices { unified: None, transfer: None, compute: None });
}

#[test]
fn selection_takes_first_suitable_adapter() {
    let adapters = vec![
        adapter("integrated", DeviceType::IntegratedGpu, vec![fam(true, true, true)]),
        adapter("no unified", DeviceType::DiscreteGpu, vec![fam(true, false, true), fam(false, true, true)]),
        adapter("discrete", DeviceType::DiscreteGpu, vec![fam(false, false, true), fam(true, true, true), fam(false, true, true)]),
        adapter("second discrete", DeviceType::DiscreteGpu, vec![fam(true, true, true)]),
    ];
    let (index, info) = select_physical_device(&adapters, false).unwrap();
    assert_eq!(index, 2);
    assert_eq!(info.name, "discrete");
    assert_eq!(info.device_type, DeviceType::DiscreteGpu);
    assert_eq!(info.unified_queue_family_index, 1);
    assert_eq!(info.transfer_queue_family_index, Some(0));
    assert_eq!(info.compute_queue_family_index, Some(2));
    let f = adapters[index].queue_families[info.unified_queue_family_index as usize];
    assert!(f.graphics && f.compute && f.transfer);
}

#[test]
fn integrated_adapters_count_only_when_allowed() {
    let adapters = vec![adapter("integrated", DeviceType::IntegratedGpu, vec![fam(true, true, true)])];
    assert_eq!(select_physical_device(&adapters, false), Err(Error::NoSuitableGPUFound));
    let (index, info) = select_physical_device(&adapters, true).unwrap();
    assert_eq!(index, 0);
    assert_eq!(info.unified_queue_family_index, 0);
}

#[test]
fn no_adapter_or_no_unified_family_fails() {
    assert_eq!(select_physical_device(&vec![], true), Err(Error::NoSuitableGPUFound));
    let adapters = vec![adapter("compute only", DeviceType::DiscreteGpu, vec![fam(false, true, true)])];
    assert_eq!(select_physical_device(&adapters, true), Err(Error::NoSuitableGPUFound));
}

#[test]
fn missing_extension_is_named() {
    let supported = vec!["VK_KHR_swapchain".to_string(), "VK_EXT_a".to_string()];
    let required = vec!["VK_KHR_swapchain".to_string(), "VK_EXT_b".to_string(), "VK_EXT_c".to_string()];
    assert_eq!(
        check_device_extensions(&required, &supported),
        Err(Error::RequiredDeviceExtensionNotSupported("VK_EXT_b".to_string()))
    );
    let required = vec!["VK_EXT_a".to_string(), "VK_KHR_swapchain".to_string()];
    assert_eq!(check_device_extensions(&required, &supported), Ok(()));
    assert_eq!(check_device_extensions(&vec![], &vec![]), Ok(()));
}

#[test]
fn extension_match_is_exact() {
    let supported = vec!["VK_KHR_swapchain_x".to_string()];
    let required = vec!["VK_KHR_swapchain".to_string()];
    assert_eq!(
        check_device_extensions(&required, &supported),
        Err(Error::RequiredDeviceExtensionNotSupported("VK_KHR_swapchain".to_string()))
    );
}

#[test]
fn swapchain_extension_comes_first() {
    let r = required_device_extensions(&vec!["VK_EXT_a".to_string()]);
    assert_eq!(r, vec!["VK_KHR_swapchain".to_string(), "VK_EXT_a".to_string()]);
    assert_eq!(required_device_extensions(&vec![]), vec!["VK_KHR_swapchain".to_string()]);
}

fn info(transfer: Option<u32>, compute: Option<u32>) -> vku::device_selector::PhysicalDeviceInfo {
    vku::device_selector::PhysicalDeviceInfo {
        name: "gpu".to_string(),
        device_type: DeviceType::DiscreteGpu,
        unified_queue_family_index: 0,
        transfer_queue_family_index: transfer,
        compute_queue_family_index: compute,
    }
}

#[test]
fn queues_fall_back_to_unified() {
    let i = info(None, None);
    for t in [CmdType::Any, CmdType::Graphics, CmdType::Transfer, CmdType::Compute] {
        assert_eq!(select_queue(&i, 100, None, None, t), (100, 0));
    }
    let i = info(Some(2), Some(3));
    assert_eq!(select_queue(&i, 100, Some(200), Some(300), CmdType::Transfer), (200, 2));
    assert_eq!(select_queue(&i, 100, Some(200), Some(300), CmdType::Compute), (300, 3));
    assert_eq!(select_queue(&i, 100, Some(200), Some(300), CmdType::Graphics), (100, 0));
    assert_eq!(select_queue(&i, 100, None, Some(300), CmdType::Transfer), (100, 0));
}

#[test]
fn one_queue_per_selected_family() {
    assert_eq!(queue_family_plan(&info(Some(2), Some(3))), vec![0, 2, 3]);
    assert_eq!(queue_family_plan(&info(None, Some(3))), vec![0, 3]);
    assert_eq!(queue_family_plan(&info(None, None)), vec![0]);
}
