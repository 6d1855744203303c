use vstd::prelude::*;
use vstd::string::StringExecFns;

verus! {

/// Raw codes of the graphics API, as the presets use them.
pub const FORMAT_R8G8B8A8_UNORM: i32 = 37;
pub const FORMAT_B8G8R8A8_UNORM: i32 = 44;
pub const FORMAT_D32_SFLOAT: i32 = 126;
pub const PRESENT_MODE_IMMEDIATE: i32 = 0;
pub const PRESENT_MODE_MAILBOX: i32 = 1;
pub const PRESENT_MODE_FIFO: i32 = 2;
pub const VALIDATION_FEATURE_BEST_PRACTICES: i32 = 2;
pub const VALIDATION_FEATURE_SYNCHRONIZATION: i32 = 4;
pub const SEVERITY_VERBOSE: u32 = 0x1;
pub const SEVERITY_INFO: u32 = 0x10;
pub const SEVERITY_WARNING: u32 = 0x100;
pub const SEVERITY_ERROR: u32 = 0x1000;
pub const MESSAGE_GENERAL: u32 = 0x1;
pub const MESSAGE_VALIDATION: u32 = 0x2;
pub const MESSAGE_PERFORMANCE: u32 = 0x4;
/// Bit pattern of the depth clear value 1.0.
pub const DEPTH_ONE_BITS: u32 = 0x3F80_0000;

/// An API version number: variant, major, minor and patch packed in 3, 7, 10
/// and 12 bits, from the top.
pub open spec fn api_version(variant: u32, major: u32, minor: u32, patch: u32) -> int {
    variant * 0x2000_0000 + major * 0x40_0000 + minor * 0x1000 + patch
}

/// Packs an API version number.
pub fn make_api_version(variant: u32, major: u32, minor: u32, patch: u32) -> (r: u32)
    requires
        variant < 8,
        major < 128,
        minor < 1024,
        patch < 4096,
    ensures
        r == api_version(variant, major, minor, patch),
{
    variant * 0x2000_0000 + major * 0x40_0000 + minor * 0x1000 + patch
}

/// Device features of API version 1.1 that the library enables on request.
#[derive(Debug, Clone, Copy, PartialEq, Eq, Structural)]
pub struct Vulkan11Features {
    pub shader_draw_parameters: bool,
}

/// Device features of API version 1.2 that the library enables on request.
#[derive(Debug, Clone, Copy, PartialEq, Eq, Structural)]
pub struct Vulkan12Features {
    pub descriptor_indexing: bool,
    pub descriptor_binding_sampled_image_update_after_bind: bool,
}

/// Device features of API version 1.3 that the library enables on request.
#[derive(Debug, Clone, Copy, PartialEq, Eq, Structural)]
pub struct Vulkan13Features {
    pub synchronization2: bool,
    pub dynamic_rendering: bool,
}

/// Depth and stencil clear values; the depth as the bit pattern of its
/// 32-bit float.
#[derive(Debug, Clone, Copy, PartialEq, Eq, Structural)]
pub struct ClearDepthStencil {
    pub depth_bits: u32,
    pub stencil: u32,
}

/// Creation parameters of a context.
///
/// Formats, present modes, validation features and message flags are the
/// graphics API's raw codes; the clear color holds the bit patterns of its
/// four 32-bit floats.
#[derive(Debug, Clone)]
pub struct VkInitCreateInfo {
    pub app_name: String,
    pub engine_name: String,
    pub app_version: u32,
    pub vk_version: u32,
    pub enable_validation: bool,
    pub enabled_validation_layers: Vec<String>,
    pub enabled_validation_features: Vec<i32>,
    pub additional_instance_extensions: Vec<String>,
    pub log_level: u32,
    pub log_msg: u32,
    pub allow_igpu: bool,
    pub physical_device_1_1_features: Vulkan11Features,
    pub physical_device_1_2_features: Vulkan12Features,
    pub physical_device_1_3_features: Vulkan13Features,
    pub additional_device_extensions: Vec<String>,
    pub surface_format: i32,
    pub depth_format: i32,
    pub depth_format_sizeof: usize,
    pub request_img_count: u32,
    pub present_mode: i32,
    pub clear_color_value: [u32; 4],
    pub clear_depth_stencil_value: ClearDepthStencil,
}

/// The settings that every preset shares.
pub open spec fn common_preset(c: VkInitCreateInfo) -> bool {
    &&& c.app_name@ == "Default app name"@
    &&& c.engine_name@ == "Default engine name"@
    &&& c.app_version == api_version(0, 0, 0, 1)
    &&& c.vk_version == api_version(0, 1, 3, 0)
    &&& c.additional_instance_extensions@.len() == 0
    &&& !c.allow_igpu
    &&& c.physical_device_1_1_features == Vulkan11Features { shader_draw_parameters: true }
    &&& c.physical_device_1_2_features == (Vulkan12Features {
        descriptor_indexing: true,
        descriptor_binding_sampled_image_update_after_bind: true,
    })
    &&& c.physical_device_1_3_features == (Vulkan13Features { synchronization2: true, dynamic_rendering: true })
    &&& c.additional_device_extensions@.len() == 0
    &&& c.surface_format == FORMAT_B8G8R8A8_UNORM
    &&& c.depth_format == FORMAT_D32_SFLOAT
    &&& c.depth_format_sizeof == 4
    &&& c.request_img_count == 3
    &&& c.present_mode == PRESENT_MODE_FIFO
    &&& c.clear_color_value@ == seq![0u32, 0u32, 0u32, 0u32]
    &&& c.clear_depth_stencil_value == (ClearDepthStencil { depth_bits: DEPTH_ONE_BITS, stencil: 0 })
}

/// Validation on, with the standard validation layer and the best-practices
/// and synchronization checks.
pub open spec fn validating_preset(c: VkInitCreateInfo) -> bool {
    &&& c.enable_validation
    &&& c.enabled_validation_layers@.len() == 1
    &&& c.enabled_validation_layers@[0]@ == "VK_LAYER_KHRONOS_validation"@
    &&& c.enabled_validation_features@ == seq![VALIDATION_FEATURE_BEST_PRACTICES, VALIDATION_FEATURE_SYNCHRONIZATION]
    &&& c.log_msg == MESSAGE_GENERAL | MESSAGE_VALIDATION | MESSAGE_PERFORMANCE
}

impl VkInitCreateInfo {
    /// Debug builds with every message: validation on, log level all,
    /// message types all.
    pub fn verbose_debug_vk_1_3() -> (r: Self)
        ensures
            common_preset(r),
            validating_preset(r),
            r.log_level == SEVERITY_VERBOSE | SEVERITY_INFO | SEVERITY_WARNING | SEVERITY_ERROR,
    {
        let layers: Vec<String> = vec![String::from_str("VK_LAYER_KHRONOS_validation")];
        VkInitCreateInfo {
            app_name: String::from_str("Default app name"),
            engine_name: String::from_str("Default engine name"),
            app_version: make_api_version(0, 0, 0, 1),
            vk_version: make_api_version(0, 1, 3, 0),
            enable_validation: true,
            enabled_validation_layers: layers,
            enabled_validation_features: vec![VALIDATION_FEATURE_BEST_PRACTICES, VALIDATION_FEATURE_SYNCHRONIZATION],
            additional_instance_extensions: Vec::new(),
            log_level: SEVERITY_VERBOSE | SEVERITY_INFO | SEVERITY_WARNING | SEVERITY_ERROR,
            log_msg: MESSAGE_GENERAL | MESSAGE_VALIDATION | MESSAGE_PERFORMANCE,
            allow_igpu: false,
            physical_device_1_1_features: Vulkan11Features { shader_draw_parameters: true },
            physical_device_1_2_features: Vulkan12Features {
                descriptor_indexing: true,
                descriptor_binding_sampled_image_update_after_bind: true,
            },
            physical_device_1_3_features: Vulkan13Features { synchronization2: true, dynamic_rendering: true },
            additional_device_extensions: Vec::new(),
            surface_format: FORMAT_B8G8R8A8_UNORM,
            depth_format: FORMAT_D32_SFLOAT,
            depth_format_sizeof: 4,
            request_img_count: 3,
            present_mode: PRESENT_MODE_FIFO,
            clear_color_value: [0u32, 0u32, 0u32, 0u32],
            clear_depth_stencil_value: ClearDepthStencil { depth_bits: DEPTH_ONE_BITS, stencil: 0 },
        }
    }

    /// Debug builds: as the verbose preset, with log level info and above.
    pub fn debug_vk_1_3() -> (r: Self)
        ensures
            common_preset(r),
            validating_preset(r),
            r.log_level == SEVERITY_INFO | SEVERITY_WARNING | SEVERITY_ERROR,
    {
        let mut c = Self::verbose_debug_vk_1_3();
        c.log_level = SEVERITY_INFO | SEVERITY_WARNING | SEVERITY_ERROR;
        c
    }

    /// Test release builds: as the verbose preset, with log level warning.
    pub fn test_release_vk_1_3() -> (r: Self)
        ensures
            common_preset(r),
            validating_preset(r),
            r.log_level == SEVERITY_WARNING,
    {
        let mut c = Self::verbose_debug_vk_1_3();
        c.log_level = SEVERITY_WARNING;
        c
    }

    /// Final release builds: no validation, no layers, no logging.
    pub fn dist_vk_1_3() -> (r: Self)
        ensures
            common_preset(r),
            !r.enable_validation,
            r.enabled_validation_layers@.len() == 0,
            r.enabled_validation_features@.len() == 0,
            r.log_level == 0,
            r.log_msg == 0,
    {
        let mut c = Self::verbose_debug_vk_1_3();
        c.enable_validation = false;
        c.enabled_validation_layers = Vec::new();
        c.enabled_validation_features = Vec::new();
        c.log_level = 0;
        c.log_msg = 0;
        c
    }
}

impl Default for VkInitCreateInfo {
    /// The debug preset.
    fn default() -> (r: Self)
        ensures
            common_preset(r),
            validating_preset(r),
            r.log_level == SEVERITY_INFO | SEVERITY_WARNING | SEVERITY_ERROR,
    {
        Self::debug_vk_1_3()
    }
}

} // verus!
