use vstd::prelude::*;

verus! {

/// Errors surfaced by the library.
#[derive(Debug, Clone, PartialEq, Eq)]
pub enum Error {
    /// No adapter satisfied the selection requirements.
    NoSuitableGPUFound,
    /// A required device extension is missing; carries its name.
    RequiredDeviceExtensionNotSupported(String),
    /// The surface does not offer the requested color format.
    RequestedSurfaceFormatNotSupported,
    /// More images were requested than the surface can hold.
    InsufficientFramesInFlightSupported,
    /// The surface does not offer the requested present mode.
    PresentModeNotSupported,
    /// The pair (current layout, destination layout) has no table entry.
    UnsupportedImageLayoutTransition,
    /// `set_data` was called on a buffer whose memory is not host-mapped.
    WriteAttemptToUnmappedBuffer,
    /// A write would reach past the end of the mapped region.
    WriteOutOfMappedRange,
    /// A shader file extension that maps to no shader stage.
    UnknownShaderFileExtension,
    /// No swapchain image became available before the acquire timeout.
    Timeout,
    /// A swapchain image index that the swapchain does not hold.
    SwapchainImageIndexOutOfRange,
    /// The graphics API reported a failure; carries its raw result code.
    VkError(i32),
    /// The memory allocator reported a failure.
    GpuAllocError(AllocError),
}

/// Failures of the memory allocator, by kind.
#[derive(Debug, Clone, PartialEq, Eq)]
pub enum AllocError {
    OutOfMemory,
    FailedToMap(String),
    NoCompatibleMemoryTypeFound,
    InvalidAllocationCreateDesc,
    InvalidAllocatorCreateDesc(String),
    Internal(String),
    BarrierLayoutNeedsDevice10,
}

/// Setup failures, without payload.
#[derive(Debug, Clone, Copy, PartialEq, Eq, Structural)]
pub enum VkInitError {
    /// No suitable GPU was found to create the physical device
    NoSuitableGPUFound,
    /// A unified device queue was requested but the physical device does not support it
    RequestedUnifiedQueueNotSupported,
    /// Device extension was requested but is not supported
    RequiredDeviceExtensionNotSupported,
    /// Requested surface format is not supported by the surface
    RequestedSurfaceFormatNotSupported,
    /// More frames in flight were requested than the surface supports
    InsufficientFramesInFlightSupported,
    /// Requested present mode is not supported by the surface
    PresentModeNotSupported,
}

/// Synchronization failures.
#[derive(Debug, Clone, Copy, PartialEq, Eq, Structural)]
pub enum ImageLayoutTransitionError {
    /// The requested image layout transition is not supported
    UnsupportedImageLayoutTransition,
}

/// Shader collaborator failures.
#[derive(Debug, Clone, Copy, PartialEq, Eq, Structural)]
pub enum ShaderCompilationError {
    /// The file extension of the shader could not be handled
    UnknownShaderFileExtension,
}

} // verus!
