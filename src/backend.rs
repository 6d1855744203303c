//! Objects of the graphics API loader and of the memory allocator that the
//! library owns and hands back, without looking inside them.
use vstd::prelude::*;

verus! {

/// The API loader's entry points.
#[verifier::external_type_specification]
#[verifier::external_body]
pub struct ExEntry(ash::Entry);

/// An API instance with its function table.
#[verifier::external_type_specification]
#[verifier::external_body]
pub struct ExInstance(ash::Instance);

/// A logical device with its function table.
#[verifier::external_type_specification]
#[verifier::external_body]
pub struct ExDevice(ash::Device);

/// The debug-utils extension's function table.
#[verifier::external_type_specification]
#[verifier::external_body]
pub struct ExDebugUtils(ash::extensions::ext::DebugUtils);

/// The surface extension's function table.
#[verifier::external_type_specification]
#[verifier::external_body]
pub struct ExSurface(ash::extensions::khr::Surface);

/// The swapchain extension's function table.
#[verifier::external_type_specification]
#[verifier::external_body]
pub struct ExSwapchain(ash::extensions::khr::Swapchain);

/// The device memory allocator.
#[verifier::external_type_specification]
#[verifier::external_body]
pub struct ExAllocator(gpu_allocator::vulkan::Allocator);

/// One block of device memory handed out by the allocator.
#[verifier::external_type_specification]
#[verifier::external_body]
pub struct ExAllocation(gpu_allocator::vulkan::Allocation);

} // verus!
