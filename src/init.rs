use vstd::prelude::*;
use std::mem::ManuallyDrop;
use ash::extensions::ext::DebugUtils;
use ash::{Device, Entry, Instance};
use gpu_allocator::vulkan::Allocator;
use crate::create_info::VkInitCreateInfo;
use crate::device_selector::PhysicalDeviceInfo;
use crate::swapchain::Head;
use crate::device_selector::debug_utils_extension_name;

verus! {

/// The kind of commands a queue is asked for. Dedicated queues may be
/// missing; the unified queue then takes their work.
#[derive(Debug, Clone, Copy, PartialEq, Eq, Structural)]
pub enum CmdType {
    /// Graphics | Transfer | Compute
    Any,
    Graphics,
    Transfer,
    Compute,
}

/// The queue (raw handle) and family index that serve `cmd_type`: the
/// dedicated one where both the family and the queue exist, else the unified
/// one.
pub open spec fn queue_for(
    info: PhysicalDeviceInfo,
    unified_queue: u64,
    transfer_queue: Option<u64>,
    compute_queue: Option<u64>,
    cmd_type: CmdType,
) -> (u64, u32) {
    let unified = (unified_queue, info.unified_queue_family_index);
    match cmd_type {
        CmdType::Transfer => match (transfer_queue, info.transfer_queue_family_index) {
            (Some(q), Some(f)) => (q, f),
            _ => unified,
        },
        CmdType::Compute => match (compute_queue, info.compute_queue_family_index) {
            (Some(q), Some(f)) => (q, f),
            _ => unified,
        },
        _ => unified,
    }
}

/// The queue families to create one queue each from: the unified family,
/// then the dedicated transfer and compute families that exist.
pub open spec fn queue_families_to_create(info: PhysicalDeviceInfo) -> Seq<u32> {
    let unified = seq![info.unified_queue_family_index];
    let with_transfer = match info.transfer_queue_family_index {
        Some(t) => unified.push(t),
        None => unified,
    };
    match info.compute_queue_family_index {
        Some(c) => with_transfer.push(c),
        None => with_transfer,
    }
}

/// Lists the queue families that device creation asks a queue from.
pub fn queue_family_plan(info: &PhysicalDeviceInfo) -> (r: Vec<u32>)
    ensures
        r@ == queue_families_to_create(*info),
{
    let mut r: Vec<u32> = Vec::new();
    r.push(info.unified_queue_family_index);
    if let Some(t) = info.transfer_queue_family_index {
        r.push(t);
    }
    if let Some(c) = info.compute_queue_family_index {
        r.push(c);
    }
    r
}

/// Appends clones of `src` to `dst`.
fn append_names(dst: &mut Vec<String>, src: &Vec<String>)
    ensures
        final(dst)@ == old(dst)@ + src@,
{
    let ghost start = dst@;
    let mut i: usize = 0;
    while i < src.len()
        invariant
            i <= src@.len(),
            dst@ == start + src@.subrange(0, i as int),
        decreases src@.len() - i,
    {
        dst.push(src[i].clone());
        assert(src@.subrange(0, i + 1) =~= src@.subrange(0, i as int).push(src@[i as int]));
        i = i + 1;
    }
    assert(src@.subrange(0, src@.len() as int) =~= src@);
}

/// The instance extensions to enable: those the window system needs, the
/// additional ones of `create_info`, and the debug-utils extension when
/// validation is on.
pub fn instance_extensions(window_extensions: &Vec<String>, create_info: &VkInitCreateInfo) -> (r: Vec<String>)
    ensures
        create_info.enable_validation ==> r@.len() == window_extensions@.len()
            + create_info.additional_instance_extensions@.len() + 1
            && r@.subrange(0, r@.len() - 1) == window_extensions@ + create_info.additional_instance_extensions@
            && r@.last()@ == "VK_EXT_debug_utils"@,
        !create_info.enable_validation ==> r@ == window_extensions@ + create_info.additional_instance_extensions@,
{
    let mut r: Vec<String> = Vec::new();
    append_names(&mut r, window_extensions);
    append_names(&mut r, &create_info.additional_instance_extensions);
    assert(r@ =~= window_extensions@ + create_info.additional_instance_extensions@);
    if create_info.enable_validation {
        let ghost before = r@;
        r.push(debug_utils_extension_name());
        assert(r@.subrange(0, r@.len() - 1) =~= before);
    }
    r
}

/// The instance layers to enable: the validation layers of `create_info`
/// when validation is on, none otherwise.
pub fn enabled_layers(create_info: &VkInitCreateInfo) -> (r: Vec<String>)
    ensures
        create_info.enable_validation ==> r@ == create_info.enabled_validation_layers@,
        !create_info.enable_validation ==> r@.len() == 0,
{
    let mut r: Vec<String> = Vec::new();
    if create_info.enable_validation {
        append_names(&mut r, &create_info.enabled_validation_layers);
        assert(r@ =~= create_info.enabled_validation_layers@);
    }
    r
}

/// The context: loader, instance, logical device, allocator, the selected
/// queues, the adapter record and, when presenting, the presentation
/// resources. Queues and other handles are held as raw handles.
pub struct VkInit {
    pub allocator: ManuallyDrop<Allocator>,
    pub entry: Entry,
    pub instance: Instance,
    /// Only present with validation enabled.
    pub debug_loader: Option<DebugUtils>,
    /// Only present with validation enabled.
    pub debug_messenger: Option<u64>,
    pub physical_device: u64,
    pub device: Device,
    /// Always present; can take any command.
    pub unified_queue: u64,
    pub transfer_queue: Option<u64>,
    pub compute_queue: Option<u64>,
    pub physical_device_info: PhysicalDeviceInfo,
    pub head: Option<Head>,
    pub create_info: VkInitCreateInfo,
}

impl VkInit {
    /// A dedicated queue is present exactly when the adapter exposed its family.
    pub open spec fn wf(&self) -> bool {
        &&& self.transfer_queue is Some == self.physical_device_info.transfer_queue_family_index is Some
        &&& self.compute_queue is Some == self.physical_device_info.compute_queue_family_index is Some
    }

    /// Gathers the objects of a context built by the caller.
    pub fn from_parts(
        allocator: Allocator,
        entry: Entry,
        instance: Instance,
        debug_loader: Option<DebugUtils>,
        debug_messenger: Option<u64>,
        physical_device: u64,
        device: Device,
        unified_queue: u64,
        transfer_queue: Option<u64>,
        compute_queue: Option<u64>,
        physical_device_info: PhysicalDeviceInfo,
        head: Option<Head>,
        create_info: VkInitCreateInfo,
    ) -> (r: Self)
        requires
            transfer_queue is Some == physical_device_info.transfer_queue_family_index is Some,
            compute_queue is Some == physical_device_info.compute_queue_family_index is Some,
        ensures
            r.wf(),
            r.allocator@ == allocator,
            r.entry == entry,
            r.instance == instance,
            r.debug_loader == debug_loader,
            r.debug_messenger == debug_messenger,
            r.device == device,
            r.physical_device == physical_device,
            r.unified_queue == unified_queue,
            r.transfer_queue == transfer_queue,
            r.compute_queue == compute_queue,
            r.physical_device_info == physical_device_info,
            r.head == head,
            r.create_info == create_info,
    {
        VkInit {
            allocator: ManuallyDrop::new(allocator),
            entry,
            instance,
            debug_loader,
            debug_messenger,
            physical_device,
            device,
            unified_queue,
            transfer_queue,
            compute_queue,
            physical_device_info,
            head,
            create_info,
        }
    }

    /// The presentation resources of a context created with a window.
    pub fn head(&self) -> (r: &Head)
        requires
            self.head is Some,
        ensures
            *r == self.head->Some_0,
    {
        self.head.as_ref().unwrap()
    }

    /// The presentation resources of a context created with a window, for
    /// change.
    pub fn head_mut(&mut self) -> (r: &mut Head)
        requires
            old(self).head is Some,
        ensures
            *r == old(self).head->Some_0,
            final(self).head == Some(*final(r)),
    {
        self.head.as_mut().unwrap()
    }

    /// The queue and queue family index for `cmd_type`, falling back to the
    /// unified queue where no dedicated one exists.
    pub fn get_queue(&self, cmd_type: CmdType) -> (r: (u64, u32))
        ensures
            r == queue_for(
                self.physical_device_info,
                self.unified_queue,
                self.transfer_queue,
                self.compute_queue,
                cmd_type,
            ),
    {
        select_queue(&self.physical_device_info, self.unified_queue, self.transfer_queue, self.compute_queue, cmd_type)
    }
}

/// The queue and family index for `cmd_type` among the given queues.
pub fn select_queue(
    info: &PhysicalDeviceInfo,
    unified_queue: u64,
    transfer_queue: Option<u64>,
    compute_queue: Option<u64>,
    cmd_type: CmdType,
) -> (r: (u64, u32))
    ensures
        r == queue_for(*info, unified_queue, transfer_queue, compute_queue, cmd_type),
{
    match cmd_type {
        CmdType::Transfer => match (transfer_queue, info.transfer_queue_family_index) {
            (Some(q), Some(f)) => (q, f),
            _ => (unified_queue, info.unified_queue_family_index),
        },
        CmdType::Compute => match (compute_queue, info.compute_queue_family_index) {
            (Some(q), Some(f)) => (q, f),
            _ => (unified_queue, info.unified_queue_family_index),
        },
        _ => (unified_queue, info.unified_queue_family_index),
    }
}

} // verus!
