use vstd::prelude::*;
use crate::error::Error;

verus! {

/// Capabilities of one queue family, as read from its flags.
#[derive(Debug, Clone, Copy, PartialEq, Eq, Structural)]
pub struct QueueFamily {
    pub graphics: bool,
    pub compute: bool,
    pub transfer: bool,
}

/// The kind of an adapter.
#[derive(Debug, Clone, Copy, PartialEq, Eq, Structural)]
pub enum DeviceType {
    Other,
    IntegratedGpu,
    DiscreteGpu,
    VirtualGpu,
    Cpu,
}

/// What the selector reads of one enumerated adapter.
#[derive(Debug, Clone)]
pub struct AdapterProperties {
    pub name: String,
    pub device_type: DeviceType,
    pub queue_families: Vec<QueueFamily>,
}

/// The roles a queue family can be picked for.
#[derive(Debug, Clone, Copy, PartialEq, Eq, Structural)]
pub enum QueueRole {
    /// graphics, compute and transfer
    Unified,
    /// transfer without compute or graphics
    DedicatedTransfer,
    /// compute without graphics (compute implies transfer)
    DedicatedCompute,
}

pub open spec fn fits(role: QueueRole, f: QueueFamily) -> bool {
    match role {
        QueueRole::Unified => f.graphics && f.compute && f.transfer,
        QueueRole::DedicatedTransfer => f.transfer && !f.compute && !f.graphics,
        QueueRole::DedicatedCompute => f.compute && !f.graphics,
    }
}

/// Index of the first family of `fams` that fits `role`.
pub open spec fn first_fit(fams: Seq<QueueFamily>, role: QueueRole) -> Option<nat>
    decreases fams.len(),
{
    if fams.len() == 0 {
        None
    } else {
        match first_fit(fams.drop_last(), role) {
            Some(i) => Some(i),
            None => if fits(role, fams.last()) {
                Some((fams.len() - 1) as nat)
            } else {
                None
            },
        }
    }
}

/// `first_fit` is the least index whose family fits, and `None` only when no
/// family fits.
pub proof fn lemma_first_fit(fams: Seq<QueueFamily>, role: QueueRole)
    ensures
        match first_fit(fams, role) {
            Some(i) => i < fams.len() && fits(role, fams[i as int])
                && forall|j: int| 0 <= j < i ==> !fits(role, #[trigger] fams[j]),
            None => forall|j: int| 0 <= j < fams.len() ==> !fits(role, #[trigger] fams[j]),
        },
    decreases fams.len(),
{
    if fams.len() > 0 {
        let init = fams.drop_last();
        lemma_first_fit(init, role);
        assert forall|j: int| 0 <= j < init.len() implies init[j] == fams[j] by {}
    }
}

/// Family indices picked for each role.
#[derive(Debug, Clone, Copy, PartialEq, Eq, Structural)]
pub struct QueueFamilyIndices {
    pub unified: Option<u32>,
    pub transfer: Option<u32>,
    pub compute: Option<u32>,
}

pub open spec fn as_index(i: Option<nat>) -> Option<u32> {
    match i {
        Some(k) => Some(k as u32),
        None => None,
    }
}

/// The classification of a list of queue families: for each role, the first
/// family that fits it. The three role predicates are disjoint, so a family
/// taken for one role is never considered for another.
pub open spec fn classify(fams: Seq<QueueFamily>) -> QueueFamilyIndices {
    QueueFamilyIndices {
        unified: as_index(first_fit(fams, QueueRole::Unified)),
        transfer: as_index(first_fit(fams, QueueRole::DedicatedTransfer)),
        compute: as_index(first_fit(fams, QueueRole::DedicatedCompute)),
    }
}

/// Scans the queue families once and picks a family for each role.
pub fn classify_queue_families(fams: &Vec<QueueFamily>) -> (r: QueueFamilyIndices)
    requires
        fams@.len() <= u32::MAX,
    ensures
        r == classify(fams@),
{
    let mut unified: Option<u32> = None;
    let mut transfer: Option<u32> = None;
    let mut compute: Option<u32> = None;
    let mut i: usize = 0;
    while i < fams.len()
        invariant
            i <= fams@.len() <= u32::MAX,
            unified == as_index(first_fit(fams@.subrange(0, i as int), QueueRole::Unified)),
            transfer == as_index(first_fit(fams@.subrange(0, i as int), QueueRole::DedicatedTransfer)),
            compute == as_index(first_fit(fams@.subrange(0, i as int), QueueRole::DedicatedCompute)),
        decreases fams@.len() - i,
    {
        let f = fams[i];
        proof {
            let next = fams@.subrange(0, i + 1);
            assert(next.drop_last() =~= fams@.subrange(0, i as int));
            assert(next.last() == f);
        }
        if unified.is_none() && f.transfer && f.compute && f.graphics {
            unified = Some(i as u32);
        } else if transfer.is_none() && f.transfer && !f.compute && !f.graphics {
            transfer = Some(i as u32);
        } else if compute.is_none() && f.compute && !f.graphics {
            compute = Some(i as u32);
        }
        i = i + 1;
    }
    assert(fams@.subrange(0, fams@.len() as int) =~= fams@);
    QueueFamilyIndices { unified, transfer, compute }
}

/// The record of the selected adapter.
#[derive(Debug, Clone, PartialEq, Eq)]
pub struct PhysicalDeviceInfo {
    pub name: String,
    pub device_type: DeviceType,
    pub unified_queue_family_index: u32,
    pub transfer_queue_family_index: Option<u32>,
    pub compute_queue_family_index: Option<u32>,
}

/// An adapter takes part in the selection when it is a discrete GPU, or when
/// other kinds are allowed.
pub open spec fn eligible(a: AdapterProperties, allow_igpu: bool) -> bool {
    allow_igpu || a.device_type == DeviceType::DiscreteGpu
}

pub open spec fn has_unified_family(fams: Seq<QueueFamily>) -> bool {
    exists|j: int| 0 <= j < fams.len() && fits(QueueRole::Unified, #[trigger] fams[j])
}

pub open spec fn suitable(a: AdapterProperties, allow_igpu: bool) -> bool {
    eligible(a, allow_igpu) && has_unified_family(a.queue_families@)
}

/// The record built for an adapter that has a unified family.
pub open spec fn device_info(a: AdapterProperties) -> PhysicalDeviceInfo {
    let c = classify(a.queue_families@);
    PhysicalDeviceInfo {
        name: a.name,
        device_type: a.device_type,
        unified_queue_family_index: c.unified.unwrap(),
        transfer_queue_family_index: c.transfer,
        compute_queue_family_index: c.compute,
    }
}

/// What selection yields: the first suitable adapter, by index, with its
/// record; `NoSuitableGPUFound` when none is suitable.
pub open spec fn selection_result(
    adapters: Seq<AdapterProperties>,
    allow_igpu: bool,
    r: Result<(usize, PhysicalDeviceInfo), Error>,
) -> bool {
    match r {
        Ok((k, info)) => k < adapters.len() && suitable(adapters[k as int], allow_igpu)
            && (forall|j: int| 0 <= j < k ==> !suitable(#[trigger] adapters[j], allow_igpu))
            && info == device_info(adapters[k as int]),
        Err(e) => e == Error::NoSuitableGPUFound
            && forall|j: int| 0 <= j < adapters.len() ==> !suitable(#[trigger] adapters[j], allow_igpu),
    }
}

/// Picks the first adapter that is eligible and has a unified queue family.
/// No scoring across adapters takes place.
pub fn select_physical_device(adapters: &Vec<AdapterProperties>, allow_igpu: bool) -> (r: Result<
    (usize, PhysicalDeviceInfo),
    Error,
>)
    requires
        forall|j: int| 0 <= j < adapters@.len() ==> (#[trigger] adapters@[j]).queue_families@.len() <= u32::MAX,
    ensures
        selection_result(adapters@, allow_igpu, r),
{
    let mut k: usize = 0;
    while k < adapters.len()
        invariant
            k <= adapters@.len(),
            forall|j: int| 0 <= j < adapters@.len() ==> (#[trigger] adapters@[j]).queue_families@.len() <= u32::MAX,
            forall|j: int| 0 <= j < k ==> !suitable(#[trigger] adapters@[j], allow_igpu),
        decreases adapters@.len() - k,
    {
        let a = &adapters[k];
        let is_eligible = allow_igpu || a.device_type == DeviceType::DiscreteGpu;
        if is_eligible {
            let c = classify_queue_families(&a.queue_families);
            proof {
                lemma_first_fit(a.queue_families@, QueueRole::Unified);
            }
            if let Some(unified) = c.unified {
                let info = PhysicalDeviceInfo {
                    name: a.name.clone(),
                    device_type: a.device_type,
                    unified_queue_family_index: unified,
                    transfer_queue_family_index: c.transfer,
                    compute_queue_family_index: c.compute,
                };
                return Ok((k, info));
            }
        }
        k = k + 1;
    }
    Err(Error::NoSuitableGPUFound)
}

/// Selection succeeds whenever some adapter is eligible and has a family
/// supporting graphics, compute and transfer; the unified index of the
/// record then points to such a family of the chosen adapter.
pub proof fn lemma_selection_succeeds(
    adapters: Seq<AdapterProperties>,
    allow_igpu: bool,
    k: int,
    r: Result<(usize, PhysicalDeviceInfo), Error>,
)
    requires
        0 <= k < adapters.len(),
        eligible(adapters[k], allow_igpu),
        has_unified_family(adapters[k].queue_families@),
        adapters[k].queue_families@.len() <= u32::MAX,
        forall|j: int| 0 <= j < adapters.len() ==> (#[trigger] adapters[j]).queue_families@.len() <= u32::MAX,
        selection_result(adapters, allow_igpu, r),
    ensures
        r is Ok,
        ({
            let (i, info) = r->Ok_0;
            let fams = adapters[i as int].queue_families@;
            info.unified_queue_family_index < fams.len()
                && fits(QueueRole::Unified, fams[info.unified_queue_family_index as int])
        }),
{
    assert(suitable(adapters[k], allow_igpu));
    if let Ok((i, info)) = r {
        let fams = adapters[i as int].queue_families@;
        lemma_first_fit(fams, QueueRole::Unified);
        let j = choose|j: int| 0 <= j < fams.len() && fits(QueueRole::Unified, #[trigger] fams[j]);
        assert(first_fit(fams, QueueRole::Unified) is Some);
    }
}

pub open spec fn is_supported(supported: Seq<String>, name: Seq<char>) -> bool {
    exists|j: int| 0 <= j < supported.len() && (#[trigger] supported[j])@ == name
}

/// What the extension check yields: `Ok` when every required name is in the
/// supported list (exact match), else the error naming the first missing one.
pub open spec fn extension_check_result(
    required: Seq<String>,
    supported: Seq<String>,
    r: Result<(), Error>,
) -> bool {
    match r {
        Ok(_) => forall|i: int| 0 <= i < required.len() ==> is_supported(supported, (#[trigger] required[i])@),
        Err(e) => exists|k: int|
            0 <= k < required.len() && !is_supported(supported, required[k]@)
                && (forall|i: int| 0 <= i < k ==> is_supported(supported, (#[trigger] required[i])@))
                && e == Error::RequiredDeviceExtensionNotSupported(#[trigger] required[k]),
    }
}

/// Checks each required device extension against the adapter's list.
pub fn check_device_extensions(required: &Vec<String>, supported: &Vec<String>) -> (r: Result<(), Error>)
    ensures
        extension_check_result(required@, supported@, r),
{
    let mut i: usize = 0;
    while i < required.len()
        invariant
            i <= required@.len(),
            forall|j: int| 0 <= j < i ==> is_supported(supported@, (#[trigger] required@[j])@),
        decreases required@.len() - i,
    {
        let mut found = false;
        let mut j: usize = 0;
        while j < supported.len()
            invariant
                i < required@.len(),
                j <= supported@.len(),
                found ==> is_supported(supported@, required@[i as int]@),
                !found ==> forall|m: int| 0 <= m < j ==> (#[trigger] supported@[m])@ != required@[i as int]@,
            decreases supported@.len() - j,
        {
            if supported[j] == required[i] {
                found = true;
            }
            j = j + 1;
        }
        if !found {
            let name = required[i].clone();
            return Err(Error::RequiredDeviceExtensionNotSupported(name));
        }
        i = i + 1;
    }
    Ok(())
}

/// Relies on ash's `khr::Swapchain::name`: the swapchain extension's name,
/// `VK_KHR_swapchain`.
#[verifier::external_body]
fn swapchain_extension_name() -> (r: String)
    ensures
        r@ == "VK_KHR_swapchain"@,
{
    ash::extensions::khr::Swapchain::name().to_string_lossy().into_owned()
}

/// Relies on ash's `ext::DebugUtils::name`: the debug-utils extension's name,
/// `VK_EXT_debug_utils`.
#[verifier::external_body]
pub(crate) fn debug_utils_extension_name() -> (r: String)
    ensures
        r@ == "VK_EXT_debug_utils"@,
{
    ash::extensions::ext::DebugUtils::name().to_string_lossy().into_owned()
}

/// The device extensions to enable: the swapchain extension first, then the
/// additional ones in order.
pub fn required_device_extensions(additional: &Vec<String>) -> (r: Vec<String>)
    ensures
        r@.len() == additional@.len() + 1,
        r@[0]@ == "VK_KHR_swapchain"@,
        forall|i: int| 0 <= i < additional@.len() ==> r@[i + 1] == #[trigger] additional@[i],
{
    let mut r: Vec<String> = Vec::new();
    r.push(swapchain_extension_name());
    let mut i: usize = 0;
    while i < additional.len()
        invariant
            i <= additional@.len(),
            r@.len() == i + 1,
            r@[0]@ == "VK_KHR_swapchain"@,
            forall|m: int| 0 <= m < i ==> r@[m + 1] == #[trigger] additional@[m],
        decreases additional@.len() - i,
    {
        r.push(additional[i].clone());
        i = i + 1;
    }
    r
}

} // verus!
