//! Choices made when opening a device: which physical device, which memory type.
use vstd::prelude::*;
use crate::queue::VkQueueFamilyIndices;

verus! {

/// Memory type `i` is allowed by the filter bits and has every required property bit.
pub open spec fn memory_type_fits(
    type_filter: u32,
    required_properties: u32,
    memory_type_flags: Seq<u32>,
    i: int,
) -> bool {
    &&& 0 <= i < memory_type_flags.len()
    &&& type_filter & (1u32 << (i as u32)) > 0
    &&& memory_type_flags[i] & required_properties == required_properties
}

/// A memory type fits exactly when the filter allows its index and it has every required
/// property bit (it may have more).
pub proof fn law_fitting_type_has_all_required_properties(
    type_filter: u32,
    required_properties: u32,
    memory_type_flags: Seq<u32>,
    i: int,
)
    requires
        0 <= i < memory_type_flags.len(),
        memory_type_flags.len() <= 32,
    ensures
        memory_type_fits(type_filter, required_properties, memory_type_flags, i) <==> (type_filter
            & (1u32 << (i as u32)) != 0 && memory_type_flags[i] & required_properties
            == required_properties),
{
    let bit = 1u32 << (i as u32);
    assert(type_filter & bit > 0 <==> type_filter & bit != 0);
}

/// Finds the first memory type that the filter allows and that has the required properties.
/// `memory_type_flags[i]` holds the property bits of memory type `i`. `None` when no
/// memory type fits.
pub fn find_memory_type(
    type_filter: u32,
    required_properties: u32,
    memory_type_flags: &Vec<u32>,
) -> (r: Option<u32>)
    requires
        memory_type_flags.len() <= 32,
    ensures
        match r {
            Some(i) => {
                &&& memory_type_fits(type_filter, required_properties, memory_type_flags@, i as int)
                &&& forall|j: int|
                    0 <= j < i ==> !memory_type_fits(
                        type_filter,
                        required_properties,
                        memory_type_flags@,
                        j,
                    )
            },
            None => forall|j: int|
                !memory_type_fits(type_filter, required_properties, memory_type_flags@, j),
        },
        r matches Some(i) ==> {
            &&& i < memory_type_flags@.len()
            &&& type_filter & (1u32 << i) != 0
            &&& memory_type_flags@[i as int] & required_properties == required_properties
        },
        r is None ==> forall|j: int|
            0 <= j < memory_type_flags@.len() && type_filter & (1u32 << (j as u32)) != 0
                ==> #[trigger] memory_type_flags@[j] & required_properties != required_properties,
{
    let n = memory_type_flags.len();
    for i in 0..n
        invariant
            n == memory_type_flags.len(),
            n <= 32,
            forall|j: int|
                0 <= j < i ==> !memory_type_fits(
                    type_filter,
                    required_properties,
                    memory_type_flags@,
                    j,
                ),
    {
        let bit: u32 = 1u32 << (i as u32);
        if type_filter & bit > 0 && memory_type_flags[i] & required_properties
            == required_properties {
            return Some(i as u32);
        }
    }
    assert forall|j: int|
        0 <= j < memory_type_flags@.len() && type_filter & (1u32 << (j as u32)) != 0 implies
        #[trigger] memory_type_flags@[j] & required_properties != required_properties by {
        assert(!memory_type_fits(type_filter, required_properties, memory_type_flags@, j));
    }
    None
}

/// Picks the first physical device whose queue families are complete.
/// `candidates[i]` holds the queue families found on device `i`; `None` when no device fits.
pub fn pick_physical_device(candidates: &Vec<VkQueueFamilyIndices>) -> (r: Option<usize>)
    ensures
        match r {
            Some(i) => {
                &&& i < candidates.len()
                &&& candidates@[i as int].graphics_family is Some
                &&& forall|j: int|
                    0 <= j < i ==> (#[trigger] candidates@[j]).graphics_family is None
            },
            None => forall|j: int|
                0 <= j < candidates.len() ==> (#[trigger] candidates@[j]).graphics_family is None,
        },
{
    let mut result: Option<usize> = None;
    let n = candidates.len();
    for i in 0..n
        invariant
            n == candidates.len(),
            match result {
                Some(k) => {
                    &&& k < i
                    &&& candidates@[k as int].graphics_family is Some
                    &&& forall|j: int|
                        0 <= j < k ==> (#[trigger] candidates@[j]).graphics_family is None
                },
                None => forall|j: int|
                    0 <= j < i ==> (#[trigger] candidates@[j]).graphics_family is None,
            },
    {
        let suitable = candidates[i].is_complete();
        if suitable {
            if result.is_none() {
                result = Some(i);
            }
        }
    }
    result
}

/// `VK_PHYSICAL_DEVICE_TYPE_OTHER`
pub const VK_PHYSICAL_DEVICE_TYPE_OTHER: i32 = 0i32;

/// `VK_PHYSICAL_DEVICE_TYPE_INTEGRATED_GPU`
pub const VK_PHYSICAL_DEVICE_TYPE_INTEGRATED_GPU: i32 = 1i32;

/// `VK_PHYSICAL_DEVICE_TYPE_DISCRETE_GPU`
pub const VK_PHYSICAL_DEVICE_TYPE_DISCRETE_GPU: i32 = 2i32;

/// `VK_PHYSICAL_DEVICE_TYPE_VIRTUAL_GPU`
pub const VK_PHYSICAL_DEVICE_TYPE_VIRTUAL_GPU: i32 = 3i32;

/// `VK_PHYSICAL_DEVICE_TYPE_CPU`
pub const VK_PHYSICAL_DEVICE_TYPE_CPU: i32 = 4i32;

/// The kind of a physical device, as shown in the device's description.
#[derive(Clone, Copy, Debug, PartialEq, Eq, Structural)]
pub enum DeviceType {
    Other,
    IntegratedGPU,
    DiscreteGPU,
    VirtualGPU,
    CPU,
}

/// The device type codes that the engine knows.
pub open spec fn is_known_device_type(device_type: i32) -> bool {
    VK_PHYSICAL_DEVICE_TYPE_OTHER <= device_type <= VK_PHYSICAL_DEVICE_TYPE_CPU
}

impl DeviceType {
    /// The device type for a `VkPhysicalDeviceType` code; a device of type "other" is
    /// reported as a discrete GPU.
    pub fn from_vk(device_type: i32) -> (r: DeviceType)
        requires
            is_known_device_type(device_type),
        ensures
            device_type == VK_PHYSICAL_DEVICE_TYPE_CPU ==> r == DeviceType::CPU,
            device_type == VK_PHYSICAL_DEVICE_TYPE_INTEGRATED_GPU ==> r == DeviceType::IntegratedGPU,
            device_type == VK_PHYSICAL_DEVICE_TYPE_DISCRETE_GPU ==> r == DeviceType::DiscreteGPU,
            device_type == VK_PHYSICAL_DEVICE_TYPE_VIRTUAL_GPU ==> r == DeviceType::VirtualGPU,
            device_type == VK_PHYSICAL_DEVICE_TYPE_OTHER ==> r == DeviceType::DiscreteGPU,
    {
        if device_type == VK_PHYSICAL_DEVICE_TYPE_CPU {
            DeviceType::CPU
        } else if device_type == VK_PHYSICAL_DEVICE_TYPE_INTEGRATED_GPU {
            DeviceType::IntegratedGPU
        } else if device_type == VK_PHYSICAL_DEVICE_TYPE_DISCRETE_GPU {
            DeviceType::DiscreteGPU
        } else if device_type == VK_PHYSICAL_DEVICE_TYPE_VIRTUAL_GPU {
            DeviceType::VirtualGPU
        } else {
            DeviceType::DiscreteGPU
        }
    }
}

/// Some available extension has the name `name`.
pub open spec fn is_available(available: Seq<String>, name: Seq<char>) -> bool {
    exists|j: int| 0 <= j < available.len() && available[j]@ == name
}

/// Every required extension name is among the available ones.
pub open spec fn all_available(available: Seq<String>, required: Seq<String>) -> bool {
    forall|i: int| 0 <= i < required.len() ==> #[trigger] is_available(available, required[i]@)
}

/// The names of the extensions.
pub open spec fn extension_names(extensions: Seq<String>) -> Seq<Seq<char>> {
    extensions.map_values(|e: String| e@)
}

/// A name is available exactly when it is among the names of the available extensions.
proof fn lemma_available_iff_named(available: Seq<String>, name: Seq<char>)
    ensures
        is_available(available, name) <==> extension_names(available).contains(name),
{
    let names = extension_names(available);
    if is_available(available, name) {
        let j = choose|j: int| 0 <= j < available.len() && available[j]@ == name;
        assert(names[j] == name);
    }
    if names.contains(name) {
        let j = choose|j: int| 0 <= j < names.len() && names[j] == name;
        assert(available[j]@ == name);
    }
}

/// The required extensions are all available exactly when the name of each required
/// extension is among the names of the available ones.
pub proof fn law_all_required_names_available(available: Seq<String>, required: Seq<String>)
    ensures
        all_available(available, required) <==> forall|i: int|
            0 <= i < required.len() ==> extension_names(available).contains(
                #[trigger] required[i]@,
            ),
{
    assert forall|i: int|
        #![trigger required[i]]
        0 <= i < required.len() implies (is_available(available, required[i]@)
            <==> extension_names(available).contains(required[i]@)) by {
        lemma_available_iff_named(available, required[i]@);
    }
}

/// Whether a device offers every required extension, by name.
pub fn check_device_extension_support(available: &Vec<String>, required: &Vec<String>) -> (r: bool)
    ensures
        r == all_available(available@, required@),
        r <==> forall|i: int|
            0 <= i < required@.len() ==> extension_names(available@).contains(
                #[trigger] required@[i]@,
            ),
{
    proof {
        law_all_required_names_available(available@, required@);
    }
    let n = required.len();
    let m = available.len();
    for i in 0..n
        invariant
            n == required@.len(),
            m == available@.len(),
            forall|k: int| 0 <= k < i ==> #[trigger] is_available(available@, required@[k]@),
    {
        let mut found = false;
        for j in 0..m
            invariant
                n == required@.len(),
                m == available@.len(),
                i < n,
                found ==> is_available(available@, required@[i as int]@),
                !found ==> forall|jj: int|
                    0 <= jj < j ==> #[trigger] available@[jj]@ != required@[i as int]@,
        {
            if !found && available[j] == required[i] {
                found = true;
            }
        }
        if !found {
            assert(!is_available(available@, required@[i as int]@));
            return false;
        }
    }
    true
}

} // verus!
