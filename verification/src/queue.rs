//! Queue families: what each family of a physical device can do, and which ones the engine uses.
use vstd::prelude::*;

verus! {

/// `VK_QUEUE_GRAPHICS_BIT`
pub const VK_QUEUE_GRAPHICS_BIT: u32 = 0x1u32;

/// `VK_QUEUE_COMPUTE_BIT`
pub const VK_QUEUE_COMPUTE_BIT: u32 = 0x2u32;

/// `VK_QUEUE_TRANSFER_BIT`
pub const VK_QUEUE_TRANSFER_BIT: u32 = 0x4u32;

/// `VK_QUEUE_SPARSE_BINDING_BIT`
pub const VK_QUEUE_SPARSE_BINDING_BIT: u32 = 0x8u32;

/// A three-dimensional extent in texels.
#[derive(Clone, Copy, PartialEq, Eq, Debug)]
pub struct Extent3D {
    pub width: u32,
    pub height: u32,
    pub depth: u32,
}

/// The properties that a physical device reports for one of its queue families.
#[derive(Clone, Copy, PartialEq, Eq, Debug)]
pub struct VkQueueFamilyProperties {
    /// The family's `VkQueueFlags` bits.
    pub queue_flags: u32,
    pub queue_count: u32,
    pub timestamp_valid_bits: u32,
    pub min_image_transfer_granularity: Extent3D,
}

/// The flag set `flags` holds every bit of `flag`.
pub open spec fn flags_contain(flags: u32, flag: u32) -> bool {
    flags & flag == flag
}

/// The family supports graphics operations.
pub open spec fn is_graphics_family(family: VkQueueFamilyProperties) -> bool {
    flags_contain(family.queue_flags, VK_QUEUE_GRAPHICS_BIT)
}

impl VkQueueFamilyProperties {
    /// The family supports graphics operations.
    pub fn is_graphics(&self) -> (r: bool)
        ensures
            r == is_graphics_family(*self),
    {
        self.queue_flags & VK_QUEUE_GRAPHICS_BIT == VK_QUEUE_GRAPHICS_BIT
    }

    /// "support" when the family has every bit of `flag`, else "unsupport".
    pub fn support_label(&self, flag: u32) -> (r: &'static str)
        ensures
            flags_contain(self.queue_flags, flag) ==> r@ == "support"@,
            !flags_contain(self.queue_flags, flag) ==> r@ == "unsupport"@,
    {
        if self.queue_flags & flag == flag {
            "support"
        } else {
            "unsupport"
        }
    }
}

/// Indices of the queue families chosen on a physical device.
#[derive(Copy, Clone, Debug, PartialEq, Eq)]
pub struct VkQueueFamilyIndices {
    pub graphics_family: Option<u32>,
    pub present_family: Option<u32>,
}

impl VkQueueFamilyIndices {
    /// The device is usable once a graphics family has been found.
    pub fn is_complete(&self) -> (r: bool)
        ensures
            r == self.graphics_family.is_some(),
    {
        self.graphics_family.is_some()
    }
}

/// `g` is the first family of `families` that supports graphics.
pub open spec fn is_first_graphics(families: Seq<VkQueueFamilyProperties>, g: int) -> bool {
    &&& 0 <= g < families.len()
    &&& is_graphics_family(families[g])
    &&& forall|j: int| 0 <= j < g ==> !is_graphics_family(#[trigger] families[j])
}

/// Family `j` is looked at by the search: the search stops at the first graphics family.
pub open spec fn is_examined(families: Seq<VkQueueFamilyProperties>, j: int) -> bool {
    &&& 0 <= j < families.len()
    &&& forall|k: int| 0 <= k < j ==> !is_graphics_family(#[trigger] families[k])
}

/// Family `j` has queues and can present to the surface.
pub open spec fn can_present(
    families: Seq<VkQueueFamilyProperties>,
    present_support: Seq<bool>,
    j: int,
) -> bool {
    families[j].queue_count > 0 && present_support[j]
}

/// Chooses the queue families of a physical device, looking at the families in order and
/// stopping at the first one that supports graphics: the graphics family is that first one,
/// the present family the last family up to it that has queues and can present to the surface.
/// `present_support[i]` says whether family `i` can present to the surface.
pub fn find_queue_family(
    families: &Vec<VkQueueFamilyProperties>,
    present_support: &Vec<bool>,
) -> (r: VkQueueFamilyIndices)
    requires
        present_support.len() == families.len(),
        families.len() <= u32::MAX,
    ensures
        match r.graphics_family {
            Some(g) => is_first_graphics(families@, g as int),
            None => forall|j: int|
                0 <= j < families.len() ==> !is_graphics_family(#[trigger] families@[j]),
        },
        match r.present_family {
            Some(p) => {
                &&& is_examined(families@, p as int)
                &&& can_present(families@, present_support@, p as int)
                &&& forall|q: int|
                    p < q && is_examined(families@, q) ==> !can_present(
                        families@,
                        present_support@,
                        q,
                    )
            },
            None => forall|q: int|
                is_examined(families@, q) ==> !can_present(families@, present_support@, q),
        },
{
    let mut indices = VkQueueFamilyIndices { graphics_family: None, present_family: None };
    let n = families.len();
    let mut index: usize = 0;
    while index < n
        invariant_except_break
            index <= n,
            indices.graphics_family is None,
            forall|j: int| 0 <= j < index ==> !is_graphics_family(#[trigger] families@[j]),
            match indices.present_family {
                Some(p) => {
                    &&& p < index
                    &&& can_present(families@, present_support@, p as int)
                    &&& forall|q: int|
                        p < q < index ==> !can_present(families@, present_support@, q)
                },
                None => forall|q: int|
                    0 <= q < index ==> !can_present(families@, present_support@, q),
            },
        invariant
            n == families.len(),
            n == present_support.len(),
            n <= u32::MAX,
        ensures
            indices.graphics_family is None ==> index == n,
            match indices.graphics_family {
                Some(g) => is_first_graphics(families@, g as int) && g == index,
                None => forall|j: int| 0 <= j < index ==> !is_graphics_family(#[trigger] families@[j]),
            },
            index <= n,
            match indices.present_family {
                Some(p) => {
                    &&& p <= index
                    &&& p < n
                    &&& can_present(families@, present_support@, p as int)
                    &&& forall|q: int|
                        p < q && q <= index && q < n ==> !can_present(families@, present_support@, q)
                },
                None => forall|q: int|
                    0 <= q <= index && q < n ==> !can_present(families@, present_support@, q),
            },
        decreases n - index,
    {
        let family = &families[index];
        if family.is_graphics() {
            indices.graphics_family = Some(index as u32);
        }
        if family.queue_count > 0 && present_support[index] {
            indices.present_family = Some(index as u32);
        }
        if indices.is_complete() {
            break;
        }
        index = index + 1;
    }
    proof {
        assert forall|q: int| is_examined(families@, q) implies q <= index && q < n by {
            if q > index {
                assert(!is_graphics_family(families@[index as int]));
            }
        }
        if let Some(p) = indices.present_family {
            assert forall|k: int| 0 <= k < p implies !is_graphics_family(#[trigger] families@[k]) by {
                if let Some(g) = indices.graphics_family {
                    assert(is_first_graphics(families@, g as int));
                }
            }
            assert(is_examined(families@, p as int));
        }
    }
    indices
}


/// The chosen families are complete exactly when some family supports graphics, and the
/// present family, when there is one, never comes after the graphics family.
pub proof fn law_selection_complete_iff_graphics(
    families: Seq<VkQueueFamilyProperties>,
    present_support: Seq<bool>,
    r: VkQueueFamilyIndices,
)
    requires
        match r.graphics_family {
            Some(g) => is_first_graphics(families, g as int),
            None => forall|j: int| 0 <= j < families.len() ==> !is_graphics_family(#[trigger] families[j]),
        },
        match r.present_family {
            Some(p) => is_examined(families, p as int) && can_present(families, present_support, p as int),
            None => true,
        },
    ensures
        r.graphics_family is Some <==> exists|j: int| 0 <= j < families.len() && is_graphics_family(#[trigger] families[j]),
        r.graphics_family is Some && r.present_family is Some ==> r.present_family.unwrap() <= r.graphics_family.unwrap(),
{
    if let (Some(g), Some(p)) = (r.graphics_family, r.present_family) {
        if p > g {
            assert(!is_graphics_family(families[g as int]));
        }
    }
    if let Some(g) = r.graphics_family {
        assert(is_graphics_family(families[g as int]));
    }
}

} // verus!
