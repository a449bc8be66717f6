//! Descriptor pools and sets: how many descriptors of each type a pool holds, and which
//! uniform buffer each uniform-buffer write of a descriptor set points to.
use vstd::prelude::*;

verus! {

/// `VK_DESCRIPTOR_TYPE_SAMPLER`
pub const VK_DESCRIPTOR_TYPE_SAMPLER: i32 = 0i32;

/// `VK_DESCRIPTOR_TYPE_COMBINED_IMAGE_SAMPLER`
pub const VK_DESCRIPTOR_TYPE_COMBINED_IMAGE_SAMPLER: i32 = 1i32;

/// `VK_DESCRIPTOR_TYPE_UNIFORM_BUFFER`
pub const VK_DESCRIPTOR_TYPE_UNIFORM_BUFFER: i32 = 6i32;

/// `VK_DESCRIPTOR_TYPE_INPUT_ATTACHMENT`
pub const VK_DESCRIPTOR_TYPE_INPUT_ATTACHMENT: i32 = 10i32;

/// How many descriptors of one type a pool holds.
#[derive(Clone, Copy, Debug, PartialEq, Eq)]
pub struct DescriptorPoolSize {
    /// The `VkDescriptorType` code.
    pub ty: i32,
    pub descriptor_count: u32,
}

/// One pool size per descriptor type, in order, each with one descriptor per swapchain image
/// (the image count kept to its low 32 bits).
pub fn descriptor_pool_sizes(descriptor_types: &Vec<i32>, image_count: usize) -> (r: Vec<
    DescriptorPoolSize,
>)
    ensures
        r@.len() == descriptor_types@.len(),
        forall|i: int|
            0 <= i < r@.len() ==> #[trigger] r@[i] == (DescriptorPoolSize {
                ty: descriptor_types@[i],
                descriptor_count: image_count as u32,
            }),
{
    let mut sizes: Vec<DescriptorPoolSize> = Vec::new();
    let n = descriptor_types.len();
    for i in 0..n
        invariant
            n == descriptor_types@.len(),
            sizes@.len() == i,
            forall|j: int|
                0 <= j < i ==> #[trigger] sizes@[j] == (DescriptorPoolSize {
                    ty: descriptor_types@[j],
                    descriptor_count: image_count as u32,
                }),
    {
        sizes.push(
            DescriptorPoolSize { ty: descriptor_types[i], descriptor_count: image_count as u32 },
        );
    }
    sizes
}

/// How many of the given write types are uniform-buffer writes.
pub open spec fn uniform_write_count(write_types: Seq<i32>) -> nat
    decreases write_types.len(),
{
    if write_types.len() == 0 {
        0
    } else {
        uniform_write_count(write_types.drop_last()) + if write_types.last()
            == VK_DESCRIPTOR_TYPE_UNIFORM_BUFFER {
            1nat
        } else {
            0nat
        }
    }
}

proof fn lemma_uniform_write_count_step(write_types: Seq<i32>, i: int)
    requires
        0 <= i < write_types.len(),
    ensures
        uniform_write_count(write_types.take(i + 1)) == uniform_write_count(write_types.take(i))
            + if write_types[i] == VK_DESCRIPTOR_TYPE_UNIFORM_BUFFER {
            1nat
        } else {
            0nat
        },
{
    assert(write_types.take(i + 1).drop_last() =~= write_types.take(i));
}

/// For each descriptor write of a set, in order, the uniform buffer that it points to: the
/// k-th uniform-buffer write points to uniform buffer k; other writes point to none.
/// There must be a uniform buffer for each uniform-buffer write.
pub fn uniform_buffer_slots(write_types: &Vec<i32>, uniform_buffer_count: usize) -> (r: Vec<
    Option<usize>,
>)
    requires
        uniform_write_count(write_types@) <= uniform_buffer_count,
    ensures
        r@.len() == write_types@.len(),
        forall|i: int|
            0 <= i < r@.len() ==> #[trigger] r@[i] == if write_types@[i]
                == VK_DESCRIPTOR_TYPE_UNIFORM_BUFFER {
                Some(uniform_write_count(write_types@.take(i)) as usize)
            } else {
                None
            },
{
    let mut slots: Vec<Option<usize>> = Vec::new();
    let n = write_types.len();
    let mut uniform_buffer_index: usize = 0;
    assert(write_types@.take(n as int) =~= write_types@);
    for i in 0..n
        invariant
            n == write_types@.len(),
            write_types@.take(n as int) == write_types@,
            uniform_write_count(write_types@) <= uniform_buffer_count,
            uniform_buffer_index == uniform_write_count(write_types@.take(i as int)),
            slots@.len() == i,
            forall|j: int|
                0 <= j < i ==> #[trigger] slots@[j] == if write_types@[j]
                    == VK_DESCRIPTOR_TYPE_UNIFORM_BUFFER {
                    Some(uniform_write_count(write_types@.take(j)) as usize)
                } else {
                    None
                },
    {
        proof {
            lemma_uniform_write_count_step(write_types@, i as int);
            lemma_uniform_write_count_prefix(write_types@, i + 1);
        }
        if write_types[i] == VK_DESCRIPTOR_TYPE_UNIFORM_BUFFER {
            slots.push(Some(uniform_buffer_index));
            uniform_buffer_index = uniform_buffer_index + 1;
        } else {
            slots.push(None);
        }
    }
    slots
}

/// A prefix has no more uniform-buffer writes than the whole.
proof fn lemma_uniform_write_count_prefix(write_types: Seq<i32>, i: int)
    requires
        0 <= i <= write_types.len(),
    ensures
        uniform_write_count(write_types.take(i)) <= uniform_write_count(write_types),
    decreases write_types.len() - i,
{
    if i < write_types.len() {
        lemma_uniform_write_count_step(write_types, i);
        lemma_uniform_write_count_prefix(write_types, i + 1);
    } else {
        assert(write_types.take(i) =~= write_types);
    }
}


/// Different uniform-buffer writes of a set point to different uniform buffers: the slot
/// of a later uniform-buffer write is larger.
pub proof fn law_uniform_slots_increase(write_types: Seq<i32>, i: int, j: int)
    requires
        0 <= i < j < write_types.len(),
        write_types[i] == VK_DESCRIPTOR_TYPE_UNIFORM_BUFFER,
    ensures
        uniform_write_count(write_types.take(i)) < uniform_write_count(write_types.take(j)),
    decreases j - i,
{
    lemma_uniform_write_count_step(write_types, j - 1);
    if i < j - 1 {
        law_uniform_slots_increase(write_types, i, j - 1);
    }
}

} // verus!
