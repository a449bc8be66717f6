//! Vertex buffer layouts: which attribute sits at which location and byte offset.
use vstd::prelude::*;

verus! {

/// `VK_FORMAT_R32G32_SFLOAT`: two 32-bit floats.
pub const VK_FORMAT_R32G32_SFLOAT: i32 = 103i32;

/// `VK_FORMAT_R32G32B32_SFLOAT`: three 32-bit floats.
pub const VK_FORMAT_R32G32B32_SFLOAT: i32 = 106i32;

/// `VK_VERTEX_INPUT_RATE_VERTEX`: attributes advance once per vertex.
pub const VK_VERTEX_INPUT_RATE_VERTEX: i32 = 0i32;

/// Byte size of a vector of two `f32` (nalgebra's `Vector2<f32>`).
pub const FLOAT_VEC2_SIZE: usize = 8usize;

/// Byte size of a vector of three `f32` (nalgebra's `Vector3<f32>`).
pub const FLOAT_VEC3_SIZE: usize = 12usize;

/// One attribute of a vertex: its shader location, its byte size and its format.
#[derive(Clone, Copy, PartialOrd, PartialEq, Eq, Debug)]
pub struct BufferLayoutElement {
    pub stride: usize,
    /// The attribute's `VkFormat` code.
    pub format: i32,
    pub layout_id: u8,
}

impl BufferLayoutElement {
    pub fn new(layout_id: u8, stride: usize, format: i32) -> (r: BufferLayoutElement)
        ensures
            r.layout_id == layout_id,
            r.stride == stride,
            r.format == format,
    {
        BufferLayoutElement { stride, format, layout_id }
    }
}

/// How the vertices of a buffer are read: the buffer binding and the distance between vertices.
#[derive(Clone, Copy, PartialEq, Eq, Debug)]
pub struct VertexInputBindingDescription {
    pub binding: u32,
    pub stride: u32,
    /// The `VkVertexInputRate` code.
    pub input_rate: i32,
}

/// Where one attribute of a vertex is found.
#[derive(Clone, Copy, PartialEq, Eq, Debug)]
pub struct VertexInputAttributeDescription {
    pub location: u32,
    pub binding: u32,
    /// The attribute's `VkFormat` code.
    pub format: i32,
    pub offset: u32,
}

/// The ordered attributes of one interleaved vertex.
pub struct BufferLayout {
    layouts: Vec<BufferLayoutElement>,
}

/// Sum of the strides of the given attributes: the bytes that they take up in a vertex.
pub open spec fn stride_sum(s: Seq<BufferLayoutElement>) -> nat
    decreases s.len(),
{
    if s.len() == 0 {
        0
    } else {
        stride_sum(s.drop_last()) + s.last().stride as nat
    }
}

/// `i` is the first position of `s` whose attribute has the location `id`.
pub open spec fn is_first_with_id(s: Seq<BufferLayoutElement>, id: u8, i: int) -> bool {
    &&& 0 <= i < s.len()
    &&& s[i].layout_id == id
    &&& forall|j: int| 0 <= j < i ==> s[j].layout_id != id
}

/// Some attribute of `s` has the location `id`.
pub open spec fn has_id(s: Seq<BufferLayoutElement>, id: u8) -> bool {
    exists|j: int| 0 <= j < s.len() && s[j].layout_id == id
}

/// The attribute description of position `i`: located by its id, placed after all earlier attributes.
pub open spec fn attribute_at(s: Seq<BufferLayoutElement>, i: int) -> VertexInputAttributeDescription {
    VertexInputAttributeDescription {
        location: s[i].layout_id as u32,
        binding: 0,
        format: s[i].format,
        offset: stride_sum(s.take(i)) as u32,
    }
}

/// The sum of a prefix never exceeds the sum of a longer prefix.
pub proof fn lemma_stride_sum_prefix_monotone(s: Seq<BufferLayoutElement>, i: int, j: int)
    requires
        0 <= i <= j <= s.len(),
    ensures
        stride_sum(s.take(i)) <= stride_sum(s.take(j)),
    decreases j - i,
{
    if i < j {
        lemma_stride_sum_prefix_monotone(s, i, j - 1);
        assert(s.take(j).drop_last() =~= s.take(j - 1));
    }
}

/// Taking one more attribute adds exactly its stride.
pub proof fn lemma_stride_sum_take_step(s: Seq<BufferLayoutElement>, i: int)
    requires
        0 <= i < s.len(),
    ensures
        stride_sum(s.take(i + 1)) == stride_sum(s.take(i)) + s[i].stride,
{
    assert(s.take(i + 1).drop_last() =~= s.take(i));
}

impl View for BufferLayout {
    type V = Seq<BufferLayoutElement>;

    closed spec fn view(&self) -> Seq<BufferLayoutElement> {
        self.layouts@
    }
}

impl BufferLayout {
    /// An empty layout.
    pub fn new() -> (r: BufferLayout)
        ensures
            r@ == Seq::<BufferLayoutElement>::empty(),
    {
        BufferLayout { layouts: Vec::new() }
    }

    /// Appends an attribute of two 32-bit floats at location `layout_id`.
    pub fn add_float_vec2(self, layout_id: u8) -> (r: BufferLayout)
        ensures
            r@ == self@.push(
                BufferLayoutElement {
                    stride: FLOAT_VEC2_SIZE,
                    format: VK_FORMAT_R32G32_SFLOAT,
                    layout_id,
                },
            ),
    {
        let mut layouts = self.layouts;
        layouts.push(BufferLayoutElement::new(layout_id, FLOAT_VEC2_SIZE, VK_FORMAT_R32G32_SFLOAT));
        BufferLayout { layouts }
    }

    /// Appends an attribute of three 32-bit floats at location `layout_id`.
    pub fn add_float_vec3(self, layout_id: u8) -> (r: BufferLayout)
        ensures
            r@ == self@.push(
                BufferLayoutElement {
                    stride: FLOAT_VEC3_SIZE,
                    format: VK_FORMAT_R32G32B32_SFLOAT,
                    layout_id,
                },
            ),
    {
        let mut layouts = self.layouts;
        layouts.push(
            BufferLayoutElement::new(layout_id, FLOAT_VEC3_SIZE, VK_FORMAT_R32G32B32_SFLOAT),
        );
        BufferLayout { layouts }
    }

    /// The first attribute placed at location `layout_id`, if any.
    pub fn get(&self, layout_id: u8) -> (r: Option<&BufferLayoutElement>)
        ensures
            r is None <==> !has_id(self@, layout_id),
            r matches Some(e) ==> exists|i: int|
                is_first_with_id(self@, layout_id, i) && *e == #[trigger] self@[i],
    {
        let n = self.layouts.len();
        for i in 0..n
            invariant
                n == self@.len(),
                forall|j: int| 0 <= j < i ==> self@[j].layout_id != layout_id,
        {
            if self.layouts[i].layout_id == layout_id {
                assert(is_first_with_id(self@, layout_id, i as int));
                return Some(&self.layouts[i]);
            }
        }
        None
    }

    /// The total size of the attributes, or `None` when it does not fit in a `usize`.
    pub fn total_stride(&self) -> (r: Option<usize>)
        ensures
            r is Some <==> stride_sum(self@) <= usize::MAX,
            r matches Some(total) ==> total == stride_sum(self@),
    {
        let n = self.layouts.len();
        let mut total: usize = 0;
        for i in 0..n
            invariant
                n == self@.len(),
                total == stride_sum(self@.take(i as int)),
        {
            proof {
                lemma_stride_sum_take_step(self@, i as int);
            }
            let stride = self.layouts[i].stride;
            if total > usize::MAX - stride {
                proof {
                    lemma_stride_sum_prefix_monotone(self@, i + 1, n as int);
                    assert(self@.take(n as int) =~= self@);
                }
                return None;
            }
            total = total + stride;
        }
        assert(self@.take(n as int) =~= self@);
        Some(total)
    }

    /// The vertex binding: binding 0, read per vertex, with the attributes' total size as stride
    /// (kept to its low 32 bits).
    pub fn build_binding_description(&self) -> (r: VertexInputBindingDescription)
        requires
            stride_sum(self@) <= usize::MAX,
        ensures
            r.binding == 0,
            r.stride == stride_sum(self@) as u32,
            r.input_rate == VK_VERTEX_INPUT_RATE_VERTEX,
    {
        let n = self.layouts.len();
        let mut total: usize = 0;
        for i in 0..n
            invariant
                n == self@.len(),
                total == stride_sum(self@.take(i as int)),
                stride_sum(self@) <= usize::MAX,
        {
            proof {
                lemma_stride_sum_take_step(self@, i as int);
                lemma_stride_sum_prefix_monotone(self@, i + 1, n as int);
                assert(self@.take(n as int) =~= self@);
            }
            total = total + self.layouts[i].stride;
        }
        assert(self@.take(n as int) =~= self@);
        VertexInputBindingDescription {
            binding: 0,
            stride: total as u32,
            input_rate: VK_VERTEX_INPUT_RATE_VERTEX,
        }
    }

    /// One attribute description per attribute, in order, each placed right after the previous
    /// ones (offsets kept to their low 32 bits).
    pub fn build_attrib_description(&self) -> (r: Vec<VertexInputAttributeDescription>)
        requires
            stride_sum(self@) <= usize::MAX,
        ensures
            r@.len() == self@.len(),
            forall|i: int| 0 <= i < r@.len() ==> #[trigger] r@[i] == attribute_at(self@, i),
            forall|i: int|
                0 <= i < r@.len() ==> {
                    &&& #[trigger] r@[i].location == self@[i].layout_id as u32
                    &&& r@[i].binding == 0
                    &&& r@[i].format == self@[i].format
                },
    {
        let n = self.layouts.len();
        let mut offset: usize = 0;
        let mut layouts: Vec<VertexInputAttributeDescription> = Vec::new();
        for i in 0..n
            invariant
                n == self@.len(),
                offset == stride_sum(self@.take(i as int)),
                stride_sum(self@) <= usize::MAX,
                layouts@.len() == i,
                forall|j: int| 0 <= j < i ==> #[trigger] layouts@[j] == attribute_at(self@, j),
        {
            let layout = &self.layouts[i];
            layouts.push(
                VertexInputAttributeDescription {
                    binding: 0,
                    location: layout.layout_id as u32,
                    format: layout.format,
                    offset: offset as u32,
                },
            );
            proof {
                lemma_stride_sum_take_step(self@, i as int);
                lemma_stride_sum_prefix_monotone(self@, i + 1, n as int);
                assert(self@.take(n as int) =~= self@);
            }
            offset = offset + layout.stride;
        }
        layouts
    }
}

/// The stride of the vertex binding is where the last attribute ends: the last attribute's
/// offset plus its stride, when the vertex fits in 32-bit offsets.
pub proof fn law_binding_stride_ends_last_attribute(s: Seq<BufferLayoutElement>)
    requires
        s.len() > 0,
        stride_sum(s) <= u32::MAX,
    ensures
        attribute_at(s, s.len() - 1).offset + s.last().stride == stride_sum(s),
{
    let n = s.len() as int;
    assert(s.take(n - 1) =~= s.drop_last());
    lemma_stride_sum_prefix_monotone(s, n - 1, n);
    assert(s.take(n) =~= s);
}

/// Each attribute description is bound at the shader location given when the attribute was
/// added (its layout id, not its position in the layout), reads buffer binding 0, and keeps
/// the attribute's format.
pub proof fn law_attribute_location_is_layout_id(s: Seq<BufferLayoutElement>, i: int)
    requires
        0 <= i < s.len(),
    ensures
        attribute_at(s, i).location == s[i].layout_id as u32,
        attribute_at(s, i).binding == 0,
        attribute_at(s, i).format == s[i].format,
{
}

/// The first attribute's offset is 0, and every later one starts after all attributes
/// before it: its offset is the sum of their strides (kept to 32 bits).
pub proof fn law_attribute_offset_is_preceding_strides(s: Seq<BufferLayoutElement>, i: int)
    requires
        0 <= i < s.len(),
    ensures
        i == 0 ==> attribute_at(s, i).offset == 0,
        attribute_at(s, i).offset == stride_sum(s.take(i)) as u32,
{
    if i == 0 {
        assert(s.take(0) =~= Seq::<BufferLayoutElement>::empty());
    }
}

/// Each attribute starts where the previous one ends, when the vertex fits in 32-bit offsets.
pub proof fn law_attributes_are_packed(s: Seq<BufferLayoutElement>, i: int)
    requires
        0 <= i,
        i + 1 < s.len(),
        stride_sum(s) <= u32::MAX,
    ensures
        attribute_at(s, i + 1).offset == attribute_at(s, i).offset + s[i].stride,
{
    lemma_stride_sum_take_step(s, i);
    lemma_stride_sum_prefix_monotone(s, i + 1, s.len() as int);
    assert(s.take(s.len() as int) =~= s);
}

/// Adding an attribute at a new location makes `get` find it, and leaves every location
/// that was already present finding what it found before.
pub proof fn law_add_then_get(s: Seq<BufferLayoutElement>, e: BufferLayoutElement, id: u8, i: int)
    ensures
        !has_id(s, e.layout_id) ==> is_first_with_id(s.push(e), e.layout_id, s.len() as int),
        is_first_with_id(s, id, i) ==> is_first_with_id(s.push(e), id, i),
{
    if !has_id(s, e.layout_id) {
        assert forall|j: int| 0 <= j < s.len() implies s.push(e)[j].layout_id != e.layout_id by {
            assert(s.push(e)[j] == s[j]);
        }
    }
    if is_first_with_id(s, id, i) {
        assert forall|j: int| 0 <= j < i implies s.push(e)[j].layout_id != id by {
            assert(s.push(e)[j] == s[j]);
        }
    }
}

} // verus!
