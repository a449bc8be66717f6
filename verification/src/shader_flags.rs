//! The feature flags of the PBR shader, their names, and the specialization constants that
//! they switch on.
use vstd::prelude::*;

verus! {

pub const HAS_NORMALS: u16 = 0x1u16;
pub const HAS_TANGENTS: u16 = 0x2u16;
pub const HAS_UV: u16 = 0x4u16;
pub const HAS_COLORS: u16 = 0x8u16;
pub const USE_IBL: u16 = 0x10u16;
pub const HAS_BASECOLORMAP: u16 = 0x20u16;
pub const HAS_NORMALMAP: u16 = 0x40u16;
pub const HAS_EMISSIVEMAP: u16 = 0x80u16;
pub const HAS_METALROUGHNESSMAP: u16 = 0x100u16;
pub const HAS_OCCLUSIONMAP: u16 = 0x200u16;
pub const USE_TEX_LOD: u16 = 0x400u16;

/// Every defined flag at once.
pub const ALL_SHADER_FLAGS: u16 = 0x7ffu16;

/// The number of defined flags; flag `i` is the bit `1 << i`.
pub const SHADER_FLAG_COUNT: u16 = 11u16;

/// Flags matching the defines in the PBR shader. Only the defined flag bits are ever set.
#[derive(Clone, Copy, Debug, PartialEq, Eq, Hash)]
pub struct ShaderFlags {
    bits: u16,
}

/// The name of flag `i`, as the shader's define spells it.
pub open spec fn flag_name(i: int) -> Seq<char> {
    if i == 0 {
        "HAS_NORMALS"@
    } else if i == 1 {
        "HAS_TANGENTS"@
    } else if i == 2 {
        "HAS_UV"@
    } else if i == 3 {
        "HAS_COLORS"@
    } else if i == 4 {
        "USE_IBL"@
    } else if i == 5 {
        "HAS_BASECOLORMAP"@
    } else if i == 6 {
        "HAS_NORMALMAP"@
    } else if i == 7 {
        "HAS_EMISSIVEMAP"@
    } else if i == 8 {
        "HAS_METALROUGHNESSMAP"@
    } else if i == 9 {
        "HAS_OCCLUSIONMAP"@
    } else {
        "USE_TEX_LOD"@
    }
}

/// Bit `i` of `bits` is set.
pub open spec fn bit_set(bits: u16, i: int) -> bool {
    bits & (1u16 << (i as u16)) != 0
}

/// The positions `0..k` whose bit is set in `bits`, in increasing order.
pub open spec fn set_positions(bits: u16, k: int) -> Seq<int> {
    Seq::new(k as nat, |i: int| i).filter(|i: int| bit_set(bits, i))
}

/// The names of the flags set in `bits`, in the order of their bits.
pub open spec fn set_flag_names(bits: u16) -> Seq<Seq<char>> {
    set_positions(bits, SHADER_FLAG_COUNT as int).map_values(|i: int| flag_name(i))
}

/// The text of a boolean, as Rust prints it.
pub open spec fn bool_text(b: bool) -> Seq<char> {
    if b {
        "true"@
    } else {
        "false"@
    }
}

proof fn lemma_truncate_bound(bits: u16)
    ensures
        bits & ALL_SHADER_FLAGS < 2048,
{
    assert(bits & 0x7ffu16 < 2048) by (bit_vector);
}

proof fn lemma_undefined_bits_clear(bits: u16, i: u16)
    requires
        bits < 2048,
        11 <= i < 16,
    ensures
        bits & (1u16 << i) == 0,
{
    assert(bits < 2048 && 11 <= i < 16 ==> bits & (1u16 << i) == 0) by (bit_vector);
}

proof fn lemma_set_positions_step(bits: u16, k: int)
    requires
        0 <= k,
    ensures
        set_positions(bits, k + 1) == if bit_set(bits, k) {
            set_positions(bits, k).push(k)
        } else {
            set_positions(bits, k)
        },
{
    let s = Seq::new((k + 1) as nat, |i: int| i);
    reveal_with_fuel(Seq::<_>::filter, 1);
    assert(s.drop_last() =~= Seq::new(k as nat, |i: int| i));
}

/// Each named flag is one of the defined flag bits.
proof fn lemma_flags_are_defined()
    ensures
        HAS_NORMALS & ALL_SHADER_FLAGS == HAS_NORMALS,
        HAS_TANGENTS & ALL_SHADER_FLAGS == HAS_TANGENTS,
        HAS_UV & ALL_SHADER_FLAGS == HAS_UV,
        HAS_COLORS & ALL_SHADER_FLAGS == HAS_COLORS,
        USE_IBL & ALL_SHADER_FLAGS == USE_IBL,
        HAS_BASECOLORMAP & ALL_SHADER_FLAGS == HAS_BASECOLORMAP,
        HAS_NORMALMAP & ALL_SHADER_FLAGS == HAS_NORMALMAP,
        HAS_EMISSIVEMAP & ALL_SHADER_FLAGS == HAS_EMISSIVEMAP,
        HAS_METALROUGHNESSMAP & ALL_SHADER_FLAGS == HAS_METALROUGHNESSMAP,
        HAS_OCCLUSIONMAP & ALL_SHADER_FLAGS == HAS_OCCLUSIONMAP,
        USE_TEX_LOD & ALL_SHADER_FLAGS == USE_TEX_LOD,
{
    assert(0x1u16 & 0x7ffu16 == 0x1u16 && 0x2u16 & 0x7ffu16 == 0x2u16 && 0x4u16 & 0x7ffu16
        == 0x4u16 && 0x8u16 & 0x7ffu16 == 0x8u16 && 0x10u16 & 0x7ffu16 == 0x10u16 && 0x20u16
        & 0x7ffu16 == 0x20u16 && 0x40u16 & 0x7ffu16 == 0x40u16 && 0x80u16 & 0x7ffu16 == 0x80u16
        && 0x100u16 & 0x7ffu16 == 0x100u16 && 0x200u16 & 0x7ffu16 == 0x200u16 && 0x400u16
        & 0x7ffu16 == 0x400u16) by (bit_vector);
}

/// The name of flag `i` as a string slice.
fn flag_name_str(i: u16) -> (r: &'static str)
    requires
        i < SHADER_FLAG_COUNT,
    ensures
        r@ == flag_name(i as int),
{
    if i == 0 {
        "HAS_NORMALS"
    } else if i == 1 {
        "HAS_TANGENTS"
    } else if i == 2 {
        "HAS_UV"
    } else if i == 3 {
        "HAS_COLORS"
    } else if i == 4 {
        "USE_IBL"
    } else if i == 5 {
        "HAS_BASECOLORMAP"
    } else if i == 6 {
        "HAS_NORMALMAP"
    } else if i == 7 {
        "HAS_EMISSIVEMAP"
    } else if i == 8 {
        "HAS_METALROUGHNESSMAP"
    } else if i == 9 {
        "HAS_OCCLUSIONMAP"
    } else {
        "USE_TEX_LOD"
    }
}

fn bool_str(b: bool) -> (r: &'static str)
    ensures
        r@ == bool_text(b),
{
    if b {
        "true"
    } else {
        "false"
    }
}

impl ShaderFlags {
    #[verifier::type_invariant]
    spec fn only_defined_bits(self) -> bool {
        self.bits < 2048
    }

    /// The raw bits.
    pub closed spec fn spec_bits(self) -> u16 {
        self.bits
    }

    /// No flag set.
    pub fn empty() -> (r: ShaderFlags)
        ensures
            r.spec_bits() == 0,
    {
        ShaderFlags { bits: 0 }
    }

    /// Every defined flag set.
    pub fn all() -> (r: ShaderFlags)
        ensures
            r.spec_bits() == ALL_SHADER_FLAGS,
    {
        ShaderFlags { bits: ALL_SHADER_FLAGS }
    }

    /// The raw bits.
    pub fn bits(&self) -> (r: u16)
        ensures
            r == self.spec_bits(),
            r < 2048,
    {
        proof {
            use_type_invariant(self);
        }
        self.bits
    }

    /// The flags whose bits are set in `bits`; bits of no defined flag are dropped.
    pub fn from_bits_truncate(bits: u16) -> (r: ShaderFlags)
        ensures
            r.spec_bits() == bits & ALL_SHADER_FLAGS,
    {
        proof {
            lemma_truncate_bound(bits);
        }
        ShaderFlags { bits: bits & ALL_SHADER_FLAGS }
    }

    /// The flags of `bits`, or `None` when a bit of no defined flag is set.
    pub fn from_bits(bits: u16) -> (r: Option<ShaderFlags>)
        ensures
            bits & ALL_SHADER_FLAGS == bits ==> (r matches Some(f) && f.spec_bits() == bits),
            bits & ALL_SHADER_FLAGS != bits ==> r is None,
    {
        if bits & ALL_SHADER_FLAGS == bits {
            Some(ShaderFlags::from_bits_truncate(bits))
        } else {
            None
        }
    }

    /// Every flag of `other` is set in `self`.
    pub fn contains(&self, other: ShaderFlags) -> (r: bool)
        ensures
            r == (self.spec_bits() & other.spec_bits() == other.spec_bits()),
    {
        self.bits & other.bits == other.bits
    }

    /// Sets the flags of `other` as well.
    pub fn insert(&mut self, other: ShaderFlags)
        ensures
            final(self).spec_bits() == old(self).spec_bits() | other.spec_bits(),
    {
        proof {
            use_type_invariant(&*self);
            use_type_invariant(&other);
        }
        let a = self.bits;
        let b = other.bits;
        assert(a < 2048 && b < 2048 ==> a | b < 2048) by (bit_vector);
        self.bits = a | b;
    }

    /// Clears the flags of `other`.
    pub fn remove(&mut self, other: ShaderFlags)
        ensures
            final(self).spec_bits() == old(self).spec_bits() & !other.spec_bits(),
    {
        proof {
            use_type_invariant(&*self);
        }
        let a = self.bits;
        let b = other.bits;
        assert(a < 2048 ==> a & !b < 2048) by (bit_vector);
        self.bits = a & !b;
    }

    /// The names of the set flags, in the order of their bits.
    pub fn as_strings(self) -> (r: Vec<String>)
        ensures
            r@.len() == set_flag_names(self.spec_bits()).len(),
            forall|i: int| 0 <= i < r@.len() ==> #[trigger] r@[i]@ == set_flag_names(self.spec_bits())[i],
    {
        proof {
            use_type_invariant(&self);
        }
        let mut names: Vec<String> = Vec::new();
        let mut i: u16 = 0;
        while i < 15
            invariant
                i <= 15,
                self.bits < 2048,
                names@.len() == set_positions(self.bits, if i < 11 { i as int } else { 11 }).len(),
                forall|j: int|
                    0 <= j < names@.len() ==> #[trigger] names@[j]@ == flag_name(
                        set_positions(self.bits, if i < 11 { i as int } else { 11 })[j],
                    ),
            decreases 15 - i,
        {
            let bit: u16 = 1u16 << i;
            if i >= SHADER_FLAG_COUNT {
                proof {
                    lemma_undefined_bits_clear(self.bits, i);
                }
            } else {
                proof {
                    lemma_set_positions_step(self.bits, i as int);
                }
            }
            if self.bits & bit != 0 {
                let name = flag_name_str(i);
                names.push(name.to_string());
            }
            i = i + 1;
        }
        names
    }

    /// A summary of the material flags:
    /// "base: {} colors: {}, emisive: {}, roughness: {}, normal: {}, occlusion: {}, tangents: {}".
    pub fn to_display_string(&self) -> (r: String)
        ensures
            r@ == "base: "@ + bool_text(self.spec_bits() & HAS_BASECOLORMAP == HAS_BASECOLORMAP)
                + " colors: "@ + bool_text(self.spec_bits() & HAS_COLORS == HAS_COLORS)
                + ", emisive: "@ + bool_text(self.spec_bits() & HAS_EMISSIVEMAP == HAS_EMISSIVEMAP)
                + ", roughness: "@ + bool_text(
                self.spec_bits() & HAS_METALROUGHNESSMAP == HAS_METALROUGHNESSMAP,
            ) + ", normal: "@ + bool_text(self.spec_bits() & HAS_NORMALMAP == HAS_NORMALMAP)
                + ", occlusion: "@ + bool_text(
                self.spec_bits() & HAS_OCCLUSIONMAP == HAS_OCCLUSIONMAP,
            ) + ", tangents: "@ + bool_text(self.spec_bits() & HAS_TANGENTS == HAS_TANGENTS),
    {
        let mut s = String::from_str("base: ");
        s.append(bool_str(self.bits & HAS_BASECOLORMAP == HAS_BASECOLORMAP));
        s.append(" colors: ");
        s.append(bool_str(self.bits & HAS_COLORS == HAS_COLORS));
        s.append(", emisive: ");
        s.append(bool_str(self.bits & HAS_EMISSIVEMAP == HAS_EMISSIVEMAP));
        s.append(", roughness: ");
        s.append(bool_str(self.bits & HAS_METALROUGHNESSMAP == HAS_METALROUGHNESSMAP));
        s.append(", normal: ");
        s.append(bool_str(self.bits & HAS_NORMALMAP == HAS_NORMALMAP));
        s.append(", occlusion: ");
        s.append(bool_str(self.bits & HAS_OCCLUSIONMAP == HAS_OCCLUSIONMAP));
        s.append(", tangents: ");
        s.append(bool_str(self.bits & HAS_TANGENTS == HAS_TANGENTS));
        s
    }
}

/// The specialization constants of the glTF PBR shader: 1 switches a feature on, 0 off.
#[derive(Clone, Copy, Debug, PartialEq, Eq)]
pub struct GltfPBRShaderConstants {
    pub has_basecolormap: u32,
    pub has_emissivemap: u32,
    pub has_metalroughnessmap: u32,
    pub has_normalmap: u32,
    pub has_occlusionmap: u32,
    pub has_tangents: u32,
    pub has_normals: u32,
    pub has_uvs: u32,
    pub has_colors: u32,
    pub use_ibl: u32,
    pub texture_array_lenght: u32,
}

/// 1 when `flag` is set in `bits`, else 0.
pub open spec fn switch(bits: u16, flag: u16) -> u32 {
    if bits & flag == flag {
        1
    } else {
        0
    }
}

/// The constants that the flags `bits` switch on, with every other constant 0.
pub open spec fn constants_for(bits: u16) -> GltfPBRShaderConstants {
    GltfPBRShaderConstants {
        has_basecolormap: switch(bits, HAS_BASECOLORMAP),
        has_emissivemap: switch(bits, HAS_EMISSIVEMAP),
        has_metalroughnessmap: switch(bits, HAS_METALROUGHNESSMAP),
        has_normalmap: switch(bits, HAS_NORMALMAP),
        has_occlusionmap: switch(bits, HAS_OCCLUSIONMAP),
        has_tangents: switch(bits, HAS_TANGENTS),
        has_normals: switch(bits, HAS_NORMALS),
        has_uvs: switch(bits, HAS_UV),
        has_colors: switch(bits, HAS_COLORS),
        use_ibl: switch(bits, USE_IBL),
        texture_array_lenght: 0,
    }
}

/// Every constant 0.
pub open spec fn zero_constants() -> GltfPBRShaderConstants {
    GltfPBRShaderConstants {
        has_basecolormap: 0,
        has_emissivemap: 0,
        has_metalroughnessmap: 0,
        has_normalmap: 0,
        has_occlusionmap: 0,
        has_tangents: 0,
        has_normals: 0,
        has_uvs: 0,
        has_colors: 0,
        use_ibl: 0,
        texture_array_lenght: 0,
    }
}

impl Default for GltfPBRShaderConstants {
    fn default() -> (r: GltfPBRShaderConstants)
        ensures
            r == zero_constants(),
    {
        GltfPBRShaderConstants {
            has_basecolormap: 0,
            has_emissivemap: 0,
            has_metalroughnessmap: 0,
            has_normalmap: 0,
            has_occlusionmap: 0,
            has_tangents: 0,
            has_normals: 0,
            has_uvs: 0,
            has_colors: 0,
            use_ibl: 0,
            texture_array_lenght: 0,
        }
    }
}

impl From<ShaderFlags> for GltfPBRShaderConstants {
    fn from(flags: ShaderFlags) -> (r: GltfPBRShaderConstants)
        ensures
            r.has_basecolormap == if flags.spec_bits() & HAS_BASECOLORMAP == HAS_BASECOLORMAP { 1u32 } else { 0u32 },
            r.has_emissivemap == if flags.spec_bits() & HAS_EMISSIVEMAP == HAS_EMISSIVEMAP { 1u32 } else { 0u32 },
            r.has_metalroughnessmap == if flags.spec_bits() & HAS_METALROUGHNESSMAP == HAS_METALROUGHNESSMAP { 1u32 } else { 0u32 },
            r.has_normalmap == if flags.spec_bits() & HAS_NORMALMAP == HAS_NORMALMAP { 1u32 } else { 0u32 },
            r.has_occlusionmap == if flags.spec_bits() & HAS_OCCLUSIONMAP == HAS_OCCLUSIONMAP { 1u32 } else { 0u32 },
            r.has_tangents == if flags.spec_bits() & HAS_TANGENTS == HAS_TANGENTS { 1u32 } else { 0u32 },
            r.has_normals == if flags.spec_bits() & HAS_NORMALS == HAS_NORMALS { 1u32 } else { 0u32 },
            r.has_uvs == if flags.spec_bits() & HAS_UV == HAS_UV { 1u32 } else { 0u32 },
            r.has_colors == if flags.spec_bits() & HAS_COLORS == HAS_COLORS { 1u32 } else { 0u32 },
            r.use_ibl == if flags.spec_bits() & USE_IBL == USE_IBL { 1u32 } else { 0u32 },
            r.texture_array_lenght == 0,
    {
        proof {
            lemma_flags_are_defined();
        }
        let mut constants = GltfPBRShaderConstants::default();
        if flags.contains(ShaderFlags::from_bits_truncate(HAS_BASECOLORMAP)) {
            constants.has_basecolormap = 1;
        }
        if flags.contains(ShaderFlags::from_bits_truncate(HAS_EMISSIVEMAP)) {
            constants.has_emissivemap = 1;
        }
        if flags.contains(ShaderFlags::from_bits_truncate(HAS_METALROUGHNESSMAP)) {
            constants.has_metalroughnessmap = 1;
        }
        if flags.contains(ShaderFlags::from_bits_truncate(HAS_NORMALMAP)) {
            constants.has_normalmap = 1;
        }
        if flags.contains(ShaderFlags::from_bits_truncate(HAS_OCCLUSIONMAP)) {
            constants.has_occlusionmap = 1;
        }
        if flags.contains(ShaderFlags::from_bits_truncate(HAS_TANGENTS)) {
            constants.has_tangents = 1;
        }
        if flags.contains(ShaderFlags::from_bits_truncate(HAS_NORMALS)) {
            constants.has_normals = 1;
        }
        if flags.contains(ShaderFlags::from_bits_truncate(HAS_UV)) {
            constants.has_uvs = 1;
        }
        if flags.contains(ShaderFlags::from_bits_truncate(HAS_COLORS)) {
            constants.has_colors = 1;
        }
        if flags.contains(ShaderFlags::from_bits_truncate(USE_IBL)) {
            constants.use_ibl = 1;
        }
        constants
    }
}

impl vstd::std_specs::convert::FromSpecImpl<ShaderFlags> for GltfPBRShaderConstants {
    open spec fn obeys_from_spec() -> bool {
        true
    }

    open spec fn from_spec(flags: ShaderFlags) -> GltfPBRShaderConstants {
        constants_for(flags.spec_bits())
    }
}


/// Each specialization constant is switched on (1) exactly when its own flag is set, and is
/// otherwise 0; the texture array length is 0.
pub proof fn law_each_constant_follows_its_flag(bits: u16)
    ensures
        constants_for(bits).has_basecolormap == 1 <==> bits & HAS_BASECOLORMAP == HAS_BASECOLORMAP,
        constants_for(bits).has_basecolormap == 0 <==> bits & HAS_BASECOLORMAP != HAS_BASECOLORMAP,
        constants_for(bits).has_emissivemap == 1 <==> bits & HAS_EMISSIVEMAP == HAS_EMISSIVEMAP,
        constants_for(bits).has_emissivemap == 0 <==> bits & HAS_EMISSIVEMAP != HAS_EMISSIVEMAP,
        constants_for(bits).has_metalroughnessmap == 1 <==> bits & HAS_METALROUGHNESSMAP == HAS_METALROUGHNESSMAP,
        constants_for(bits).has_metalroughnessmap == 0 <==> bits & HAS_METALROUGHNESSMAP != HAS_METALROUGHNESSMAP,
        constants_for(bits).has_normalmap == 1 <==> bits & HAS_NORMALMAP == HAS_NORMALMAP,
        constants_for(bits).has_normalmap == 0 <==> bits & HAS_NORMALMAP != HAS_NORMALMAP,
        constants_for(bits).has_occlusionmap == 1 <==> bits & HAS_OCCLUSIONMAP == HAS_OCCLUSIONMAP,
        constants_for(bits).has_occlusionmap == 0 <==> bits & HAS_OCCLUSIONMAP != HAS_OCCLUSIONMAP,
        constants_for(bits).has_tangents == 1 <==> bits & HAS_TANGENTS == HAS_TANGENTS,
        constants_for(bits).has_tangents == 0 <==> bits & HAS_TANGENTS != HAS_TANGENTS,
        constants_for(bits).has_normals == 1 <==> bits & HAS_NORMALS == HAS_NORMALS,
        constants_for(bits).has_normals == 0 <==> bits & HAS_NORMALS != HAS_NORMALS,
        constants_for(bits).has_uvs == 1 <==> bits & HAS_UV == HAS_UV,
        constants_for(bits).has_uvs == 0 <==> bits & HAS_UV != HAS_UV,
        constants_for(bits).has_colors == 1 <==> bits & HAS_COLORS == HAS_COLORS,
        constants_for(bits).has_colors == 0 <==> bits & HAS_COLORS != HAS_COLORS,
        constants_for(bits).use_ibl == 1 <==> bits & USE_IBL == USE_IBL,
        constants_for(bits).use_ibl == 0 <==> bits & USE_IBL != USE_IBL,
        constants_for(bits).texture_array_lenght == 0,
{
}

/// Inserting flags makes the set contain them: after `insert(other)`, `contains(other)` holds.
pub proof fn law_insert_then_contains(before: ShaderFlags, after: ShaderFlags, other: ShaderFlags)
    requires
        after.spec_bits() == before.spec_bits() | other.spec_bits(),
    ensures
        after.spec_bits() & other.spec_bits() == other.spec_bits(),
{
    let a = before.spec_bits();
    let b = other.spec_bits();
    assert((a | b) & b == b) by (bit_vector);
}

/// Removing flags that were just inserted, and that were not set before, gives back the
/// original set: `remove(other)` after `insert(other)` undoes it.
pub proof fn law_remove_undoes_insert(
    before: ShaderFlags,
    inserted: ShaderFlags,
    removed: ShaderFlags,
    other: ShaderFlags,
)
    requires
        before.spec_bits() & other.spec_bits() == 0,
        inserted.spec_bits() == before.spec_bits() | other.spec_bits(),
        removed.spec_bits() == inserted.spec_bits() & !other.spec_bits(),
    ensures
        removed.spec_bits() == before.spec_bits(),
{
    let a = before.spec_bits();
    let b = other.spec_bits();
    assert(a & b == 0 ==> (a | b) & !b == a) by (bit_vector);
}

/// Rebuilding a flag set from its bits gives the same set: the bits of a valid set (as
/// `bits` returns them) are all defined flags.
pub proof fn law_bits_round_trip(bits: u16)
    requires
        bits < 2048,
    ensures
        bits & ALL_SHADER_FLAGS == bits,
{
    assert(bits < 2048 ==> bits & 0x7ffu16 == bits) by (bit_vector);
}

} // verus!
