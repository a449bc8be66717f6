use anasaizi::shader_flags::{
    GltfPBRShaderConstants, ShaderFlags, ALL_SHADER_FLAGS, HAS_BASECOLORMAP, HAS_COLORS,
    HAS_EMISSIVEMAP, HAS_METALROUGHNESSMAP, HAS_NORMALMAP, HAS_NORMALS, HAS_OCCLUSIONMAP,
    HAS_TANGENTS, HAS_UV, USE_IBL, USE_TEX_LOD,
};

#[test]
fn as_strings_names_set_flags_in_bit_order() {
    let flags = ShaderFlags::from_bits_truncate(HAS_UV | HAS_NORMALS | USE_TEX_LOD);
    assert_eq!(flags.as_strings(), vec!["HAS_NORMALS", "HAS_UV", "USE_TEX_LOD"]);
    assert!(ShaderFlags::empty().as_strings().is_empty());
}

#[test]
fn as_strings_all_flags() {
    assert_eq!(
        ShaderFlags::all().as_strings(),
        vec![
            "HAS_NORMALS",
            "HAS_TANGENTS",
            "HAS_UV",
            "HAS_COLORS",
            "USE_IBL",
            "HAS_BASECOLORMAP",
            "HAS_NORMALMAP",
            "HAS_EMISSIVEMAP",
            "HAS_METALROUGHNESSMAP",
            "HAS_OCCLUSIONMAP",
            "USE_TEX_LOD",
        ]
    );
}

#[test]
fn truncate_drops_undefined_bits() {
    assert_eq!(ShaderFlags::from_bits_truncate(0xffff).bits(), ALL_SHADER_FLAGS);
    assert_eq!(ShaderFlags::from_bits(0x0800), None);
    assert_eq!(ShaderFlags::from_bits(HAS_UV).map(|f| f.bits()), Some(HAS_UV));
}

#[test]
fn insert_remove_contains() {
    let mut flags = ShaderFlags::empty();
    let uv = ShaderFlags::from_bits_truncate(HAS_UV);
    assert!(!flags.contains(uv));
    flags.insert(uv);
    assert!(flags.contains(uv));
    flags.insert(ShaderFlags::from_bits_truncate(HAS_COLORS));
    flags.remove(uv);
    assert!(!flags.contains(uv));
    assert_eq!(flags.bits(), HAS_COLORS);
    assert!(flags.contains(ShaderFlags::empty()));
}

#[test]
fn constants_from_flags() {
    let flags = ShaderFlags::from_bits_truncate(
        HAS_BASECOLORMAP | HAS_NORMALS | HAS_UV | USE_IBL | USE_TEX_LOD,
    );
    let c = GltfPBRShaderConstants::from(flags);
    assert_eq!(
        c,
        GltfPBRShaderConstants {
            has_basecolormap: 1,
            has_emissivemap: 0,
            has_metalroughnessmap: 0,
            has_normalmap: 0,
            has_occlusionmap: 0,
            has_tangents: 0,
            has_normals: 1,
            has_uvs: 1,
            has_colors: 0,
            use_ibl: 1,
            texture_array_lenght: 0,
        }
    );
    let all = GltfPBRShaderConstants::from(ShaderFlags::all());
    assert_eq!(all.has_emissivemap, 1);
    assert_eq!(all.has_metalroughnessmap, 1);
    assert_eq!(all.has_normalmap, 1);
    assert_eq!(all.has_occlusionmap, 1);
    assert_eq!(all.has_tangents, 1);
    assert_eq!(all.has_colors, 1);
    assert_eq!(all.texture_array_lenght, 0);
    assert_eq!(GltfPBRShaderConstants::from(ShaderFlags::empty()), GltfPBRShaderConstants::default());
}

#[test]
fn display_text() {
    let flags = ShaderFlags::from_bits_truncate(
        HAS_BASECOLORMAP | HAS_EMISSIVEMAP | HAS_OCCLUSIONMAP | HAS_TANGENTS,
    );
    assert_eq!(
        flags.to_display_string(),
        "base: true colors: false, emisive: true, roughness: false, normal: false, occlusion: true, tangents: true"
    );
    let more = ShaderFlags::from_bits_truncate(HAS_COLORS | HAS_METALROUGHNESSMAP | HAS_NORMALMAP);
    assert_eq!(
        more.to_display_string(),
        "base: false colors: true, emisive: false, roughness: true, normal: true, occlusion: false, tangents: false"
    );
}

#[test]
fn from_bits_of_bits_round_trips() {
    let flags = ShaderFlags::from_bits_truncate(0xffff);
    assert_eq!(ShaderFlags::from_bits(flags.bits()), Some(flags));
    assert_eq!(ShaderFlags::from_bits(0x800), None);
}
