use parlab::vulkan_version::{
    vk_api_version_major, vk_api_version_minor, vk_api_version_patch, vk_api_version_variant,
    vk_make_api_version, vk_make_version, vk_version_major, vk_version_minor, vk_version_patch,
};

#[test]
fn make_api_version_1_3_0() {
    assert_eq!(vk_make_api_version(0, 1, 3, 0), 0x0040_3000);
    assert_eq!(vk_make_api_version(0, 1, 3, 0), 4206592);
}

#[test]
fn make_version_1_0_0() {
    assert_eq!(vk_make_version(1, 0, 0), 4194304);
}

#[test]
fn api_version_fields_round_trip() {
    let v = vk_make_api_version(5, 100, 1000, 4000);
    assert_eq!(vk_api_version_variant(v), 5);
    assert_eq!(vk_api_version_major(v), 100);
    assert_eq!(vk_api_version_minor(v), 1000);
    assert_eq!(vk_api_version_patch(v), 4000);
}

#[test]
fn legacy_version_fields_round_trip() {
    let v = vk_make_version(1000, 1023, 4095);
    assert_eq!(vk_version_major(v), 1000);
    assert_eq!(vk_version_minor(v), 1023);
    assert_eq!(vk_version_patch(v), 4095);
}

#[test]
fn api_version_recomposes_any_value() {
    let v: u32 = 0xDEAD_BEEF;
    let w = vk_make_api_version(
        vk_api_version_variant(v),
        vk_api_version_major(v),
        vk_api_version_minor(v),
        vk_api_version_patch(v),
    );
    assert_eq!(w, v);
}

#[test]
fn api_major_masks_variant_bits_but_legacy_major_does_not() {
    let v = vk_make_api_version(7, 1, 2, 3);
    assert_eq!(vk_api_version_major(v), 1);
    assert_eq!(vk_version_major(v), (7 << 7) | 1);
}

#[test]
fn oversized_fields_overlap_and_top_bits_drop() {
    // A patch of 4096 spills into the minor field; a variant of 8 drops off the top.
    assert_eq!(vk_make_api_version(0, 0, 0, 4096), vk_make_api_version(0, 0, 1, 0));
    assert_eq!(vk_make_api_version(8, 0, 0, 0), 0);
}

#[test]
fn variant_zero_matches_legacy_packing() {
    assert_eq!(vk_make_api_version(0, 1, 2, 3), vk_make_version(1, 2, 3));
}

#[test]
fn versions_order_like_their_fields() {
    assert!(vk_make_api_version(0, 1, 2, 3) < vk_make_api_version(0, 1, 3, 0));
    assert!(vk_make_api_version(0, 1, 4095 % 1024, 4095) < vk_make_api_version(0, 2, 0, 0));
}
