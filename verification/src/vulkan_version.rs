use vstd::prelude::*;

verus! {

/// Bit layout of a packed API version: variant (3 bits), major (7 bits),
/// minor (10 bits), patch (12 bits).
pub open spec fn packed_api_version(variant: u32, major: u32, minor: u32, patch: u32) -> u32 {
    (variant << 29u32) | (major << 22u32) | (minor << 12u32) | patch
}

/// Bit layout of a legacy packed version: major (10 bits), minor (10 bits),
/// patch (12 bits).
pub open spec fn packed_version(major: u32, minor: u32, patch: u32) -> u32 {
    (major << 22u32) | (minor << 12u32) | patch
}

/// Packs an API version; bits shifted past bit 31 are dropped and fields
/// wider than their slot overlap the next one, as the shifts and ors do.
pub fn vk_make_api_version(variant: u32, major: u32, minor: u32, patch: u32) -> (r: u32)
    ensures
        r == packed_api_version(variant, major, minor, patch),
{
    variant << 29u32 | major << 22u32 | minor << 12u32 | patch
}

/// Packs a legacy version.
pub fn vk_make_version(major: u32, minor: u32, patch: u32) -> (r: u32)
    ensures
        r == packed_version(major, minor, patch),
{
    major << 22u32 | minor << 12u32 | patch
}

/// The variant: the top three bits.
pub fn vk_api_version_variant(version: u32) -> (r: u32)
    ensures
        r == version / 0x2000_0000,
{
    let r = version >> 29;
    assert(r == version / 0x2000_0000) by (bit_vector)
        requires
            r == version >> 29,
    ;
    r
}

/// The major number of an API version: bits 22 to 28.
pub fn vk_api_version_major(version: u32) -> (r: u32)
    ensures
        r == (version / 0x40_0000) % 128,
{
    let r = (version >> 22) & 0x7F;
    assert(r == (version / 0x40_0000) % 128) by (bit_vector)
        requires
            r == (version >> 22) & 0x7F,
    ;
    r
}

/// The minor number of an API version: bits 12 to 21.
pub fn vk_api_version_minor(version: u32) -> (r: u32)
    ensures
        r == (version / 0x1000) % 1024,
{
    let r = (version >> 12) & 0x3FF;
    assert(r == (version / 0x1000) % 1024) by (bit_vector)
        requires
            r == (version >> 12) & 0x3FF,
    ;
    r
}

/// The patch number of an API version: bits 0 to 11.
pub fn vk_api_version_patch(version: u32) -> (r: u32)
    ensures
        r == version % 4096,
{
    let r = version & 0xFFF;
    assert(r == version % 4096) by (bit_vector)
        requires
            r == version & 0xFFF,
    ;
    r
}

/// The major number of a legacy version: bits 22 to 31.
pub fn vk_version_major(version: u32) -> (r: u32)
    ensures
        r == version / 0x40_0000,
{
    let r = version >> 22;
    assert(r == version / 0x40_0000) by (bit_vector)
        requires
            r == version >> 22,
    ;
    r
}

/// The minor number of a legacy version: bits 12 to 21.
pub fn vk_version_minor(version: u32) -> (r: u32)
    ensures
        r == (version / 0x1000) % 1024,
{
    let r = (version >> 12) & 0x3FF;
    assert(r == (version / 0x1000) % 1024) by (bit_vector)
        requires
            r == (version >> 12) & 0x3FF,
    ;
    r
}

/// The patch number of a legacy version: bits 0 to 11.
pub fn vk_version_patch(version: u32) -> (r: u32)
    ensures
        r == version % 4096,
{
    let r = version & 0xFFF;
    assert(r == version % 4096) by (bit_vector)
        requires
            r == version & 0xFFF,
    ;
    r
}

/// Packing an API version whose fields fit their slots and then reading each
/// field back gives the fields that went in.
pub proof fn lemma_api_version_round_trip(variant: u32, major: u32, minor: u32, patch: u32)
    requires
        variant < 8,
        major < 128,
        minor < 1024,
        patch < 4096,
    ensures
        packed_api_version(variant, major, minor, patch) / 0x2000_0000 == variant,
        (packed_api_version(variant, major, minor, patch) / 0x40_0000) % 128 == major,
        (packed_api_version(variant, major, minor, patch) / 0x1000) % 1024 == minor,
        packed_api_version(variant, major, minor, patch) % 4096 == patch,
{
    assert(((variant << 29u32) | (major << 22u32) | (minor << 12u32) | patch) / 0x2000_0000
        == variant) by (bit_vector)
        requires
            variant < 8,
            major < 128,
            minor < 1024,
            patch < 4096,
    ;
    assert((((variant << 29u32) | (major << 22u32) | (minor << 12u32) | patch) / 0x40_0000) % 128
        == major) by (bit_vector)
        requires
            variant < 8,
            major < 128,
            minor < 1024,
            patch < 4096,
    ;
    assert((((variant << 29u32) | (major << 22u32) | (minor << 12u32) | patch) / 0x1000) % 1024
        == minor) by (bit_vector)
        requires
            variant < 8,
            major < 128,
            minor < 1024,
            patch < 4096,
    ;
    assert(((variant << 29u32) | (major << 22u32) | (minor << 12u32) | patch) % 4096 == patch)
        by (bit_vector)
        requires
            variant < 8,
            major < 128,
            minor < 1024,
            patch < 4096,
    ;
}

/// Every 32-bit value is the packing of its own four API-version fields.
pub proof fn lemma_api_version_recompose(version: u32)
    ensures
        packed_api_version(
            (version / 0x2000_0000) as u32,
            ((version / 0x40_0000) % 128) as u32,
            ((version / 0x1000) % 1024) as u32,
            (version % 4096) as u32,
        ) == version,
{
    assert(((((version / 0x2000_0000) as u32) << 29u32) | ((((version / 0x40_0000) % 128) as u32)
        << 22u32) | ((((version / 0x1000) % 1024) as u32) << 12u32) | ((version % 4096) as u32))
        == version) by (bit_vector);
}

/// Packing a legacy version whose fields fit their slots and then reading
/// each field back gives the fields that went in.
pub proof fn lemma_version_round_trip(major: u32, minor: u32, patch: u32)
    requires
        major < 1024,
        minor < 1024,
        patch < 4096,
    ensures
        packed_version(major, minor, patch) / 0x40_0000 == major,
        (packed_version(major, minor, patch) / 0x1000) % 1024 == minor,
        packed_version(major, minor, patch) % 4096 == patch,
{
    assert(((major << 22u32) | (minor << 12u32) | patch) / 0x40_0000 == major) by (bit_vector)
        requires
            major < 1024,
            minor < 1024,
            patch < 4096,
    ;
    assert((((major << 22u32) | (minor << 12u32) | patch) / 0x1000) % 1024 == minor)
        by (bit_vector)
        requires
            major < 1024,
            minor < 1024,
            patch < 4096,
    ;
    assert(((major << 22u32) | (minor << 12u32) | patch) % 4096 == patch) by (bit_vector)
        requires
            major < 1024,
            minor < 1024,
            patch < 4096,
    ;
}

/// Every 32-bit value is the packing of its own three legacy-version fields.
pub proof fn lemma_version_recompose(version: u32)
    ensures
        packed_version(
            (version / 0x40_0000) as u32,
            ((version / 0x1000) % 1024) as u32,
            (version % 4096) as u32,
        ) == version,
{
    assert(((((version / 0x40_0000) as u32) << 22u32) | ((((version / 0x1000) % 1024) as u32)
        << 12u32) | ((version % 4096) as u32)) == version) by (bit_vector);
}

/// An API version of variant 0 has the same bits as the legacy packing of
/// the same major, minor and patch numbers.
pub proof fn lemma_variant_zero_is_legacy(major: u32, minor: u32, patch: u32)
    ensures
        packed_api_version(0, major, minor, patch) == packed_version(major, minor, patch),
{
    assert(((0u32 << 29u32) | (major << 22u32) | (minor << 12u32) | patch) == ((major << 22u32)
        | (minor << 12u32) | patch)) by (bit_vector);
}

/// For fields that fit their slots, packed API versions of one variant
/// compare as numbers exactly as their (major, minor, patch) triples compare
/// lexicographically.
pub proof fn lemma_api_version_order(
    variant: u32,
    major1: u32,
    minor1: u32,
    patch1: u32,
    major2: u32,
    minor2: u32,
    patch2: u32,
)
    requires
        variant < 8,
        major1 < 128,
        minor1 < 1024,
        patch1 < 4096,
        major2 < 128,
        minor2 < 1024,
        patch2 < 4096,
    ensures
        (packed_api_version(variant, major1, minor1, patch1) < packed_api_version(
            variant,
            major2,
            minor2,
            patch2,
        )) == (major1 < major2 || (major1 == major2 && (minor1 < minor2 || (minor1 == minor2
            && patch1 < patch2)))),
{
    assert((((variant << 29u32) | (major1 << 22u32) | (minor1 << 12u32) | patch1) < ((variant
        << 29u32) | (major2 << 22u32) | (minor2 << 12u32) | patch2)) == (major1 < major2 || (major1
        == major2 && (minor1 < minor2 || (minor1 == minor2 && patch1 < patch2))))) by (bit_vector)
        requires
            variant < 8,
            major1 < 128,
            minor1 < 1024,
            patch1 < 4096,
            major2 < 128,
            minor2 < 1024,
            patch2 < 4096,
    ;
}

} // verus!
