//! The version of the library, packed into one number: one byte each for the
//! major number, the minor number and the revision.

use vstd::prelude::*;

verus! {

/// Major version number.
pub const SQUASH_VERSION_MAJOR: u32 = 0;

/// Minor version number.
pub const SQUASH_VERSION_MINOR: u32 = 8;

/// Revision number.
pub const SQUASH_VERSION_REVISION: u32 = 0;

/// The version of the interface. It changes only when a change breaks
/// compatibility.
pub const SQUASH_VERSION_API: &'static str = "0.8";

/// The current version, packed into one number.
pub const SQUASH_VERSION_CURRENT: u32 = 0x000800;

/// The number that packs three version bytes.
pub open spec fn squash_version_pack(major: int, minor: int, revision: int) -> int {
    (major % 256) * 65536 + (minor % 256) * 256 + (revision % 256)
}

/// Packs the major number, the minor number and the revision into one number.
/// Of each only the lowest byte counts.
#[allow(non_snake_case)]
pub fn SQUASH_VERSION(major: u32, minor: u32, revision: u32) -> (version: u32)
    ensures
        version == squash_version_pack(major as int, minor as int, revision as int),
        version < 0x1000000,
{
    assert((((major & 0xFF) << 16) | ((minor & 0xFF) << 8) | (revision & 0xFF)) == (major % 256)
        * 65536 + (minor % 256) * 256 + (revision % 256)) by (bit_vector);
    ((major & 0xFF) << 16) | ((minor & 0xFF) << 8) | (revision & 0xFF)
}

/// The major number of a packed version.
#[allow(non_snake_case)]
pub fn SQUASH_VERSION_EXTRACT_MAJOR(version: u32) -> (major: u32)
    ensures
        major == (version / 65536) % 256,
{
    assert(((version >> 16) & 0xff) == (version / 65536) % 256) by (bit_vector);
    (version >> 16) & 0xff
}

/// The minor number of a packed version.
#[allow(non_snake_case)]
pub fn SQUASH_VERSION_EXTRACT_MINOR(version: u32) -> (minor: u32)
    ensures
        minor == (version / 256) % 256,
{
    assert(((version >> 8) & 0xff) == (version / 256) % 256) by (bit_vector);
    (version >> 8) & 0xff
}

/// The revision of a packed version.
#[allow(non_snake_case)]
pub fn SQUASH_VERSION_EXTRACT_REVISION(version: u32) -> (revision: u32)
    ensures
        revision == version % 256,
{
    assert((version & 0xff) == version % 256) by (bit_vector);
    version & 0xff
}

/// The version of the library in use.
pub fn squash_version() -> (version: u32)
    ensures
        version == SQUASH_VERSION_CURRENT,
        version == squash_version_pack(
            SQUASH_VERSION_MAJOR as int,
            SQUASH_VERSION_MINOR as int,
            SQUASH_VERSION_REVISION as int,
        ),
{
    SQUASH_VERSION_CURRENT
}

/// The version of the interface of the library in use.
pub fn squash_version_api() -> (api: &'static str)
    ensures
        api@ == SQUASH_VERSION_API@,
{
    SQUASH_VERSION_API
}

/// Unpacking a packed version gives back the lowest byte of each of the three
/// numbers that were packed.
pub proof fn lemma_version_unpack(major: u32, minor: u32, revision: u32)
    ensures
        ({
            let version = squash_version_pack(major as int, minor as int, revision as int);
            &&& 0 <= version < 0x1000000
            &&& (version / 65536) % 256 == major % 256
            &&& (version / 256) % 256 == minor % 256
            &&& version % 256 == revision % 256
        }),
{
    let a = (major % 256) as int;
    let b = (minor % 256) as int;
    let c = (revision % 256) as int;
    let version = a * 65536 + b * 256 + c;
    assert(version / 65536 == a) by (nonlinear_arith)
        requires
            version == a * 65536 + b * 256 + c,
            0 <= a < 256,
            0 <= b < 256,
            0 <= c < 256,
    ;
    assert(version / 256 == a * 256 + b) by (nonlinear_arith)
        requires
            version == a * 65536 + b * 256 + c,
            0 <= a < 256,
            0 <= b < 256,
            0 <= c < 256,
    ;
    assert((a * 256 + b) % 256 == b) by (nonlinear_arith)
        requires
            0 <= a < 256,
            0 <= b < 256,
    ;
    assert(version % 256 == c) by (nonlinear_arith)
        requires
            version == a * 65536 + b * 256 + c,
            0 <= a < 256,
            0 <= b < 256,
            0 <= c < 256,
    ;
}

} // verus!
