//! Instance-level version encoding.
//!
//! The graphics API packs a semantic version into one 32-bit word: ten bits
//! of major, ten of minor, twelve of patch. The engine reports its
//! application, engine and targeted API versions in this encoding when the
//! instance is created.

use vstd::prelude::*;

verus! {

/// The packed encoding: `major` shifted up 22 bits, `minor` up 12, `patch`
/// in the low bits.
pub open spec fn spec_version(major: int, minor: int, patch: int) -> int {
    major * 0x40_0000 + minor * 0x1000 + patch
}

/// Packs a version triple into the API's 32-bit encoding. Each component
/// must fit its field: ten bits for major and minor, twelve for patch.
pub fn make_version(major: u32, minor: u32, patch: u32) -> (version: u32)
    requires
        major < 0x400,
        minor < 0x400,
        patch < 0x1000,
    ensures
        version == spec_version(major as int, minor as int, patch as int),
{
    major * 0x40_0000 + minor * 0x1000 + patch
}

} // verus!
