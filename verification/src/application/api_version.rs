//! The version of the interface, in its four parts.
use vstd::prelude::*;

verus! {

/// `ash::vk::make_api_version` packs the four parts of a version into one
/// number: the variant from bit 29 up, the major version from bit 22, the
/// minor version from bit 12, the patch in the low bits. A part that is too
/// large for its field spills into the next.
pub assume_specification[ ash::vk::make_api_version ](
    variant: u32,
    major: u32,
    minor: u32,
    patch: u32,
) -> (version: u32)
    ensures
        version == ((variant << 29u32) | (major << 22u32) | (minor << 12u32) | patch),
;

/// A version of the interface.
#[derive(Debug, Copy, Clone, PartialEq, Eq, Structural)]
pub struct ApiVersion {
    pub variant: u32,
    pub major: u32,
    pub minor: u32,
    pub patch: u32,
}

impl ApiVersion {
    /// The version of the four parts.
    pub fn new(variant: u32, major: u32, minor: u32, patch: u32) -> (version: ApiVersion)
        ensures
            version == (ApiVersion { variant, major, minor, patch }),
    {
        Self { variant, major, minor, patch }
    }

    /// The version of the three parts, of variant zero.
    pub fn from_triple(major: u32, minor: u32, patch: u32) -> (version: ApiVersion)
        ensures
            version == (ApiVersion { variant: 0, major, minor, patch }),
    {
        ApiVersion::new(0, major, minor, patch)
    }

    /// The variant of the interface.
    pub fn variant(&self) -> (variant: u32)
        ensures
            variant == self.variant,
    {
        self.variant
    }

    /// The major version.
    pub fn major(&self) -> (major: u32)
        ensures
            major == self.major,
    {
        self.major
    }

    /// The minor version.
    pub fn minor(&self) -> (minor: u32)
        ensures
            minor == self.minor,
    {
        self.minor
    }

    /// The patch version.
    pub fn patch(&self) -> (patch: u32)
        ensures
            patch == self.patch,
    {
        self.patch
    }

    /// The four parts: variant, major, minor, patch.
    pub fn as_parts(&self) -> (parts: (u32, u32, u32, u32))
        ensures
            parts == (self.variant, self.major, self.minor, self.patch),
    {
        (self.variant, self.major, self.minor, self.patch)
    }

    /// The version as the one number that the driver takes.
    pub open spec fn encoded(self) -> u32 {
        (self.variant << 29u32) | (self.major << 22u32) | (self.minor << 12u32) | self.patch
    }

    /// The version as the one number that the driver takes.
    pub fn encode(&self) -> (version: u32)
        ensures
            version == self.encoded(),
    {
        ash::vk::make_api_version(self.variant, self.major, self.minor, self.patch)
    }
}

} // verus!
