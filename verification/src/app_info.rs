//! What the application says of itself when an instance is created.

use crate::error::XrError;
use vstd::prelude::*;
use vstd::utf8::encode_utf8;

verus! {

/// The longest application name, in bytes of UTF-8, that the runtime takes.
pub const MAX_NAME_BYTES: usize = 127;

/// A semantic version.
#[derive(Clone, Copy, Debug, PartialEq, Eq, Structural)]
pub struct Version {
    pub major: u8,
    pub minor: u8,
    pub patch: u16,
}

impl Version {
    /// The version as one number: the major part in the top eight bits, the
    /// minor part in the next eight, the patch level in the low sixteen.
    pub open spec fn packed(self) -> int {
        self.major * 0x100_0000 + self.minor * 0x1_0000 + self.patch
    }

    pub fn new(major: u8, minor: u8, patch: u16) -> (r: Version)
        ensures
            r == (Version { major, minor, patch }),
    {
        Version { major, minor, patch }
    }

    /// The version as one number, as the runtime wants it.
    pub fn to_u32(self) -> (r: u32)
        ensures
            r == self.packed(),
    {
        let major: u32 = self.major as u32;
        let minor: u32 = self.minor as u32;
        let patch: u32 = self.patch as u32;
        assert((major << 24) | (minor << 16) | patch == major * 0x100_0000 + minor * 0x1_0000
            + patch) by (bit_vector)
            requires
                major < 0x100,
                minor < 0x100,
                patch < 0x1_0000,
        ;
        (major << 24) | (minor << 16) | patch
    }
}

/// Name and version of the application that opens the session.
#[derive(Clone, Debug)]
pub struct AppInfo {
    pub name: String,
    pub version: Version,
}

impl AppInfo {
    /// The length of the name in bytes of UTF-8.
    pub open spec fn name_bytes(&self) -> nat {
        encode_utf8(self.name@).len()
    }

    /// Whether the runtime can take the name.
    pub open spec fn name_fits(&self) -> bool {
        self.name_bytes() <= MAX_NAME_BYTES
    }

    /// Whether the runtime can take the name.
    pub fn has_valid_name(&self) -> (r: bool)
        ensures
            r == self.name_fits(),
    {
        self.name.as_str().as_bytes().len() <= MAX_NAME_BYTES
    }

    /// Accepts the name where the runtime can take it.
    pub fn check_name(&self) -> (r: Result<(), XrError>)
        ensures
            self.name_fits() ==> r == Ok::<(), XrError>(()),
            !self.name_fits() ==> r == Err::<(), XrError>(XrError::ApplicationNameTooLong),
    {
        if self.has_valid_name() {
            Ok(())
        } else {
            Err(XrError::ApplicationNameTooLong)
        }
    }
}

} // verus!
