//! What the backend reports about itself during the handshake.

use vstd::prelude::*;

verus! {

/// A semantic version.
#[derive(Debug, Clone, Copy, PartialEq, Eq)]
pub struct ApiVersion {
    pub major: u64,
    pub minor: u64,
    pub patch: u64,
}

/// The channel of this client and the version of the backend.
#[derive(Debug, Clone, Copy, PartialEq, Eq)]
pub struct ApiInformation {
    /// Identifies this client to the backend; scopes what it registers.
    pub channel: u64,
    pub version: ApiVersion,
}

/// The oldest backend that is supported: 0.10.0.
pub const REQUIRED_MAJOR: u64 = 0;

pub const REQUIRED_MINOR: u64 = 10;

pub const REQUIRED_PATCH: u64 = 0;

/// `(major, minor, patch)` is not older than `(required_major, required_minor,
/// required_patch)`: the triples are compared by major, then minor, then
/// patch.
pub open spec fn triple_at_least(
    major: int,
    minor: int,
    patch: int,
    required_major: int,
    required_minor: int,
    required_patch: int,
) -> bool {
    major > required_major || (major == required_major && (minor > required_minor || (minor
        == required_minor && patch >= required_patch)))
}

impl ApiVersion {
    /// This version is `major.minor.patch` or newer.
    pub open spec fn at_least(self, major: u64, minor: u64, patch: u64) -> bool {
        triple_at_least(
            self.major as int,
            self.minor as int,
            self.patch as int,
            major as int,
            minor as int,
            patch as int,
        )
    }

    /// This version is one that the client can work with.
    pub open spec fn is_supported(self) -> bool {
        self.at_least(REQUIRED_MAJOR, REQUIRED_MINOR, REQUIRED_PATCH)
    }

    /// Whether this version is `major.minor.patch` or newer.
    pub fn has_version(&self, major: u64, minor: u64, patch: u64) -> (newer: bool)
        ensures
            newer == self.at_least(major, minor, patch),
    {
        self.major > major || (self.major == major && (self.minor > minor || (self.minor == minor
            && self.patch >= patch)))
    }

    /// Whether the client can work with this version.
    pub fn supported(&self) -> (supported: bool)
        ensures
            supported == self.is_supported(),
            supported == (self.major > 0 || self.minor >= 10),
    {
        self.has_version(REQUIRED_MAJOR, REQUIRED_MINOR, REQUIRED_PATCH)
    }
}

/// Every version is at least itself.
pub proof fn lemma_at_least_reflexive(version: ApiVersion)
    ensures
        version.at_least(version.major, version.minor, version.patch),
{
}

/// A version that is at least a second one, which is at least a third, is
/// at least the third.
pub proof fn lemma_at_least_transitive(newest: ApiVersion, middle: ApiVersion, oldest: ApiVersion)
    requires
        newest.at_least(middle.major, middle.minor, middle.patch),
        middle.at_least(oldest.major, oldest.minor, oldest.patch),
    ensures
        newest.at_least(oldest.major, oldest.minor, oldest.patch),
{
}

/// Of two versions one is at least the other, and two that are at least
/// each other are the same.
pub proof fn lemma_at_least_total(left: ApiVersion, right: ApiVersion)
    ensures
        left.at_least(right.major, right.minor, right.patch) || right.at_least(
            left.major,
            left.minor,
            left.patch,
        ),
        left.at_least(right.major, right.minor, right.patch) && right.at_least(
            left.major,
            left.minor,
            left.patch,
        ) ==> left == right,
{
}

} // verus!
