//! The storage protocols that a release speaks.

use vstd::prelude::*;

verus! {

/// Oldest storage protocol understood by this release.
pub const STORAGE_PROTOCOL_MIN_VERSION: u32 = 1;

/// Newest storage protocol understood by this release.
pub const STORAGE_PROTOCOL_MAX_VERSION: u32 = 1;

/// Current storage protocol emitted by this release.
pub const STORAGE_PROTOCOL_VERSION: u32 = STORAGE_PROTOCOL_MAX_VERSION;

#[derive(Clone, Copy, Debug, PartialEq, Eq, Structural)]
pub struct StorageProtocolRange {
    pub minimum: u32,
    pub maximum: u32,
}

impl StorageProtocolRange {
    /// A range of versions above zero with at least one version in it.
    pub open spec fn well_formed(self) -> bool {
        0 < self.minimum <= self.maximum
    }

    /// Whether the range holds a version.
    pub open spec fn holds(self, version: u32) -> bool {
        self.minimum <= version <= self.maximum
    }

    /// The range understood by this release.
    pub fn current() -> (result: Self)
        ensures
            result.minimum == STORAGE_PROTOCOL_MIN_VERSION,
            result.maximum == STORAGE_PROTOCOL_MAX_VERSION,
            result.well_formed(),
    {
        StorageProtocolRange {
            minimum: STORAGE_PROTOCOL_MIN_VERSION,
            maximum: STORAGE_PROTOCOL_MAX_VERSION,
        }
    }

    /// The range, `None` when it would start at zero or be empty.
    pub fn new(minimum: u32, maximum: u32) -> (result: Option<Self>)
        ensures
            result == if 0 < minimum <= maximum {
                Some(StorageProtocolRange { minimum, maximum })
            } else {
                None
            },
    {
        if minimum == 0 || maximum < minimum {
            return None;
        }
        Some(StorageProtocolRange { minimum, maximum })
    }

    /// Whether each range begins before the other ends.
    pub fn overlaps(self, other: Self) -> (result: bool)
        ensures
            result == ranges_overlap(self, other),
    {
        self.minimum <= other.maximum && other.minimum <= self.maximum
    }
}

/// Each range begins before the other ends.
pub open spec fn ranges_overlap(left: StorageProtocolRange, right: StorageProtocolRange) -> bool {
    left.minimum <= right.maximum && right.minimum <= left.maximum
}

/// Ranges overlap exactly when some version is in both.
pub proof fn overlap_is_a_common_version(left: StorageProtocolRange, right: StorageProtocolRange)
    requires
        left.well_formed(),
        right.well_formed(),
    ensures
        ranges_overlap(left, right) <==> exists|version: u32|
            left.holds(version) && right.holds(version),
{
    if ranges_overlap(left, right) {
        let common = if left.minimum >= right.minimum {
            left.minimum
        } else {
            right.minimum
        };
        assert(left.holds(common) && right.holds(common));
    }
}

/// Which of two ranges is asked makes no difference.
pub proof fn overlap_is_symmetric(left: StorageProtocolRange, right: StorageProtocolRange)
    ensures
        ranges_overlap(left, right) == ranges_overlap(right, left),
{
}

} // verus!
