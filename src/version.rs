//! Four-part versions of plugins, compilers and the API.

use vstd::prelude::*;
use std::cmp::Ordering;

verus! {

/// A plugin version `major.minor.release.build`, ordered
/// lexicographically with `major` the most significant part.
#[derive(Clone, Copy, Debug, PartialEq, Eq, Structural, Ord)]
pub struct Version {
    /// Major version number
    pub major: usize,
    /// Minor version number
    pub minor: usize,
    /// Release version number
    pub release: usize,
    /// Build version number
    pub build: usize,
}

/// Compares two parts of a version.
pub open spec fn part_order(a: usize, b: usize) -> Ordering {
    if a < b {
        Ordering::Less
    } else if a > b {
        Ordering::Greater
    } else {
        Ordering::Equal
    }
}

/// The order of two versions: the first part in which they differ decides.
pub open spec fn version_order(a: Version, b: Version) -> Ordering {
    if a.major != b.major {
        part_order(a.major, b.major)
    } else if a.minor != b.minor {
        part_order(a.minor, b.minor)
    } else if a.release != b.release {
        part_order(a.release, b.release)
    } else {
        part_order(a.build, b.build)
    }
}

/// `a` is an older version than `b`.
pub open spec fn version_lt(a: Version, b: Version) -> bool {
    version_order(a, b) == Ordering::Less
}

impl Version {
    /// Compares two versions part by part, major first.
    pub fn compare(&self, other: &Version) -> (r: Ordering)
        ensures
            r == version_order(*self, *other),
    {
        if self.major > other.major {
            return Ordering::Greater;
        }
        if self.major < other.major {
            return Ordering::Less;
        }
        if self.minor > other.minor {
            return Ordering::Greater;
        }
        if self.minor < other.minor {
            return Ordering::Less;
        }
        if self.release > other.release {
            return Ordering::Greater;
        }
        if self.release < other.release {
            return Ordering::Less;
        }
        if self.build > other.build {
            return Ordering::Greater;
        }
        if self.build < other.build {
            return Ordering::Less;
        }
        Ordering::Equal
    }
}

impl PartialOrd for Version {
    fn partial_cmp(&self, other: &Version) -> (r: Option<Ordering>) {
        Some(self.compare(other))
    }
}

impl vstd::std_specs::cmp::PartialOrdSpecImpl for Version {
    open spec fn obeys_partial_cmp_spec() -> bool {
        true
    }

    open spec fn partial_cmp_spec(&self, other: &Version) -> Option<Ordering> {
        Some(version_order(*self, *other))
    }
}

impl Default for Version {
    fn default() -> (r: Version)
        ensures
            r == (Version { major: 0, minor: 0, release: 0, build: 0 }),
    {
        Version { major: 0, minor: 0, release: 0, build: 0 }
    }
}

/// Versions are ordered strictly and transitively: if `a` is older than
/// `b` and `b` older than `c`, then `a` is older than `c`.
pub proof fn lemma_version_lt_transitive(a: Version, b: Version, c: Version)
    requires
        version_lt(a, b),
        version_lt(b, c),
    ensures
        version_lt(a, c),
{
}

/// Of any two versions exactly one of "older", "equal" and "newer" holds,
/// and `a` is newer than `b` exactly when `b` is older than `a`.
pub proof fn lemma_version_trichotomy(a: Version, b: Version)
    ensures
        version_lt(a, b) || a == b || version_lt(b, a),
        !(version_lt(a, b) && a == b),
        !(version_lt(b, a) && a == b),
        !(version_lt(a, b) && version_lt(b, a)),
        version_order(a, b) == Ordering::Equal <==> a == b,
        version_order(a, b) == Ordering::Greater <==> version_lt(b, a),
{
}

} // verus!
