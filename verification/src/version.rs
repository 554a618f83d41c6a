//! The shared version value: an immutable (major, minor, patch) triple
//! with a total order given lexicographically by its fields.

use vstd::prelude::*;

verus! {

use core::cmp::Ordering;

/// A decoded library version.
///
/// Equality is field-wise; the order is lexicographic by
/// (major, minor, patch).
#[derive(Clone, Copy, Debug, PartialEq, Eq, Structural, Ord)]
pub struct Version {
    pub major: u32,
    pub minor: u32,
    pub patch: u32,
}

/// Lexicographic strict order on (major, minor, patch).
pub open spec fn version_lt(a: Version, b: Version) -> bool {
    ||| a.major < b.major
    ||| (a.major == b.major && a.minor < b.minor)
    ||| (a.major == b.major && a.minor == b.minor && a.patch < b.patch)
}

/// What comparing two versions yields.
pub open spec fn version_cmp(a: Version, b: Version) -> Ordering {
    if a.major < b.major {
        Ordering::Less
    } else if a.major > b.major {
        Ordering::Greater
    } else if a.minor < b.minor {
        Ordering::Less
    } else if a.minor > b.minor {
        Ordering::Greater
    } else if a.patch < b.patch {
        Ordering::Less
    } else if a.patch > b.patch {
        Ordering::Greater
    } else {
        Ordering::Equal
    }
}

impl PartialOrd for Version {
    fn partial_cmp(&self, other: &Version) -> (r: Option<Ordering>) {
        if self.major < other.major {
            Some(Ordering::Less)
        } else if self.major > other.major {
            Some(Ordering::Greater)
        } else if self.minor < other.minor {
            Some(Ordering::Less)
        } else if self.minor > other.minor {
            Some(Ordering::Greater)
        } else if self.patch < other.patch {
            Some(Ordering::Less)
        } else if self.patch > other.patch {
            Some(Ordering::Greater)
        } else {
            Some(Ordering::Equal)
        }
    }
}

impl vstd::std_specs::cmp::PartialOrdSpecImpl for Version {
    open spec fn obeys_partial_cmp_spec() -> bool {
        true
    }

    open spec fn partial_cmp_spec(&self, other: &Version) -> Option<Ordering> {
        Some(version_cmp(*self, *other))
    }
}

/// Comparison agrees with the lexicographic field-wise order:
/// `Less` means strictly below, `Equal` means the fields coincide,
/// `Greater` means strictly above.
pub proof fn lemma_version_cmp_is_lexicographic(a: Version, b: Version)
    ensures
        version_cmp(a, b) == Ordering::Less <==> version_lt(a, b),
        version_cmp(a, b) == Ordering::Equal <==> a == b,
        version_cmp(a, b) == Ordering::Greater <==> version_lt(b, a),
{
}

/// The order is total: any two versions compare, exactly one way.
pub proof fn lemma_version_order_total(a: Version, b: Version)
    ensures
        version_lt(a, b) || version_lt(b, a) || a == b,
        version_lt(a, b) ==> !version_lt(b, a) && a != b,
        a == b ==> !version_lt(a, b),
{
}

/// The order is transitive.
pub proof fn lemma_version_order_transitive(a: Version, b: Version, c: Version)
    requires
        version_lt(a, b),
        version_lt(b, c),
    ensures
        version_lt(a, c),
{
}

} // verus!
