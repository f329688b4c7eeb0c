//! Plugin versions and their ordering.

use std::cmp::Ordering;
use vstd::prelude::*;
use vstd::std_specs::cmp::PartialEqSpec;
use vstd::std_specs::cmp::PartialEqSpecImpl;
use vstd::std_specs::cmp::PartialOrdSpec;
use vstd::std_specs::cmp::PartialOrdSpecImpl;

verus! {

/// A plugin version, held as four numbers.
///
/// Versions are ordered by `major`, then `minor`, then `release`, then
/// `build`: in `1.2.3.4`, 1 is major, 2 is minor, 3 is release and 4 is
/// build.
#[derive(Copy, Clone, Debug, Eq, Ord)]
pub struct Version {
    /// Major version number
    pub major: usize,
    /// Minor version number
    pub minor: usize,
    /// Release version number
    pub release: usize,
    /// Build version number
    pub build: usize,
}

/// Three-way comparison of two numbers.
pub open spec fn compare_numbers(x: usize, y: usize) -> Ordering {
    if x < y {
        Ordering::Less
    } else if x > y {
        Ordering::Greater
    } else {
        Ordering::Equal
    }
}

/// The order of versions: lexicographic over major, minor, release, build.
pub open spec fn compare_versions(a: Version, b: Version) -> Ordering {
    if a.major != b.major {
        compare_numbers(a.major, b.major)
    } else if a.minor != b.minor {
        compare_numbers(a.minor, b.minor)
    } else if a.release != b.release {
        compare_numbers(a.release, b.release)
    } else {
        compare_numbers(a.build, b.build)
    }
}

/// `a` comes no later than `b` in the order of versions.
pub open spec fn version_le(a: Version, b: Version) -> bool {
    compare_versions(a, b) != Ordering::Greater
}

/// The version `0.0.0.0`.
pub open spec fn zero_version() -> Version {
    Version { major: 0, minor: 0, release: 0, build: 0 }
}

/// The ordering with `Less` and `Greater` swapped.
pub open spec fn reversed(o: Ordering) -> Ordering {
    match o {
        Ordering::Less => Ordering::Greater,
        Ordering::Equal => Ordering::Equal,
        Ordering::Greater => Ordering::Less,
    }
}

impl Version {
    /// Compares two versions: by major, then minor, then release, then
    /// build number.
    pub fn cmp(&self, other: &Self) -> (r: Ordering)
        ensures
            r == compare_versions(*self, *other),
    {
        if self.major > other.major {
            return Ordering::Greater;
        }
        if self.major < other.major {
            return Ordering::Less;
        }
        if self.minor > other.minor {
            return Ordering::Greater;
        }
        if self.minor < other.minor {
            return Ordering::Less;
        }
        if self.release > other.release {
            return Ordering::Greater;
        }
        if self.release < other.release {
            return Ordering::Less;
        }
        if self.build > other.build {
            return Ordering::Greater;
        }
        if self.build < other.build {
            return Ordering::Less;
        }
        Ordering::Equal
    }
}

impl PartialEq for Version {
    fn eq(&self, other: &Self) -> (r: bool) {
        match self.cmp(other) {
            Ordering::Equal => true,
            _ => false,
        }
    }
}

impl PartialEqSpecImpl for Version {
    open spec fn obeys_eq_spec() -> bool {
        true
    }

    open spec fn eq_spec(&self, other: &Self) -> bool {
        compare_versions(*self, *other) == Ordering::Equal
    }
}

impl PartialOrd for Version {
    fn partial_cmp(&self, other: &Self) -> (r: Option<Ordering>) {
        Some(self.cmp(other))
    }
}

impl PartialOrdSpecImpl for Version {
    open spec fn obeys_partial_cmp_spec() -> bool {
        true
    }

    open spec fn partial_cmp_spec(&self, other: &Self) -> Option<Ordering> {
        Some(compare_versions(*self, *other))
    }
}

impl Default for Version {
    fn default() -> (r: Version)
        ensures
            r == zero_version(),
    {
        Version { major: 0, minor: 0, release: 0, build: 0 }
    }
}

/// Versions are ordered by their numbers, most significant first: the
/// major numbers decide; where they agree, the minor numbers; then the
/// release numbers; then the build numbers.
pub proof fn lemma_order_by_numbers(a: Version, b: Version)
    ensures
        a.major < b.major ==> compare_versions(a, b) == Ordering::Less,
        a.major > b.major ==> compare_versions(a, b) == Ordering::Greater,
        a.major == b.major && a.minor < b.minor ==> compare_versions(a, b) == Ordering::Less,
        a.major == b.major && a.minor > b.minor ==> compare_versions(a, b) == Ordering::Greater,
        a.major == b.major && a.minor == b.minor && a.release < b.release ==> compare_versions(a, b)
            == Ordering::Less,
        a.major == b.major && a.minor == b.minor && a.release > b.release ==> compare_versions(a, b)
            == Ordering::Greater,
        a.major == b.major && a.minor == b.minor && a.release == b.release && a.build < b.build
            ==> compare_versions(a, b) == Ordering::Less,
        a.major == b.major && a.minor == b.minor && a.release == b.release && a.build > b.build
            ==> compare_versions(a, b) == Ordering::Greater,
        a.major == b.major && a.minor == b.minor && a.release == b.release && a.build == b.build
            ==> compare_versions(a, b) == Ordering::Equal,
{
}

/// Two versions compare `Equal` exactly when all four numbers agree.
pub proof fn lemma_equal_iff_same_numbers(a: Version, b: Version)
    ensures
        (compare_versions(a, b) == Ordering::Equal) <==> (a == b),
{
}

/// Swapping the operands of a comparison reverses its result.
pub proof fn lemma_compare_antisymmetric(a: Version, b: Version)
    ensures
        compare_versions(b, a) == reversed(compare_versions(a, b)),
{
}

/// The order of versions is transitive.
pub proof fn lemma_compare_transitive(a: Version, b: Version, c: Version)
    requires
        version_le(a, b),
        version_le(b, c),
    ensures
        version_le(a, c),
        compare_versions(a, b) == Ordering::Less || compare_versions(b, c) == Ordering::Less
            ==> compare_versions(a, c) == Ordering::Less,
{
}

/// Any two versions are comparable.
pub proof fn lemma_compare_total(a: Version, b: Version)
    ensures
        version_le(a, b) || version_le(b, a),
{
}

/// `==` on versions holds exactly when all four numbers agree, and it
/// agrees with `partial_cmp` reporting `Equal`; `partial_cmp` always
/// reports the order of versions.
pub proof fn lemma_eq_consistent_with_order(a: Version, b: Version)
    ensures
        PartialEqSpec::eq_spec(&a, &b) <==> (a == b),
        PartialEqSpec::eq_spec(&a, &b) <==> (
        PartialOrdSpec::partial_cmp_spec(&a, &b) == Some(
            Ordering::Equal,
        )),
        PartialOrdSpec::partial_cmp_spec(&a, &b) == Some(compare_versions(a, b)),
{
}

/// The default version, `0.0.0.0`, comes no later than any version.
pub proof fn lemma_default_is_least(v: Version)
    ensures
        version_le(zero_version(), v),
{
}

} // verus!
