use vstd::prelude::*;

verus! {

/// A semantic version triple, totally ordered field-wise: major first,
/// then minor, then patch.
#[derive(Clone, Copy, Debug, PartialEq, Eq, Structural)]
pub struct Version {
    pub major: u64,
    pub minor: u64,
    pub patch: u64,
}

impl Version {
    pub fn new(major: u64, minor: u64, patch: u64) -> (v: Version)
        ensures
            v == (Version { major, minor, patch }),
    {
        Version { major, minor, patch }
    }

    /// Field-wise strict order: major decides first, then minor, then patch.
    pub open spec fn spec_newer_than(self, other: Version) -> bool {
        ||| self.major > other.major
        ||| (self.major == other.major && self.minor > other.minor)
        ||| (self.major == other.major && self.minor == other.minor && self.patch
            > other.patch)
    }

    /// Strictly-newer test, field by field.
    pub fn is_newer_than(&self, other: &Version) -> (r: bool)
        ensures
            r == self.spec_newer_than(*other),
    {
        if self.major != other.major {
            self.major > other.major
        } else if self.minor != other.minor {
            self.minor > other.minor
        } else {
            self.patch > other.patch
        }
    }
}

/// The numeric triple that a semantic version string denotes, or `None`
/// where the string is not a semantic version.
pub uninterp spec fn parsed_version(s: Seq<char>) -> Option<Version>;

/// Relies on `semver::Version::parse`: reads a semantic version string and
/// hands out its numeric triple; the result depends on the string alone.
#[verifier::external_body]
pub(crate) fn parse_version(s: &str) -> (r: Option<Version>)
    ensures
        r == parsed_version(s@),
{
    match semver::Version::parse(s) {
        Ok(v) => Some(Version { major: v.major, minor: v.minor, patch: v.patch }),
        Err(_) => None,
    }
}

/// The field-wise order is a strict total order: irreflexive, transitive,
/// asymmetric, and any two versions are related one way or equal.
pub proof fn lemma_version_order_strict_total(a: Version, b: Version, c: Version)
    ensures
        !a.spec_newer_than(a),
        a.spec_newer_than(b) && b.spec_newer_than(c) ==> a.spec_newer_than(c),
        a.spec_newer_than(b) || b.spec_newer_than(a) || a == b,
        !(a.spec_newer_than(b) && b.spec_newer_than(a)),
{
}

} // verus!
