//! The three revisions of the UPnP device architecture and their order.
use vstd::prelude::*;

verus! {

/// A revision of the UPnP device architecture.
#[derive(Clone, Copy, Debug, PartialEq, Eq, Structural, Hash)]
pub enum SpecVersion {
    V10,
    V11,
    V20,
}

impl SpecVersion {
    /// Position of the revision in the total order `V10 < V11 < V20`.
    pub open spec fn rank(self) -> nat {
        match self {
            SpecVersion::V10 => 0,
            SpecVersion::V11 => 1,
            SpecVersion::V20 => 2,
        }
    }

    /// `self >= other` in the revision order.
    pub fn at_least(self, other: SpecVersion) -> (r: bool)
        ensures
            r == (self.rank() >= other.rank()),
    {
        self.rank_exec() >= other.rank_exec()
    }

    /// `self < other` in the revision order.
    pub fn precedes(self, other: SpecVersion) -> (r: bool)
        ensures
            r == (self.rank() < other.rank()),
    {
        self.rank_exec() < other.rank_exec()
    }

    fn rank_exec(self) -> (r: u8)
        ensures
            r as nat == self.rank(),
    {
        match self {
            SpecVersion::V10 => 0,
            SpecVersion::V11 => 1,
            SpecVersion::V20 => 2,
        }
    }

    pub open spec fn spec_major(self) -> u8 {
        match self {
            SpecVersion::V20 => 2,
            _ => 1,
        }
    }

    pub open spec fn spec_minor(self) -> u8 {
        match self {
            SpecVersion::V11 => 1,
            _ => 0,
        }
    }

    /// The major number of the revision (`2` for 2.0).
    pub fn major(self) -> (r: u8)
        ensures
            r == self.spec_major(),
    {
        match self {
            SpecVersion::V20 => 2,
            _ => 1,
        }
    }

    /// The minor number of the revision (`1` for 1.1).
    pub fn minor(self) -> (r: u8)
        ensures
            r == self.spec_minor(),
    {
        match self {
            SpecVersion::V11 => 1,
            _ => 0,
        }
    }
}

impl Default for SpecVersion {
    fn default() -> (r: SpecVersion)
        ensures
            r == SpecVersion::V10,
    {
        SpecVersion::V10
    }
}

/// The revision named by a `major.minor` string: `"1.0"`, `"1.1"` or `"2.0"`.
pub open spec fn named_version(s: Seq<char>) -> Option<SpecVersion> {
    if s == seq!['1', '.', '0'] {
        Some(SpecVersion::V10)
    } else if s == seq!['1', '.', '1'] {
        Some(SpecVersion::V11)
    } else if s == seq!['2', '.', '0'] {
        Some(SpecVersion::V20)
    } else {
        None
    }
}

fn is_three(s: &str, a: char, b: char, c: char) -> (r: bool)
    ensures
        r == (s@ == seq![a, b, c]),
{
    if s.unicode_len() != 3 {
        return false;
    }
    let r = s.get_char(0) == a && s.get_char(1) == b && s.get_char(2) == c;
    proof {
        if r {
            assert(s@ =~= seq![a, b, c]);
        }
    }
    r
}

/// Reads a revision given as text; anything absent or unrecognised is the
/// default revision, 1.0.
pub fn parse_version(version: Option<&str>) -> (r: SpecVersion)
    ensures
        r == match version {
            Some(s) => match named_version(s@) {
                Some(v) => v,
                None => SpecVersion::V10,
            },
            None => SpecVersion::V10,
        },
{
    match version {
        Some(s) => {
            if is_three(s, '1', '.', '0') {
                SpecVersion::V10
            } else if is_three(s, '1', '.', '1') {
                SpecVersion::V11
            } else if is_three(s, '2', '.', '0') {
                SpecVersion::V20
            } else {
                SpecVersion::default()
            }
        },
        None => SpecVersion::default(),
    }
}

/// The revisions are totally ordered as `V10 < V11 < V20`, and the order that
/// `at_least` and `precedes` decide is reflexive, antisymmetric, transitive
/// and total.
pub proof fn lemma_version_order(a: SpecVersion, b: SpecVersion, c: SpecVersion)
    ensures
        SpecVersion::V10.rank() < SpecVersion::V11.rank(),
        SpecVersion::V11.rank() < SpecVersion::V20.rank(),
        a.rank() >= a.rank(),
        (a.rank() >= b.rank() && b.rank() >= a.rank()) ==> a == b,
        (a.rank() >= b.rank() && b.rank() >= c.rank()) ==> a.rank() >= c.rank(),
        a.rank() >= b.rank() || b.rank() >= a.rank(),
        (a.rank() < b.rank()) == !(a.rank() >= b.rank()),
{
}

} // verus!
