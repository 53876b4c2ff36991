//! The severity scale shared by the trace and hotspot engines, and the
//! OWASP category taxonomy.

use std::cmp::Ordering;
use vstd::prelude::*;

verus! {

/// Severity of a finding, totally ordered `Info < Low < Medium < High < Critical`.
#[derive(Clone, Copy, Debug, PartialEq, Eq, Structural, Hash)]
pub enum SecuritySeverity {
    Info,
    Low,
    Medium,
    High,
    Critical,
}

/// How two ranks compare.
pub open spec fn ordering_of(a: nat, b: nat) -> Ordering {
    if a < b {
        Ordering::Less
    } else if a == b {
        Ordering::Equal
    } else {
        Ordering::Greater
    }
}

impl SecuritySeverity {
    /// Position on the scale, from 0 (`Info`) to 4 (`Critical`).
    pub open spec fn rank(self) -> nat {
        match self {
            SecuritySeverity::Info => 0,
            SecuritySeverity::Low => 1,
            SecuritySeverity::Medium => 2,
            SecuritySeverity::High => 3,
            SecuritySeverity::Critical => 4,
        }
    }

    /// Position on the scale (see [`SecuritySeverity::rank`]).
    pub fn level(&self) -> (r: u8)
        ensures
            r as nat == self.rank(),
    {
        match self {
            SecuritySeverity::Info => 0,
            SecuritySeverity::Low => 1,
            SecuritySeverity::Medium => 2,
            SecuritySeverity::High => 3,
            SecuritySeverity::Critical => 4,
        }
    }

    /// Total order of the scale.
    pub fn compare(&self, other: &Self) -> (r: Ordering)
        ensures
            r == ordering_of(self.rank(), other.rank()),
    {
        let a = self.level();
        let b = other.level();
        if a < b {
            Ordering::Less
        } else if a == b {
            Ordering::Equal
        } else {
            Ordering::Greater
        }
    }

    /// `self` is at or above `other` on the scale.
    pub fn at_least(&self, other: &Self) -> (r: bool)
        ensures
            r == (self.rank() >= other.rank()),
    {
        self.level() >= other.level()
    }
}

impl PartialOrd for SecuritySeverity {
    fn partial_cmp(&self, other: &Self) -> (r: Option<Ordering>) {
        Some(self.compare(other))
    }
}

impl vstd::std_specs::cmp::PartialOrdSpecImpl for SecuritySeverity {
    open spec fn obeys_partial_cmp_spec() -> bool {
        true
    }

    open spec fn partial_cmp_spec(&self, other: &Self) -> Option<Ordering> {
        Some(ordering_of(self.rank(), other.rank()))
    }
}

/// Weight of a severity when hotspot risk is accumulated. `Critical` weighs
/// 10 here, while the impact chain of a trace starts `Critical` at 9
/// (see [`impact_base_spec`]); the two tables are kept apart on purpose.
pub open spec fn hotspot_weight_spec(s: SecuritySeverity) -> nat {
    match s {
        SecuritySeverity::Info => 1,
        SecuritySeverity::Low => 3,
        SecuritySeverity::Medium => 5,
        SecuritySeverity::High => 7,
        SecuritySeverity::Critical => 10,
    }
}

/// Weight of a severity in hotspot risk (see [`hotspot_weight_spec`]).
pub fn hotspot_weight(s: SecuritySeverity) -> (r: u64)
    ensures
        r as nat == hotspot_weight_spec(s),
{
    match s {
        SecuritySeverity::Info => 1,
        SecuritySeverity::Low => 3,
        SecuritySeverity::Medium => 5,
        SecuritySeverity::High => 7,
        SecuritySeverity::Critical => 10,
    }
}

/// Initial impact score, in whole points, of a vulnerability of severity `s`.
pub open spec fn impact_base_spec(s: SecuritySeverity) -> nat {
    match s {
        SecuritySeverity::Info => 1,
        SecuritySeverity::Low => 3,
        SecuritySeverity::Medium => 5,
        SecuritySeverity::High => 7,
        SecuritySeverity::Critical => 9,
    }
}

/// Initial impact score of a severity (see [`impact_base_spec`]).
pub fn impact_base(s: SecuritySeverity) -> (r: u64)
    ensures
        r as nat == impact_base_spec(s),
{
    match s {
        SecuritySeverity::Info => 1,
        SecuritySeverity::Low => 3,
        SecuritySeverity::Medium => 5,
        SecuritySeverity::High => 7,
        SecuritySeverity::Critical => 9,
    }
}

/// OWASP Top 10 (2021) category of a vulnerability.
#[derive(Clone, Copy, Debug, PartialEq, Eq, Structural, Hash)]
pub enum OwaspCategory {
    BrokenAccessControl,
    CryptographicFailures,
    Injection,
    InsecureDesign,
    SecurityMisconfiguration,
    VulnerableComponents,
    IdentificationFailures,
    IntegrityFailures,
    LoggingFailures,
    ServerSideRequestForgery,
}

} // verus!
