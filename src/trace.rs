//! Security traces: how a vulnerability is modelled to propagate, what its
//! impact is at each step, and what mitigates it.

use crate::severity::{impact_base, impact_base_spec, OwaspCategory, SecuritySeverity};
use crate::text::{contains, contains_seq, lower_of, to_lower, views};
use vstd::prelude::*;

verus! {

/// Where a vulnerability, or a call site on its path, sits in the source.
#[derive(Clone, Debug)]
pub struct VulnerabilityLocation {
    pub file: String,
    pub function: Option<String>,
    pub start_line: usize,
    pub end_line: usize,
    pub column: usize,
}

impl VulnerabilityLocation {
    /// A field-for-field copy.
    pub fn duplicate(&self) -> (r: Self)
        ensures
            r == *self,
    {
        let function = match &self.function {
            Some(f) => Some(f.clone()),
            None => None,
        };
        VulnerabilityLocation {
            file: self.file.clone(),
            function,
            start_line: self.start_line,
            end_line: self.end_line,
            column: self.column,
        }
    }
}

/// A vulnerability as reported by a detector.
#[derive(Clone, Debug)]
pub struct SecurityVulnerability {
    pub id: String,
    pub title: String,
    pub severity: SecuritySeverity,
    pub owasp_category: OwaspCategory,
    pub location: VulnerabilityLocation,
}

/// Summary of the vulnerability a trace starts from.
#[derive(Clone, Debug)]
pub struct SecurityVulnerabilityInfo {
    pub id: String,
    pub title: String,
    pub severity: SecuritySeverity,
    pub owasp_category: OwaspCategory,
    pub location: VulnerabilityLocation,
}

/// Which side of a trust boundary a call site is on.
#[derive(Clone, Copy, Debug, PartialEq, Eq, Structural)]
pub enum TrustBoundary {
    External,
    Internal,
    Trusted,
}

/// Security-relevant facts about a call site.
#[derive(Clone, Copy, Debug, PartialEq, Eq, Structural)]
pub struct SecurityContext {
    pub has_user_input: bool,
    pub requires_auth: bool,
    pub is_sanitized: bool,
    pub trust_boundary: TrustBoundary,
}

/// One step of a propagation path.
#[derive(Clone, Debug)]
pub struct SecurityCallSite {
    pub function_name: String,
    pub location: VulnerabilityLocation,
    pub context: SecurityContext,
}

/// Impact on one of confidentiality, integrity or availability.
#[derive(Clone, Copy, Debug, PartialEq, Eq, Structural)]
pub enum ImpactLevel {
    NoImpact,
    Low,
    Medium,
    High,
    Critical,
}

/// Estimated impact at one point of a trace. `score_milli` is the score in
/// thousandths of a point (a score of 6.3 is 6300).
#[derive(Clone, Copy, Debug, PartialEq, Eq, Structural)]
pub struct SecurityImpact {
    pub confidentiality: ImpactLevel,
    pub integrity: ImpactLevel,
    pub availability: ImpactLevel,
    pub score_milli: u64,
}

/// Confidence in a finding.
#[derive(Clone, Copy, Debug, PartialEq, Eq, Structural)]
pub enum ConfidenceLevel {
    Low,
    Medium,
    High,
}

/// How a vulnerability is modelled to propagate, with its impact chain and
/// mitigations.
#[derive(Clone, Debug)]
pub struct SecurityTrace {
    pub id: String,
    pub source: SecurityVulnerabilityInfo,
    pub propagation_path: Vec<SecurityCallSite>,
    pub impact_chain: Vec<SecurityImpact>,
    pub confidence: ConfidenceLevel,
    pub mitigations: Vec<String>,
}

/// Only vulnerabilities of severity `Medium` or above are traced.
pub open spec fn is_traced(s: SecuritySeverity) -> bool {
    s.rank() >= 2
}

/// Context of the vulnerable function itself, from its lowercased name.
pub open spec fn entry_context(lower_name: Seq<char>) -> SecurityContext {
    SecurityContext {
        has_user_input: true,
        requires_auth: contains_seq(lower_name, "admin"@) || contains_seq(lower_name, "auth"@),
        is_sanitized: contains_seq(lower_name, "sanitize"@) || contains_seq(lower_name, "escape"@),
        trust_boundary: TrustBoundary::External,
    }
}

/// Context of the internal step that follows a handler.
pub open spec fn internal_context() -> SecurityContext {
    SecurityContext {
        has_user_input: false,
        requires_auth: false,
        is_sanitized: false,
        trust_boundary: TrustBoundary::Internal,
    }
}

/// `a + d`, or `usize::MAX` where that does not fit.
pub open spec fn line_after(a: usize, d: nat) -> usize {
    if a + d <= usize::MAX {
        (a + d) as usize
    } else {
        usize::MAX
    }
}

/// `path` is the propagation path of a vulnerability at `loc`: empty where
/// the enclosing function is unknown; else the function itself, followed,
/// where its lowercased name holds "handler", by a `process_data` step ten
/// lines below (its end fifteen lines below the vulnerability's end).
pub open spec fn is_propagation_path(loc: VulnerabilityLocation, path: Seq<SecurityCallSite>) -> bool {
    match loc.function {
        None => path.len() == 0,
        Some(f) => {
            let lower = lower_of(f@);
            &&& path.len() == (if contains_seq(lower, "handler"@) { 2int } else { 1int })
            &&& path[0].function_name@ == f@
            &&& path[0].location == loc
            &&& path[0].context == entry_context(lower)
            &&& path.len() == 2 ==> {
                let step = path[1];
                &&& step.function_name@ == "process_data"@
                &&& step.location.file == loc.file
                &&& step.location.function is Some
                &&& step.location.function->0@ == "process_data"@
                &&& step.location.start_line == line_after(loc.start_line, 10)
                &&& step.location.end_line == line_after(loc.end_line, 15)
                &&& step.location.column == 0
                &&& step.context == internal_context()
            }
        },
    }
}

/// Builds the propagation path of a vulnerability at `location`.
pub fn trace_propagation_path(location: &VulnerabilityLocation) -> (r: Vec<SecurityCallSite>)
    ensures
        is_propagation_path(*location, r@),
{
    let mut path: Vec<SecurityCallSite> = Vec::new();
    if let Some(function_name) = &location.function {
        let lower = to_lower(function_name.as_str());
        let context = SecurityContext {
            has_user_input: true,
            requires_auth: contains(lower.as_str(), "admin") || contains(lower.as_str(), "auth"),
            is_sanitized: contains(lower.as_str(), "sanitize") || contains(lower.as_str(), "escape"),
            trust_boundary: TrustBoundary::External,
        };
        path.push(
            SecurityCallSite {
                function_name: function_name.clone(),
                location: location.duplicate(),
                context,
            },
        );
        if contains(lower.as_str(), "handler") {
            path.push(
                SecurityCallSite {
                    function_name: String::from_str("process_data"),
                    location: VulnerabilityLocation {
                        file: location.file.clone(),
                        function: Some(String::from_str("process_data")),
                        start_line: location.start_line.saturating_add(10),
                        end_line: location.end_line.saturating_add(15),
                        column: 0,
                    },
                    context: SecurityContext {
                        has_user_input: false,
                        requires_auth: false,
                        is_sanitized: false,
                        trust_boundary: TrustBoundary::Internal,
                    },
                },
            );
        }
    }
    path
}

/// Score factor of step `i` of an impact chain, in thousandths: the initial
/// score decays by 0.7 per step, so 1000, 700, 490, 343.
pub open spec fn decay_per_mille(i: nat) -> nat
    decreases i,
{
    if i == 0 {
        1000
    } else {
        decay_per_mille((i - 1) as nat) * 7 / 10
    }
}

/// Confidentiality impact at the vulnerability itself.
pub open spec fn initial_confidentiality(s: SecuritySeverity) -> ImpactLevel {
    match s {
        SecuritySeverity::Critical => ImpactLevel::Critical,
        SecuritySeverity::High => ImpactLevel::High,
        SecuritySeverity::Medium => ImpactLevel::Medium,
        _ => ImpactLevel::Low,
    }
}

/// Confidentiality impact at each later step.
pub open spec fn propagated_confidentiality(s: SecuritySeverity) -> ImpactLevel {
    match s {
        SecuritySeverity::Critical => ImpactLevel::High,
        SecuritySeverity::High => ImpactLevel::Medium,
        _ => ImpactLevel::Low,
    }
}

/// Entry `i` of the impact chain of a vulnerability of severity `s`.
pub open spec fn impact_at(s: SecuritySeverity, i: nat) -> SecurityImpact {
    if i == 0 {
        SecurityImpact {
            confidentiality: initial_confidentiality(s),
            integrity: ImpactLevel::Medium,
            availability: ImpactLevel::Low,
            score_milli: (impact_base_spec(s) * 1000) as u64,
        }
    } else {
        SecurityImpact {
            confidentiality: propagated_confidentiality(s),
            integrity: ImpactLevel::Low,
            availability: ImpactLevel::Low,
            score_milli: (impact_base_spec(s) * decay_per_mille(i)) as u64,
        }
    }
}

/// The impact chain: the vulnerability itself, then three decaying steps,
/// whatever the length of the propagation path.
pub open spec fn impact_chain_spec(s: SecuritySeverity) -> Seq<SecurityImpact> {
    Seq::new(4, |i: int| impact_at(s, i as nat))
}

/// Computes the impact chain of a vulnerability of severity `severity`.
pub fn calculate_impact_chain(severity: SecuritySeverity) -> (r: Vec<SecurityImpact>)
    ensures
        r@ == impact_chain_spec(severity),
{
    let base = impact_base(severity);
    let mut impacts: Vec<SecurityImpact> = Vec::new();
    let confidentiality = match severity {
        SecuritySeverity::Critical => ImpactLevel::Critical,
        SecuritySeverity::High => ImpactLevel::High,
        SecuritySeverity::Medium => ImpactLevel::Medium,
        _ => ImpactLevel::Low,
    };
    impacts.push(
        SecurityImpact {
            confidentiality,
            integrity: ImpactLevel::Medium,
            availability: ImpactLevel::Low,
            score_milli: base * 1000,
        },
    );
    let later = match severity {
        SecuritySeverity::Critical => ImpactLevel::High,
        SecuritySeverity::High => ImpactLevel::Medium,
        _ => ImpactLevel::Low,
    };
    let mut factor: u64 = 1000;
    let mut i: u64 = 1;
    while i <= 3
        invariant
            1 <= i <= 4,
            base as nat == impact_base_spec(severity),
            base <= 9,
            factor as nat == decay_per_mille((i - 1) as nat),
            factor <= 1000,
            later == propagated_confidentiality(severity),
            impacts@ == Seq::new(i as nat, |k: int| impact_at(severity, k as nat)),
        decreases 4 - i,
    {
        factor = factor * 7 / 10;
        impacts.push(
            SecurityImpact {
                confidentiality: later,
                integrity: ImpactLevel::Low,
                availability: ImpactLevel::Low,
                score_milli: base * factor,
            },
        );
        assert(impacts@ =~= Seq::new((i + 1) as nat, |k: int| impact_at(severity, k as nat)));
        i += 1;
    }
    impacts
}

/// Mitigations specific to an OWASP category.
pub open spec fn category_mitigations(c: OwaspCategory) -> Seq<Seq<char>> {
    match c {
        OwaspCategory::Injection => seq![
            "Use parameterized queries or stored procedures"@,
            "Validate and sanitize all user inputs"@,
            "Use an ORM or query builder with built-in protection"@,
        ],
        OwaspCategory::BrokenAccessControl => seq![
            "Implement proper authorization checks"@,
            "Use role-based access control (RBAC)"@,
            "Follow principle of least privilege"@,
        ],
        OwaspCategory::CryptographicFailures => seq![
            "Use strong encryption algorithms (AES-256)"@,
            "Store encryption keys securely"@,
            "Implement key rotation policies"@,
        ],
        _ => seq!["Review and fix security weakness"@, "Follow secure coding best practices"@],
    }
}

/// Mitigations added for severity `High` and above, whatever the category.
pub open spec fn severe_mitigations(s: SecuritySeverity) -> Seq<Seq<char>> {
    if s.rank() >= 3 {
        seq!["Conduct thorough security testing"@, "Implement monitoring and alerting"@]
    } else {
        seq![]
    }
}

/// All mitigations recommended for a vulnerability.
pub open spec fn mitigations_spec(c: OwaspCategory, s: SecuritySeverity) -> Seq<Seq<char>> {
    category_mitigations(c) + severe_mitigations(s)
}

/// Mitigations for a vulnerability of category `category` and severity
/// `severity`.
pub fn generate_mitigations(category: OwaspCategory, severity: SecuritySeverity) -> (r: Vec<String>)
    ensures
        views(r@) == mitigations_spec(category, severity),
{
    let mut m: Vec<String> = Vec::new();
    match category {
        OwaspCategory::Injection => {
            m.push(String::from_str("Use parameterized queries or stored procedures"));
            m.push(String::from_str("Validate and sanitize all user inputs"));
            m.push(String::from_str("Use an ORM or query builder with built-in protection"));
        },
        OwaspCategory::BrokenAccessControl => {
            m.push(String::from_str("Implement proper authorization checks"));
            m.push(String::from_str("Use role-based access control (RBAC)"));
            m.push(String::from_str("Follow principle of least privilege"));
        },
        OwaspCategory::CryptographicFailures => {
            m.push(String::from_str("Use strong encryption algorithms (AES-256)"));
            m.push(String::from_str("Store encryption keys securely"));
            m.push(String::from_str("Implement key rotation policies"));
        },
        _ => {
            m.push(String::from_str("Review and fix security weakness"));
            m.push(String::from_str("Follow secure coding best practices"));
        },
    }
    if severity.at_least(&SecuritySeverity::High) {
        m.push(String::from_str("Conduct thorough security testing"));
        m.push(String::from_str("Implement monitoring and alerting"));
    }
    assert(views(m@) =~= mitigations_spec(category, severity));
    m
}

/// `t` is the trace of `v`.
pub open spec fn is_trace_of(v: SecurityVulnerability, t: SecurityTrace) -> bool {
    &&& t.id@ == "trace_"@ + v.id@
    &&& t.source.id == v.id
    &&& t.source.title == v.title
    &&& t.source.severity == v.severity
    &&& t.source.owasp_category == v.owasp_category
    &&& t.source.location == v.location
    &&& is_propagation_path(v.location, t.propagation_path@)
    &&& t.impact_chain@ == impact_chain_spec(v.severity)
    &&& t.confidence == ConfidenceLevel::Medium
    &&& views(t.mitigations@) == mitigations_spec(v.owasp_category, v.severity)
}

/// Traces a vulnerability: `None` below severity `Medium`, its trace from
/// `Medium` up.
pub fn build_trace(vuln: &SecurityVulnerability) -> (r: Option<SecurityTrace>)
    ensures
        r is Some <==> is_traced(vuln.severity),
        r matches Some(t) ==> is_trace_of(*vuln, t),
{
    if !vuln.severity.at_least(&SecuritySeverity::Medium) {
        return None;
    }
    let id = String::from_str("trace_").concat(vuln.id.as_str());
    let source = SecurityVulnerabilityInfo {
        id: vuln.id.clone(),
        title: vuln.title.clone(),
        severity: vuln.severity,
        owasp_category: vuln.owasp_category,
        location: vuln.location.duplicate(),
    };
    Some(
        SecurityTrace {
            id,
            source,
            propagation_path: trace_propagation_path(&vuln.location),
            impact_chain: calculate_impact_chain(vuln.severity),
            confidence: ConfidenceLevel::Medium,
            mitigations: generate_mitigations(vuln.owasp_category, vuln.severity),
        },
    )
}

/// The vulnerabilities of `vs` that are traced, in order.
pub open spec fn traced(vs: Seq<SecurityVulnerability>) -> Seq<SecurityVulnerability>
    decreases vs.len(),
{
    if vs.len() == 0 {
        seq![]
    } else {
        let rest = traced(vs.drop_last());
        if is_traced(vs.last().severity) {
            rest.push(vs.last())
        } else {
            rest
        }
    }
}

/// One trace for each vulnerability of severity `Medium` or above, in the
/// order of `vulns`.
pub fn identify_security_traces(vulns: &Vec<SecurityVulnerability>) -> (r: Vec<SecurityTrace>)
    ensures
        r@.len() == traced(vulns@).len(),
        forall|k: int| 0 <= k < r@.len() ==> is_trace_of(#[trigger] traced(vulns@)[k], r@[k]),
{
    let mut traces: Vec<SecurityTrace> = Vec::new();
    let mut i: usize = 0;
    while i < vulns.len()
        invariant
            i <= vulns@.len(),
            traces@.len() == traced(vulns@.take(i as int)).len(),
            forall|k: int|
                0 <= k < traces@.len() ==> is_trace_of(
                    #[trigger] traced(vulns@.take(i as int))[k],
                    traces@[k],
                ),
        decreases vulns@.len() - i,
    {
        let ghost before = traces@;
        let ghost prefix = traced(vulns@.take(i as int));
        assert(vulns@.take(i + 1).drop_last() =~= vulns@.take(i as int));
        assert(vulns@.take(i + 1).last() == vulns@[i as int]);
        match build_trace(&vulns[i]) {
            Some(t) => {
                traces.push(t);
                assert(traced(vulns@.take(i + 1)) == prefix.push(vulns@[i as int]));
                assert forall|k: int| 0 <= k < traces@.len() implies is_trace_of(
                    #[trigger] traced(vulns@.take(i + 1))[k],
                    traces@[k],
                ) by {
                    if k < before.len() {
                        assert(traced(vulns@.take(i + 1))[k] == prefix[k]);
                    }
                }
            },
            None => {
                assert(traced(vulns@.take(i + 1)) == prefix);
            },
        }
        i += 1;
    }
    assert(vulns@.take(vulns@.len() as int) =~= vulns@);
    traces
}

/// Every impact chain has four entries and strictly decreasing scores.
pub proof fn impact_chain_decreases(s: SecuritySeverity)
    ensures
        impact_chain_spec(s).len() == 4,
        forall|i: int, j: int|
            0 <= i < j < 4 ==> impact_chain_spec(s)[i].score_milli > impact_chain_spec(s)[j].score_milli,
{
    reveal_with_fuel(decay_per_mille, 4);
    assert(decay_per_mille(1) == 700);
    assert(decay_per_mille(2) == 490);
    assert(decay_per_mille(3) == 343);
    let b = impact_base_spec(s);
    assert(1 <= b <= 9);
    assert(b * 1000 > b * 700 && b * 700 > b * 490 && b * 490 > b * 343) by (nonlinear_arith)
        requires
            1 <= b <= 9,
    ;
    assert(b * 343 <= 9000) by (nonlinear_arith)
        requires
            1 <= b <= 9,
    ;
}

/// Every trace has an impact chain of four entries with strictly decreasing
/// scores, whatever the length of its propagation path.
pub proof fn trace_impacts_decrease(v: SecurityVulnerability, t: SecurityTrace)
    requires
        is_trace_of(v, t),
    ensures
        t.impact_chain@.len() == 4,
        forall|i: int, j: int|
            0 <= i < j < 4 ==> t.impact_chain@[i].score_milli > t.impact_chain@[j].score_milli,
{
    impact_chain_decreases(v.severity);
}

} // verus!
