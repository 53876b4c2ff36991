//! Per-file security hotspots: vulnerabilities grouped by file, with their
//! count, accumulated risk and highest severity, ranked by risk.

use crate::severity::{hotspot_weight, hotspot_weight_spec, SecuritySeverity};
use crate::trace::{SecurityVulnerability, VulnerabilityLocation};
use vstd::prelude::*;

verus! {

/// A file that accumulates vulnerabilities: where the first of them was
/// seen, the highest severity among them, how many there are and the sum of
/// their weights.
#[derive(Clone, Debug)]
pub struct SecurityHotspot {
    pub location: VulnerabilityLocation,
    pub severity: SecuritySeverity,
    pub vulnerability_count: usize,
    pub risk_score: u64,
    pub description: String,
}

impl SecurityHotspot {
    /// A field-for-field copy.
    pub fn duplicate(&self) -> (r: Self)
        ensures
            r == *self,
    {
        SecurityHotspot {
            location: self.location.duplicate(),
            severity: self.severity,
            vulnerability_count: self.vulnerability_count,
            risk_score: self.risk_score,
            description: self.description.clone(),
        }
    }
}

/// `v` counts towards hotspots at threshold `min`.
pub open spec fn qualifies(v: SecurityVulnerability, min: SecuritySeverity) -> bool {
    v.severity.rank() >= min.rank()
}

/// The files that have a qualifying vulnerability, each once, in the order
/// in which they are first seen.
pub open spec fn hotspot_files(vs: Seq<SecurityVulnerability>, min: SecuritySeverity) -> Seq<Seq<char>>
    decreases vs.len(),
{
    if vs.len() == 0 {
        seq![]
    } else {
        let rest = hotspot_files(vs.drop_last(), min);
        let v = vs.last();
        if qualifies(v, min) && !rest.contains(v.location.file@) {
            rest.push(v.location.file@)
        } else {
            rest
        }
    }
}

/// `v` qualifies and sits in file `f`.
pub open spec fn counts_for(v: SecurityVulnerability, min: SecuritySeverity, f: Seq<char>) -> bool {
    qualifies(v, min) && v.location.file@ == f
}

/// Number of qualifying vulnerabilities in file `f`.
pub open spec fn file_count(vs: Seq<SecurityVulnerability>, min: SecuritySeverity, f: Seq<char>) -> nat
    decreases vs.len(),
{
    if vs.len() == 0 {
        0
    } else {
        file_count(vs.drop_last(), min, f) + if counts_for(vs.last(), min, f) {
            1nat
        } else {
            0nat
        }
    }
}

/// Sum of the severity weights of the qualifying vulnerabilities in file `f`.
pub open spec fn file_risk(vs: Seq<SecurityVulnerability>, min: SecuritySeverity, f: Seq<char>) -> nat
    decreases vs.len(),
{
    if vs.len() == 0 {
        0
    } else {
        file_risk(vs.drop_last(), min, f) + if counts_for(vs.last(), min, f) {
            hotspot_weight_spec(vs.last().severity)
        } else {
            0nat
        }
    }
}

/// Highest severity among the qualifying vulnerabilities in file `f`
/// (`Info` where there are none).
pub open spec fn file_severity(
    vs: Seq<SecurityVulnerability>,
    min: SecuritySeverity,
    f: Seq<char>,
) -> SecuritySeverity
    decreases vs.len(),
{
    if vs.len() == 0 {
        SecuritySeverity::Info
    } else {
        let s = file_severity(vs.drop_last(), min, f);
        if counts_for(vs.last(), min, f) && vs.last().severity.rank() > s.rank() {
            vs.last().severity
        } else {
            s
        }
    }
}

/// Location of the first qualifying vulnerability in file `f`.
pub open spec fn first_location(
    vs: Seq<SecurityVulnerability>,
    min: SecuritySeverity,
    f: Seq<char>,
) -> VulnerabilityLocation
    decreases vs.len(),
{
    if vs.len() == 0 {
        vstd::pervasive::arbitrary()
    } else if file_count(vs.drop_last(), min, f) > 0 {
        first_location(vs.drop_last(), min, f)
    } else {
        vs.last().location
    }
}

/// Description given to every hotspot.
pub open spec fn hotspot_description() -> Seq<char> {
    "Security hotspot with multiple vulnerabilities"@
}

/// `h` is the hotspot of file `f`.
pub open spec fn is_hotspot_of(
    vs: Seq<SecurityVulnerability>,
    min: SecuritySeverity,
    f: Seq<char>,
    h: SecurityHotspot,
) -> bool {
    &&& h.location.file@ == f
    &&& h.location == first_location(vs, min, f)
    &&& h.vulnerability_count == file_count(vs, min, f)
    &&& h.risk_score == file_risk(vs, min, f)
    &&& h.severity == file_severity(vs, min, f)
    &&& h.description@ == hotspot_description()
}

/// A file with no qualifying vulnerability has no count, risk or severity.
pub proof fn lemma_absent_file(vs: Seq<SecurityVulnerability>, min: SecuritySeverity, f: Seq<char>)
    requires
        !hotspot_files(vs, min).contains(f),
    ensures
        file_count(vs, min, f) == 0,
        file_risk(vs, min, f) == 0,
        file_severity(vs, min, f) == SecuritySeverity::Info,
    decreases vs.len(),
{
    if vs.len() > 0 {
        let rest = hotspot_files(vs.drop_last(), min);
        let all = hotspot_files(vs, min);
        let v = vs.last();
        if rest.contains(f) {
            let k = choose|k: int| 0 <= k < rest.len() && rest[k] == f;
            assert(all[k] == f);
        }
        if counts_for(v, min, f) {
            assert(all == rest.push(f));
            assert(all[rest.len() as int] == f);
        }
        lemma_absent_file(vs.drop_last(), min, f);
    }
}

/// The files of [`hotspot_files`] are pairwise distinct.
pub proof fn lemma_files_distinct(vs: Seq<SecurityVulnerability>, min: SecuritySeverity)
    ensures
        forall|a: int, b: int|
            0 <= a < b < hotspot_files(vs, min).len() ==> hotspot_files(vs, min)[a]
                != hotspot_files(vs, min)[b],
    decreases vs.len(),
{
    if vs.len() > 0 {
        lemma_files_distinct(vs.drop_last(), min);
        let rest = hotspot_files(vs.drop_last(), min);
        let v = vs.last();
        if qualifies(v, min) && !rest.contains(v.location.file@) {
            let fs = hotspot_files(vs, min);
            assert forall|a: int, b: int| 0 <= a < b < fs.len() implies fs[a] != fs[b] by {
                if b == rest.len() {
                    assert(rest[a] == fs[a]);
                }
            }
        }
    }
}

/// `groups` holds, in first-seen order, the hotspot of every file of
/// [`hotspot_files`].
pub open spec fn grouped(vs: Seq<SecurityVulnerability>, min: SecuritySeverity, groups: Seq<SecurityHotspot>) -> bool {
    &&& groups.len() == hotspot_files(vs, min).len()
    &&& forall|j: int|
        0 <= j < groups.len() ==> is_hotspot_of(vs, min, #[trigger] hotspot_files(vs, min)[j], groups[j])
}

/// A file of [`hotspot_files`] has at least one qualifying vulnerability.
pub proof fn lemma_present_file(vs: Seq<SecurityVulnerability>, min: SecuritySeverity, f: Seq<char>)
    requires
        hotspot_files(vs, min).contains(f),
    ensures
        file_count(vs, min, f) > 0,
        first_location(vs, min, f).file@ == f,
    decreases vs.len(),
{
    let rest = hotspot_files(vs.drop_last(), min);
    if rest.contains(f) {
        lemma_present_file(vs.drop_last(), min, f);
    } else {
        let all = hotspot_files(vs, min);
        let k = choose|k: int| 0 <= k < all.len() && all[k] == f;
        if !(qualifies(vs.last(), min) && !rest.contains(vs.last().location.file@)) {
            assert(rest[k] == f);
        }
        lemma_absent_file(vs.drop_last(), min, f);
    }
}

/// Groups the qualifying vulnerabilities by file, in first-seen order.
fn group_by_file(vulns: &Vec<SecurityVulnerability>, min: SecuritySeverity) -> (r: Vec<SecurityHotspot>)
    requires
        vulns@.len() * 10 <= u64::MAX,
    ensures
        grouped(vulns@, min, r@),
        forall|j: int| 0 <= j < r@.len() ==> r@[j].risk_score <= 10 * vulns@.len(),
{
    let mut groups: Vec<SecurityHotspot> = Vec::new();
    let mut i: usize = 0;
    while i < vulns.len()
        invariant
            i <= vulns@.len(),
            vulns@.len() * 10 <= u64::MAX,
            grouped(vulns@.take(i as int), min, groups@),
            forall|j: int| 0 <= j < groups@.len() ==> groups@[j].risk_score <= 10 * i,
            forall|j: int| 0 <= j < groups@.len() ==> groups@[j].vulnerability_count <= i,
        decreases vulns@.len() - i,
    {
        let ghost p = vulns@.take(i as int);
        let ghost q = vulns@.take(i + 1);
        let ghost files = hotspot_files(p, min);
        assert(q.drop_last() =~= p);
        assert(q.last() == vulns@[i as int]);
        let v = &vulns[i];
        if v.severity.at_least(&min) {
            let mut j: usize = 0;
            let mut found = false;
            while j < groups.len() && !found
                invariant
                    j <= groups@.len(),
                    grouped(p, min, groups@),
                    found ==> j < groups@.len() && groups@[j as int].location.file@
                        == v.location.file@,
                    forall|k: int| 0 <= k < j ==> groups@[k].location.file@ != v.location.file@,
                decreases groups@.len() - j + (if found { 0int } else { 1int }),
            {
                if groups[j].location.file == v.location.file {
                    found = true;
                } else {
                    j += 1;
                }
            }
            let w = hotspot_weight(v.severity);
            if found {
                let ghost f = files[j as int];
                proof {
                    assert(is_hotspot_of(p, min, files[j as int], groups@[j as int]));
                    assert(f == v.location.file@);
                    assert(files.contains(f));
                    lemma_present_file(p, min, f);
                    assert(hotspot_files(q, min) == files);
                }
                let old = &groups[j];
                let severity = if v.severity.level() > old.severity.level() {
                    v.severity
                } else {
                    old.severity
                };
                let updated = SecurityHotspot {
                    location: old.location.duplicate(),
                    severity,
                    vulnerability_count: old.vulnerability_count + 1,
                    risk_score: old.risk_score + w,
                    description: old.description.clone(),
                };
                let ghost before = groups@;
                groups.set(j, updated);
                proof {
                    assert forall|k: int| 0 <= k < groups@.len() implies is_hotspot_of(
                        q,
                        min,
                        #[trigger] hotspot_files(q, min)[k],
                        groups@[k],
                    ) by {
                        assert(files.contains(files[k]));
                        lemma_present_file(p, min, files[k]);
                        if k != j {
                            assert(is_hotspot_of(p, min, files[k], before[k]));
                            lemma_files_distinct(p, min);
                            assert(files[k] != f);
                        }
                    }
                }
            } else {
                let ghost f = v.location.file@;
                proof {
                    assert forall|k: int| 0 <= k < files.len() implies files[k] != f by {
                        assert(is_hotspot_of(p, min, files[k], groups@[k]));
                    }
                    lemma_absent_file(p, min, f);
                    assert(hotspot_files(q, min) == files.push(f));
                }
                let ghost before = groups@;
                groups.push(
                    SecurityHotspot {
                        location: v.location.duplicate(),
                        severity: v.severity,
                        vulnerability_count: 1,
                        risk_score: w,
                        description: String::from_str("Security hotspot with multiple vulnerabilities"),
                    },
                );
                proof {
                    assert forall|k: int| 0 <= k < groups@.len() implies is_hotspot_of(
                        q,
                        min,
                        #[trigger] hotspot_files(q, min)[k],
                        groups@[k],
                    ) by {
                        if k < before.len() {
                            assert(files.contains(files[k]));
                            lemma_present_file(p, min, files[k]);
                            assert(is_hotspot_of(p, min, files[k], before[k]));
                            assert(files[k] != f);
                        } else {
                            assert(hotspot_files(q, min)[k] == f);
                        }
                    }
                }
            }
        } else {
            proof {
                assert(hotspot_files(q, min) == files);
                assert forall|k: int| 0 <= k < groups@.len() implies is_hotspot_of(
                    q,
                    min,
                    #[trigger] hotspot_files(q, min)[k],
                    groups@[k],
                ) by {
                    assert(files.contains(files[k]));
                    lemma_present_file(p, min, files[k]);
                    assert(is_hotspot_of(p, min, files[k], groups@[k]));
                }
            }
        }
        i += 1;
    }
    assert(vulns@.take(vulns@.len() as int) =~= vulns@);
    groups
}

/// First position of `out` whose risk is below `risk`, or its length.
fn insertion_point(out: &Vec<SecurityHotspot>, risk: u64) -> (p: usize)
    ensures
        p <= out@.len(),
        forall|a: int| 0 <= a < p ==> out@[a].risk_score >= risk,
        p < out@.len() ==> out@[p as int].risk_score < risk,
{
    let mut p: usize = 0;
    while p < out.len() && out[p].risk_score >= risk
        invariant
            p <= out@.len(),
            forall|a: int| 0 <= a < p ==> out@[a].risk_score >= risk,
        decreases out@.len() - p,
    {
        p += 1;
    }
    p
}

/// `r` holds the elements of `groups` ordered by descending risk; among
/// equal risks the earlier group comes first.
fn rank_by_risk(groups: &Vec<SecurityHotspot>) -> (r: (Vec<SecurityHotspot>, Ghost<Seq<int>>))
    requires
        forall|a: int, b: int|
            0 <= a < b < groups@.len() ==> groups@[a].location.file@ != groups@[b].location.file@,
    ensures
        r.0@.len() == groups@.len(),
        r.1@.len() == groups@.len(),
        forall|a: int|
            0 <= a < r.0@.len() ==> 0 <= #[trigger] r.1@[a] < groups@.len() && r.0@[a] == groups@[r.1@[a]],
        forall|a: int, b: int| 0 <= a < b < r.0@.len() ==> r.0@[a].location.file@ != r.0@[b].location.file@,
        forall|a: int, b: int| 0 <= a < b < r.0@.len() ==> r.0@[a].risk_score >= r.0@[b].risk_score,
{
    let mut out: Vec<SecurityHotspot> = Vec::new();
    let ghost mut sel: Seq<int> = seq![];
    let mut i: usize = 0;
    while i < groups.len()
        invariant
            i <= groups@.len(),
            out@.len() == i,
            sel.len() == i,
            forall|a: int, b: int|
                0 <= a < b < groups@.len() ==> groups@[a].location.file@ != groups@[b].location.file@,
            forall|a: int| 0 <= a < i ==> 0 <= #[trigger] sel[a] < i && out@[a] == groups@[sel[a]],
            forall|a: int, b: int| 0 <= a < b < out@.len() ==> out@[a].location.file@ != out@[b].location.file@,
            forall|a: int, b: int| 0 <= a < b < out@.len() ==> out@[a].risk_score >= out@[b].risk_score,
        decreases groups@.len() - i,
    {
        let g = groups[i].duplicate();
        let p = insertion_point(&out, g.risk_score);
        let ghost before = out@;
        let ghost old_sel = sel;
        proof {
            assert forall|a: int| 0 <= a < before.len() implies before[a].location.file@
                != g.location.file@ by {
                assert(before[a] == groups@[old_sel[a]]);
                assert(old_sel[a] != i);
            }
            sel = old_sel.insert(p as int, i as int);
        }
        out.insert(p, g);
        proof {
            assert forall|a: int| 0 <= a < i + 1 implies 0 <= #[trigger] sel[a] < i + 1 && out@[a]
                == groups@[sel[a]] by {
                if a < p {
                    assert(out@[a] == before[a] && sel[a] == old_sel[a]);
                } else if a == p {
                    assert(out@[a] == groups@[i as int]);
                } else {
                    assert(out@[a] == before[a - 1] && sel[a] == old_sel[a - 1]);
                }
            }
            assert forall|a: int, b: int| 0 <= a < b < out@.len() implies out@[a].location.file@
                != out@[b].location.file@ by {
                if a != p && b != p {
                    let a0 = if a < p { a } else { a - 1 };
                    let b0 = if b < p { b } else { b - 1 };
                    assert(out@[a] == before[a0] && out@[b] == before[b0]);
                } else if a == p {
                    assert(out@[b] == before[b - 1]);
                } else {
                    assert(out@[a] == before[a]);
                }
            }
            assert forall|a: int, b: int| 0 <= a < b < out@.len() implies out@[a].risk_score
                >= out@[b].risk_score by {
                if a != p && b != p {
                    let a0 = if a < p { a } else { a - 1 };
                    let b0 = if b < p { b } else { b - 1 };
                    assert(out@[a] == before[a0] && out@[b] == before[b0]);
                } else if a == p {
                    assert(out@[b] == before[b - 1]);
                    if p < before.len() {
                        assert(before[p as int].risk_score < g.risk_score);
                    }
                } else {
                    assert(out@[a] == before[a]);
                }
            }
        }
        i += 1;
    }
    (out, Ghost(sel))
}

/// The hotspots of `vulns` at threshold `min`: one per file with at least
/// one vulnerability of severity `min` or above, ordered by descending risk.
pub fn identify_security_hotspots(vulns: &Vec<SecurityVulnerability>, min: SecuritySeverity) -> (r: Vec<SecurityHotspot>)
    requires
        vulns@.len() * 10 <= u64::MAX,
    ensures
        r@.len() == hotspot_files(vulns@, min).len(),
        forall|a: int|
            0 <= a < r@.len() ==> hotspot_files(vulns@, min).contains(r@[a].location.file@)
                && is_hotspot_of(vulns@, min, r@[a].location.file@, r@[a]),
        forall|a: int, b: int| 0 <= a < b < r@.len() ==> r@[a].location.file@ != r@[b].location.file@,
        forall|a: int, b: int| 0 <= a < b < r@.len() ==> r@[a].risk_score >= r@[b].risk_score,
{
    let groups = group_by_file(vulns, min);
    proof {
        lemma_files_distinct(vulns@, min);
        assert forall|a: int, b: int| 0 <= a < b < groups@.len() implies groups@[a].location.file@
            != groups@[b].location.file@ by {
            assert(is_hotspot_of(vulns@, min, hotspot_files(vulns@, min)[a], groups@[a]));
            assert(is_hotspot_of(vulns@, min, hotspot_files(vulns@, min)[b], groups@[b]));
        }
    }
    let (r, Ghost(sel)) = rank_by_risk(&groups);
    proof {
        assert forall|a: int| 0 <= a < r@.len() implies hotspot_files(vulns@, min).contains(
            r@[a].location.file@,
        ) && is_hotspot_of(vulns@, min, r@[a].location.file@, r@[a]) by {
            let k = sel[a];
            assert(r@[a] == groups@[k]);
            assert(is_hotspot_of(vulns@, min, hotspot_files(vulns@, min)[k], groups@[k]));
        }
    }
    r
}

} // verus!
