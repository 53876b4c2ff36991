//! The security side of a documentation site: traces, hotspots and OWASP
//! recommendations, each behind its own switch.

use crate::hotspot::{hotspot_files, identify_security_hotspots, is_hotspot_of, SecurityHotspot};
use crate::owasp::{analyze_file_owasp_categories, category_recommendations, get_category_recommendations, suggested};
use crate::severity::SecuritySeverity;
use crate::text::{lower_of, views};
use crate::trace::{identify_security_traces, is_trace_of, traced, SecurityImpact, SecurityCallSite, SecurityTrace, SecurityVulnerability};
use vstd::prelude::*;

verus! {

/// Which security engines run, and the threshold for hotspots.
#[derive(Clone, Copy, Debug, PartialEq, Eq, Structural)]
pub struct SecurityWikiConfig {
    pub enable_trace_analysis: bool,
    pub enable_propagation_diagrams: bool,
    pub enable_owasp_recommendations: bool,
    pub enable_hotspot_visualization: bool,
    pub min_hotspot_severity: SecuritySeverity,
}

impl Default for SecurityWikiConfig {
    /// Every engine on, hotspots from severity `Medium`.
    fn default() -> (r: Self)
        ensures
            r == (SecurityWikiConfig {
                enable_trace_analysis: true,
                enable_propagation_diagrams: true,
                enable_owasp_recommendations: true,
                enable_hotspot_visualization: true,
                min_hotspot_severity: SecuritySeverity::Medium,
            }),
    {
        SecurityWikiConfig {
            enable_trace_analysis: true,
            enable_propagation_diagrams: true,
            enable_owasp_recommendations: true,
            enable_hotspot_visualization: true,
            min_hotspot_severity: SecuritySeverity::Medium,
        }
    }
}

/// Traces and hotspots of a set of vulnerabilities.
#[derive(Clone, Debug)]
pub struct SecurityAnalysisResult {
    pub security_traces: Vec<SecurityTrace>,
    pub security_hotspots: Vec<SecurityHotspot>,
}

/// Security analysis for a documentation site.
#[derive(Clone, Debug)]
pub struct SecurityWikiGenerator {
    pub config: SecurityWikiConfig,
}

/// Opening of the recommendations block.
pub open spec fn block_head() -> Seq<char> {
    "<div class=\"card\"><h3>OWASP Security Recommendations</h3>\n<ul>\n"@
}

/// Closing of the recommendations block.
pub open spec fn block_tail() -> Seq<char> {
    "</ul></div>\n"@
}

/// List item of one recommendation of a category.
pub open spec fn item_line(category: Seq<char>, rec: Seq<char>) -> Seq<char> {
    "<li><strong>"@ + category + ":</strong> "@ + rec + "</li>\n"@
}

/// List items of the recommendations `recs` of a category.
pub open spec fn category_lines(category: Seq<char>, recs: Seq<Seq<char>>) -> Seq<char>
    decreases recs.len(),
{
    if recs.len() == 0 {
        seq![]
    } else {
        category_lines(category, recs.drop_last()) + item_line(category, recs.last())
    }
}

/// List items of the recommendations of every category of `cats`.
pub open spec fn recommendation_lines(cats: Seq<Seq<char>>) -> Seq<char>
    decreases cats.len(),
{
    if cats.len() == 0 {
        seq![]
    } else {
        recommendation_lines(cats.drop_last()) + category_lines(
            cats.last(),
            category_recommendations(cats.last()),
        )
    }
}

/// The recommendations block for categories `cats`; empty without any.
pub open spec fn recommendations_block(cats: Seq<Seq<char>>) -> Seq<char> {
    if cats.len() == 0 {
        seq![]
    } else {
        block_head() + recommendation_lines(cats) + block_tail()
    }
}

/// Colour of a hotspot in the hotspot diagram.
#[derive(Clone, Copy, Debug, PartialEq, Eq, Structural)]
pub enum HotspotColor {
    Red,
    Orange,
    Yellow,
    Green,
}

/// Colour of a hotspot of severity `s`: red, orange and yellow for
/// `Critical`, `High` and `Medium`, green below.
pub open spec fn color_spec(s: SecuritySeverity) -> HotspotColor {
    match s {
        SecuritySeverity::Critical => HotspotColor::Red,
        SecuritySeverity::High => HotspotColor::Orange,
        SecuritySeverity::Medium => HotspotColor::Yellow,
        _ => HotspotColor::Green,
    }
}

impl HotspotColor {
    /// Colour of a hotspot of severity `s` (see [`color_spec`]).
    pub fn of_severity(s: SecuritySeverity) -> (r: HotspotColor)
        ensures
            r == color_spec(s),
    {
        match s {
            SecuritySeverity::Critical => HotspotColor::Red,
            SecuritySeverity::High => HotspotColor::Orange,
            SecuritySeverity::Medium => HotspotColor::Yellow,
            _ => HotspotColor::Green,
        }
    }

    /// The colour's name in diagrams.
    pub fn name(&self) -> (r: String)
        ensures
            r@ == match self {
                HotspotColor::Red => "red"@,
                HotspotColor::Orange => "orange"@,
                HotspotColor::Yellow => "yellow"@,
                HotspotColor::Green => "green"@,
            },
    {
        match self {
            HotspotColor::Red => String::from_str("red"),
            HotspotColor::Orange => String::from_str("orange"),
            HotspotColor::Yellow => String::from_str("yellow"),
            HotspotColor::Green => String::from_str("green"),
        }
    }
}

/// One call site of a trace diagram, with the impact that follows it where
/// the impact chain has one.
#[derive(Clone, Debug)]
pub struct TraceStep {
    pub function_name: String,
    pub next_impact_milli: Option<u64>,
}

/// A trace as a diagram: its title, the impact of the vulnerability itself,
/// then each call site of its path.
#[derive(Clone, Debug)]
pub struct TraceDiagram {
    pub title: String,
    pub first_impact_milli: u64,
    pub steps: Vec<TraceStep>,
}

/// `d` is the diagram of a trace with title `title`, path `path` and impact
/// chain `chain`: call site `i` is followed by impact `i + 1`, where there
/// is one.
pub open spec fn is_diagram_of(
    title: Seq<char>,
    path: Seq<SecurityCallSite>,
    chain: Seq<SecurityImpact>,
    d: TraceDiagram,
) -> bool {
    &&& d.title@ == title
    &&& d.first_impact_milli == chain[0].score_milli
    &&& d.steps@.len() == path.len()
    &&& forall|i: int|
        0 <= i < path.len() ==> {
            &&& (#[trigger] d.steps@[i]).function_name@ == path[i].function_name@
            &&& d.steps@[i].next_impact_milli == if i + 1 < chain.len() {
                Some(chain[i + 1].score_milli)
            } else {
                None
            }
        }
}

impl SecurityWikiGenerator {
    /// A generator with the given configuration.
    pub fn new_with_config(config: SecurityWikiConfig) -> (r: Self)
        ensures
            r.config == config,
    {
        SecurityWikiGenerator { config }
    }

    /// A generator with the default configuration.
    pub fn new() -> (r: Self)
        ensures
            r.config.enable_trace_analysis,
            r.config.enable_propagation_diagrams,
            r.config.enable_owasp_recommendations,
            r.config.enable_hotspot_visualization,
            r.config.min_hotspot_severity == SecuritySeverity::Medium,
    {
        Self::new_with_config(SecurityWikiConfig::default())
    }

    /// Traces, where trace analysis is on, and hotspots at the configured
    /// threshold, where hotspot visualization is on; each is empty where its
    /// engine is off.
    pub fn analyze_security(&self, vulns: &Vec<SecurityVulnerability>) -> (r: SecurityAnalysisResult)
        requires
            vulns@.len() * 10 <= u64::MAX,
        ensures
            !self.config.enable_trace_analysis ==> r.security_traces@.len() == 0,
            self.config.enable_trace_analysis ==> {
                &&& r.security_traces@.len() == traced(vulns@).len()
                &&& forall|k: int|
                    0 <= k < r.security_traces@.len() ==> is_trace_of(
                        #[trigger] traced(vulns@)[k],
                        r.security_traces@[k],
                    )
            },
            !self.config.enable_hotspot_visualization ==> r.security_hotspots@.len() == 0,
            self.config.enable_hotspot_visualization ==> {
                let min = self.config.min_hotspot_severity;
                let h = r.security_hotspots@;
                &&& h.len() == hotspot_files(vulns@, min).len()
                &&& forall|a: int|
                    0 <= a < h.len() ==> hotspot_files(vulns@, min).contains(h[a].location.file@)
                        && is_hotspot_of(vulns@, min, h[a].location.file@, h[a])
                &&& forall|a: int, b: int| 0 <= a < b < h.len() ==> h[a].location.file@ != h[b].location.file@
                &&& forall|a: int, b: int| 0 <= a < b < h.len() ==> h[a].risk_score >= h[b].risk_score
            },
    {
        let security_traces = if self.config.enable_trace_analysis {
            identify_security_traces(vulns)
        } else {
            Vec::new()
        };
        let security_hotspots = if self.config.enable_hotspot_visualization {
            identify_security_hotspots(vulns, self.config.min_hotspot_severity)
        } else {
            Vec::new()
        };
        SecurityAnalysisResult { security_traces, security_hotspots }
    }

    /// The OWASP recommendations block of a file with text `content`: for
    /// each category its words suggest, each recommendation as a list item.
    /// Empty where no category is suggested or recommendations are off.
    pub fn generate_owasp_recommendations(&self, content: &str) -> (r: String)
        ensures
            !self.config.enable_owasp_recommendations ==> r@.len() == 0,
            self.config.enable_owasp_recommendations ==> r@ == recommendations_block(
                suggested(lower_of(content@), 5),
            ),
    {
        if !self.config.enable_owasp_recommendations {
            return String::new();
        }
        let cats = analyze_file_owasp_categories(content);
        let ghost cs = views(cats@);
        if cats.len() == 0 {
            return String::new();
        }
        let mut html = String::from_str("<div class=\"card\"><h3>OWASP Security Recommendations</h3>\n<ul>\n");
        let mut i: usize = 0;
        while i < cats.len()
            invariant
                i <= cats@.len(),
                cs == views(cats@),
                html@ == block_head() + recommendation_lines(cs.take(i as int)),
            decreases cats@.len() - i,
        {
            let recs = get_category_recommendations(cats[i].as_str());
            let ghost rs = views(recs@);
            let ghost cat = cats@[i as int]@;
            let ghost start = html@;
            let mut j: usize = 0;
            while j < recs.len()
                invariant
                    j <= recs@.len(),
                    rs == views(recs@),
                    html@ == start + category_lines(cat, rs.take(j as int)),
                    cat == cats@[i as int]@,
                    i < cats@.len(),
                decreases recs@.len() - j,
            {
                assert(rs.take(j + 1).drop_last() =~= rs.take(j as int));
                html.append("<li><strong>");
                html.append(cats[i].as_str());
                html.append(":</strong> ");
                html.append(recs[j].as_str());
                html.append("</li>\n");
                assert(html@ =~= start + category_lines(cat, rs.take(j + 1)));
                j += 1;
            }
            assert(rs.take(recs@.len() as int) =~= rs);
            assert(cs.take(i + 1).drop_last() =~= cs.take(i as int));
            assert(cs[i as int] == cat);
            assert(html@ =~= block_head() + recommendation_lines(cs.take(i + 1)));
            i += 1;
        }
        assert(cs.take(cats@.len() as int) =~= cs);
        html.append("</ul></div>\n");
        html
    }

    /// The diagram of a trace; `None` where its impact chain is empty.
    pub fn trace_diagram(&self, trace: &SecurityTrace) -> (r: Option<TraceDiagram>)
        ensures
            trace.impact_chain@.len() == 0 <==> r is None,
            r matches Some(d) ==> is_diagram_of(
                trace.source.title@,
                trace.propagation_path@,
                trace.impact_chain@,
                d,
            ),
    {
        let chain = &trace.impact_chain;
        if chain.len() == 0 {
            return None;
        }
        let path = &trace.propagation_path;
        let mut steps: Vec<TraceStep> = Vec::new();
        let mut i: usize = 0;
        while i < path.len()
            invariant
                chain@.len() > 0,
                i <= path@.len(),
                steps@.len() == i,
                forall|k: int|
                    0 <= k < i ==> {
                        &&& (#[trigger] steps@[k]).function_name@ == path@[k].function_name@
                        &&& steps@[k].next_impact_milli == if k + 1 < chain@.len() {
                            Some(chain@[k + 1].score_milli)
                        } else {
                            None
                        }
                    },
            decreases path@.len() - i,
        {
            let next = if i < chain.len() - 1 {
                Some(chain[i + 1].score_milli)
            } else {
                None
            };
            steps.push(TraceStep { function_name: path[i].function_name.clone(), next_impact_milli: next });
            i += 1;
        }
        Some(
            TraceDiagram {
                title: trace.source.title.clone(),
                first_impact_milli: chain[0].score_milli,
                steps,
            },
        )
    }
}

} // verus!
