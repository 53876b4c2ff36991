//! Configuration of a documentation site and the decisions taken per site:
//! which security engines run, how many pages are written, and how each
//! file is rated for search filters.

use crate::generator::SecurityWikiConfig;
use crate::hotspot::SecurityHotspot;
use crate::severity::SecuritySeverity;
use crate::symbols::{function_names, function_symbols, FileInfo};
use vstd::prelude::*;

verus! {

/// Configuration of a documentation site.
#[derive(Clone, Debug)]
pub struct WikiConfig {
    pub site_title: String,
    pub output_dir: String,
    pub include_api_docs: bool,
    pub include_examples: bool,
    pub ai_enabled: bool,
    pub ai_use_mock: bool,
    pub ai_config_path: Option<String>,
    pub enhanced_ai_enabled: bool,
    pub function_enhancement_enabled: bool,
    pub security_insights_enabled: bool,
    pub refactoring_hints_enabled: bool,
    pub diagram_annotations_enabled: bool,
    pub performance_analysis_enabled: bool,
    pub ai_provider: Option<String>,
}

/// Why a configuration cannot be built.
#[derive(Clone, Copy, Debug, PartialEq, Eq, Structural)]
pub enum WikiError {
    /// No output directory was given.
    MissingOutputDir,
}

/// Builder of a [`WikiConfig`]; the output directory must be set.
#[derive(Clone, Debug)]
pub struct WikiConfigBuilder {
    pub site_title: Option<String>,
    pub output_dir: Option<String>,
    pub include_api_docs: bool,
    pub include_examples: bool,
    pub ai_enabled: bool,
    pub ai_use_mock: bool,
    pub ai_config_path: Option<String>,
    pub enhanced_ai_enabled: bool,
    pub function_enhancement_enabled: bool,
    pub security_insights_enabled: bool,
    pub refactoring_hints_enabled: bool,
    pub diagram_annotations_enabled: bool,
    pub performance_analysis_enabled: bool,
    pub ai_provider: Option<String>,
}

/// `o` holds a string with the characters `s`.
pub open spec fn holds_text(o: Option<String>, s: Seq<char>) -> bool {
    o is Some && o->0@ == s
}

/// Title of a site whose builder was given none.
pub open spec fn default_title() -> Seq<char> {
    "Code Wiki"@
}

impl WikiConfig {
    /// A builder with nothing set.
    pub fn builder() -> (r: WikiConfigBuilder)
        ensures
            r.is_empty(),
    {
        WikiConfigBuilder::new()
    }
}

impl WikiConfigBuilder {
    /// Nothing is set: no title, no output directory, every switch off.
    pub open spec fn is_empty(&self) -> bool {
        &&& self.site_title is None
        &&& self.output_dir is None
        &&& !self.include_api_docs
        &&& !self.include_examples
        &&& !self.ai_enabled
        &&& !self.ai_use_mock
        &&& self.ai_config_path is None
        &&& !self.enhanced_ai_enabled
        &&& !self.function_enhancement_enabled
        &&& !self.security_insights_enabled
        &&& !self.refactoring_hints_enabled
        &&& !self.diagram_annotations_enabled
        &&& !self.performance_analysis_enabled
        &&& self.ai_provider is None
    }

    /// A builder with nothing set.
    pub fn new() -> (r: Self)
        ensures
            r.is_empty(),
    {
        WikiConfigBuilder {
            site_title: None,
            output_dir: None,
            include_api_docs: false,
            include_examples: false,
            ai_enabled: false,
            ai_use_mock: false,
            ai_config_path: None,
            enhanced_ai_enabled: false,
            function_enhancement_enabled: false,
            security_insights_enabled: false,
            refactoring_hints_enabled: false,
            diagram_annotations_enabled: false,
            performance_analysis_enabled: false,
            ai_provider: None,
        }
    }

    /// Sets the site title.
    pub fn with_site_title(self, title: &str) -> (r: Self)
        ensures
            holds_text(r.site_title, title@),
            r == (WikiConfigBuilder { site_title: r.site_title, ..self }),
    {
        WikiConfigBuilder { site_title: Some(String::from_str(title)), ..self }
    }

    /// Sets the output directory.
    pub fn with_output_dir(self, out: &str) -> (r: Self)
        ensures
            holds_text(r.output_dir, out@),
            r == (WikiConfigBuilder { output_dir: r.output_dir, ..self }),
    {
        WikiConfigBuilder { output_dir: Some(String::from_str(out)), ..self }
    }

    /// Includes per-file symbol listings, or not.
    pub fn include_api_docs(self, yes: bool) -> (r: Self)
        ensures
            r == (WikiConfigBuilder { include_api_docs: yes, ..self }),
    {
        WikiConfigBuilder { include_api_docs: yes, ..self }
    }

    /// Includes example snippets, or not.
    pub fn include_examples(self, yes: bool) -> (r: Self)
        ensures
            r == (WikiConfigBuilder { include_examples: yes, ..self }),
    {
        WikiConfigBuilder { include_examples: yes, ..self }
    }

    /// Enables generated documentation insights, or not.
    pub fn with_ai_enabled(self, yes: bool) -> (r: Self)
        ensures
            r == (WikiConfigBuilder { ai_enabled: yes, ..self }),
    {
        WikiConfigBuilder { ai_enabled: yes, ..self }
    }

    /// Uses offline mock providers for insights, or not.
    pub fn with_ai_mock(self, yes: bool) -> (r: Self)
        ensures
            r == (WikiConfigBuilder { ai_use_mock: yes, ..self }),
    {
        WikiConfigBuilder { ai_use_mock: yes, ..self }
    }

    /// Sets the path of the insights configuration file.
    pub fn with_ai_config_path(self, p: &str) -> (r: Self)
        ensures
            holds_text(r.ai_config_path, p@),
            r == (WikiConfigBuilder { ai_config_path: r.ai_config_path, ..self }),
    {
        WikiConfigBuilder { ai_config_path: Some(String::from_str(p)), ..self }
    }

    /// Enables enhanced insights, or not.
    pub fn with_enhanced_ai(self, yes: bool) -> (r: Self)
        ensures
            r == (WikiConfigBuilder { enhanced_ai_enabled: yes, ..self }),
    {
        WikiConfigBuilder { enhanced_ai_enabled: yes, ..self }
    }

    /// Enables rich function documentation, or not.
    pub fn with_function_enhancement(self, yes: bool) -> (r: Self)
        ensures
            r == (WikiConfigBuilder { function_enhancement_enabled: yes, ..self }),
    {
        WikiConfigBuilder { function_enhancement_enabled: yes, ..self }
    }

    /// Enables the security engines, or not.
    pub fn with_security_insights(self, yes: bool) -> (r: Self)
        ensures
            r == (WikiConfigBuilder { security_insights_enabled: yes, ..self }),
    {
        WikiConfigBuilder { security_insights_enabled: yes, ..self }
    }

    /// Enables refactoring suggestions, or not.
    pub fn with_refactoring_hints(self, yes: bool) -> (r: Self)
        ensures
            r == (WikiConfigBuilder { refactoring_hints_enabled: yes, ..self }),
    {
        WikiConfigBuilder { refactoring_hints_enabled: yes, ..self }
    }

    /// Enables diagram annotations (trace propagation diagrams), or not.
    pub fn with_diagram_annotations(self, yes: bool) -> (r: Self)
        ensures
            r == (WikiConfigBuilder { diagram_annotations_enabled: yes, ..self }),
    {
        WikiConfigBuilder { diagram_annotations_enabled: yes, ..self }
    }

    /// Sets the insights provider.
    pub fn with_ai_provider(self, provider: &str) -> (r: Self)
        ensures
            holds_text(r.ai_provider, provider@),
            r == (WikiConfigBuilder { ai_provider: r.ai_provider, ..self }),
    {
        WikiConfigBuilder { ai_provider: Some(String::from_str(provider)), ..self }
    }

    /// Enables performance analysis, or not.
    pub fn with_performance_analysis(self, yes: bool) -> (r: Self)
        ensures
            r == (WikiConfigBuilder { performance_analysis_enabled: yes, ..self }),
    {
        WikiConfigBuilder { performance_analysis_enabled: yes, ..self }
    }

    /// The configuration: fails exactly where no output directory was set;
    /// the title defaults to "Code Wiki"; everything else is carried over.
    pub fn build(self) -> (r: Result<WikiConfig, WikiError>)
        ensures
            self.output_dir is None <==> r is Err,
            r matches Err(e) ==> e == WikiError::MissingOutputDir,
            r matches Ok(c) ==> {
                &&& (match self.site_title {
                    Some(t) => c.site_title == t,
                    None => c.site_title@ == default_title(),
                })
                &&& c.output_dir == self.output_dir->0
                &&& c.include_api_docs == self.include_api_docs
                &&& c.include_examples == self.include_examples
                &&& c.ai_enabled == self.ai_enabled
                &&& c.ai_use_mock == self.ai_use_mock
                &&& c.ai_config_path == self.ai_config_path
                &&& c.enhanced_ai_enabled == self.enhanced_ai_enabled
                &&& c.function_enhancement_enabled == self.function_enhancement_enabled
                &&& c.security_insights_enabled == self.security_insights_enabled
                &&& c.refactoring_hints_enabled == self.refactoring_hints_enabled
                &&& c.diagram_annotations_enabled == self.diagram_annotations_enabled
                &&& c.performance_analysis_enabled == self.performance_analysis_enabled
                &&& c.ai_provider == self.ai_provider
            },
    {
        let output_dir = match self.output_dir {
            Some(d) => d,
            None => {
                return Err(WikiError::MissingOutputDir);
            },
        };
        let site_title = match self.site_title {
            Some(t) => t,
            None => String::from_str("Code Wiki"),
        };
        Ok(
            WikiConfig {
                site_title,
                output_dir,
                include_api_docs: self.include_api_docs,
                include_examples: self.include_examples,
                ai_enabled: self.ai_enabled,
                ai_use_mock: self.ai_use_mock,
                ai_config_path: self.ai_config_path,
                enhanced_ai_enabled: self.enhanced_ai_enabled,
                function_enhancement_enabled: self.function_enhancement_enabled,
                security_insights_enabled: self.security_insights_enabled,
                refactoring_hints_enabled: self.refactoring_hints_enabled,
                diagram_annotations_enabled: self.diagram_annotations_enabled,
                performance_analysis_enabled: self.performance_analysis_enabled,
                ai_provider: self.ai_provider,
            },
        )
    }
}

impl Default for WikiConfigBuilder {
    fn default() -> (r: Self)
        ensures
            r.is_empty(),
    {
        WikiConfigBuilder::new()
    }
}

/// What generating a site produced.
#[derive(Clone, Copy, Debug, PartialEq, Eq, Structural)]
pub struct WikiGenerationResult {
    /// Number of pages written.
    pub pages: usize,
}

/// Security rating of a file, for search filters.
#[derive(Clone, Copy, Debug, PartialEq, Eq, Structural)]
pub enum SecurityLevel {
    Low,
    Medium,
    High,
    Critical,
}

/// Rating of a file with hotspots `hs`: low without any, else by the
/// highest severity among them, medium below `High`.
pub open spec fn level_spec(hs: Seq<SecurityHotspot>) -> SecurityLevel {
    if hs.len() == 0 {
        SecurityLevel::Low
    } else if exists|i: int| 0 <= i < hs.len() && (#[trigger] hs[i]).severity == SecuritySeverity::Critical {
        SecurityLevel::Critical
    } else if exists|i: int| 0 <= i < hs.len() && (#[trigger] hs[i]).severity == SecuritySeverity::High {
        SecurityLevel::High
    } else {
        SecurityLevel::Medium
    }
}

impl SecurityLevel {
    /// Rates a file by its hotspots (see [`level_spec`]).
    pub fn of_hotspots(hotspots: &Vec<SecurityHotspot>) -> (r: SecurityLevel)
        ensures
            r == level_spec(hotspots@),
    {
        if hotspots.len() == 0 {
            return SecurityLevel::Low;
        }
        let mut critical = false;
        let mut high = false;
        let mut i: usize = 0;
        while i < hotspots.len()
            invariant
                i <= hotspots@.len(),
                critical <==> exists|k: int| 0 <= k < i && (#[trigger] hotspots@[k]).severity
                    == SecuritySeverity::Critical,
                high <==> exists|k: int| 0 <= k < i && (#[trigger] hotspots@[k]).severity
                    == SecuritySeverity::High,
            decreases hotspots@.len() - i,
        {
            if hotspots[i].severity == SecuritySeverity::Critical {
                critical = true;
            }
            if hotspots[i].severity == SecuritySeverity::High {
                high = true;
            }
            i += 1;
        }
        if critical {
            SecurityLevel::Critical
        } else if high {
            SecurityLevel::High
        } else {
            SecurityLevel::Medium
        }
    }

    /// The rating's name in search filters.
    pub fn label(&self) -> (r: String)
        ensures
            r@ == match self {
                SecurityLevel::Low => "low"@,
                SecurityLevel::Medium => "medium"@,
                SecurityLevel::High => "high"@,
                SecurityLevel::Critical => "critical"@,
            },
    {
        match self {
            SecurityLevel::Low => String::from_str("low"),
            SecurityLevel::Medium => String::from_str("medium"),
            SecurityLevel::High => String::from_str("high"),
            SecurityLevel::Critical => String::from_str("critical"),
        }
    }
}

/// Generator of a documentation site.
#[derive(Clone, Debug)]
pub struct WikiGenerator {
    pub config: WikiConfig,
}

/// Files of `files` that have at least one function.
pub open spec fn files_with_functions(files: Seq<FileInfo>) -> nat
    decreases files.len(),
{
    if files.len() == 0 {
        0
    } else {
        files_with_functions(files.drop_last()) + if function_names(files.last().symbols@).len() > 0 {
            1nat
        } else {
            0nat
        }
    }
}

/// The hotspots of `hs` in file `path`, in order.
pub open spec fn hotspots_in(hs: Seq<SecurityHotspot>, path: Seq<char>) -> Seq<SecurityHotspot>
    decreases hs.len(),
{
    if hs.len() == 0 {
        seq![]
    } else {
        let rest = hotspots_in(hs.drop_last(), path);
        if hs.last().location.file@ == path {
            rest.push(hs.last())
        } else {
            rest
        }
    }
}

/// The hotspots of `hotspots` in file `path`, in order.
pub fn hotspots_for_file(hotspots: &Vec<SecurityHotspot>, path: &String) -> (r: Vec<SecurityHotspot>)
    ensures
        r@ == hotspots_in(hotspots@, path@),
{
    let mut r: Vec<SecurityHotspot> = Vec::new();
    let mut i: usize = 0;
    while i < hotspots.len()
        invariant
            i <= hotspots@.len(),
            r@ == hotspots_in(hotspots@.take(i as int), path@),
        decreases hotspots@.len() - i,
    {
        assert(hotspots@.take(i + 1).drop_last() =~= hotspots@.take(i as int));
        if hotspots[i].location.file == *path {
            r.push(hotspots[i].duplicate());
        }
        i += 1;
    }
    assert(hotspots@.take(hotspots@.len() as int) =~= hotspots@);
    r
}

impl WikiGenerator {
    /// A generator for a configuration.
    pub fn new(config: WikiConfig) -> (r: Self)
        ensures
            r.config == config,
    {
        WikiGenerator { config }
    }

    /// The security engines a site runs: all of them, propagation diagrams
    /// only with diagram annotations, hotspots from severity `Medium`. `None`
    /// where security insights are off.
    pub fn security_config(&self) -> (r: Option<SecurityWikiConfig>)
        ensures
            !self.config.security_insights_enabled ==> r is None,
            self.config.security_insights_enabled ==> r == Some(
                SecurityWikiConfig {
                    enable_trace_analysis: true,
                    enable_propagation_diagrams: self.config.diagram_annotations_enabled,
                    enable_owasp_recommendations: true,
                    enable_hotspot_visualization: true,
                    min_hotspot_severity: SecuritySeverity::Medium,
                },
            ),
    {
        if self.config.security_insights_enabled {
            Some(
                SecurityWikiConfig {
                    enable_trace_analysis: true,
                    enable_propagation_diagrams: self.config.diagram_annotations_enabled,
                    enable_owasp_recommendations: true,
                    enable_hotspot_visualization: true,
                    min_hotspot_severity: SecuritySeverity::Medium,
                },
            )
        } else {
            None
        }
    }

    /// Pages of a site over `files`: the index and the symbol index, a page
    /// per file and a usage page per file with functions, and the security
    /// overview and hotspot pages where security insights are on.
    pub fn page_count(&self, files: &Vec<FileInfo>) -> (r: WikiGenerationResult)
        requires
            files@.len() * 2 + 4 <= usize::MAX,
        ensures
            r.pages == 2 + files@.len() + files_with_functions(files@) + if self.config.security_insights_enabled {
                2nat
            } else {
                0nat
            },
    {
        let mut pages: usize = 2;
        if self.config.security_insights_enabled {
            pages = pages + 2;
        }
        let ghost base = pages;
        let mut i: usize = 0;
        while i < files.len()
            invariant
                i <= files@.len(),
                files@.len() * 2 + 4 <= usize::MAX,
                base <= 4,
                files_with_functions(files@.take(i as int)) <= i,
                pages == base + i + files_with_functions(files@.take(i as int)),
            decreases files@.len() - i,
        {
            assert(files@.take(i + 1).drop_last() =~= files@.take(i as int));
            let funcs = function_symbols(&files[i].symbols);
            assert(funcs@.map_values(|s: String| s@).len() == funcs@.len());
            pages = pages + 1;
            if funcs.len() > 0 {
                pages = pages + 1;
            }
            i += 1;
        }
        assert(files@.take(files@.len() as int) =~= files@);
        WikiGenerationResult { pages }
    }
}

} // verus!
