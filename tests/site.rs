use code_wiki::calls::find_call_sites;
use code_wiki::depgraph::{build_simple_dependency_graph, dependency_chain};
use code_wiki::hotspot::SecurityHotspot;
use code_wiki::severity::SecuritySeverity;
use code_wiki::site::{hotspots_for_file, SecurityLevel, WikiConfig, WikiConfigBuilder, WikiError, WikiGenerator};
use code_wiki::symbols::{FileInfo, Symbol, SymbolKind};
use code_wiki::trace::VulnerabilityLocation;

fn hotspot(file: &str, severity: SecuritySeverity) -> SecurityHotspot {
    SecurityHotspot {
        location: VulnerabilityLocation {
            file: file.to_string(),
            function: None,
            start_line: 1,
            end_line: 2,
            column: 0,
        },
        severity,
        vulnerability_count: 1,
        risk_score: 5,
        description: "d".to_string(),
    }
}

#[test]
fn build_requires_output_dir() {
    let r = WikiConfig::builder().with_site_title("T").build();
    assert_eq!(r.err(), Some(WikiError::MissingOutputDir));
    let c = WikiConfigBuilder::new().with_output_dir("out").include_api_docs(true).build().expect("built");
    assert_eq!(c.site_title, "Code Wiki");
    assert_eq!(c.output_dir, "out");
    assert!(c.include_api_docs);
    assert!(!c.security_insights_enabled);
}

#[test]
fn builder_carries_every_setting() {
    let c = WikiConfig::builder()
        .with_site_title("Project Wiki")
        .with_output_dir("./wiki_site")
        .include_examples(true)
        .with_ai_enabled(true)
        .with_ai_mock(true)
        .with_ai_config_path("ai.toml")
        .with_enhanced_ai(true)
        .with_function_enhancement(true)
        .with_security_insights(true)
        .with_refactoring_hints(true)
        .with_diagram_annotations(true)
        .with_ai_provider("openai")
        .with_performance_analysis(true)
        .build()
        .expect("built");
    assert_eq!(c.site_title, "Project Wiki");
    assert!(c.include_examples && c.ai_enabled && c.ai_use_mock && c.enhanced_ai_enabled);
    assert!(c.function_enhancement_enabled && c.security_insights_enabled && c.refactoring_hints_enabled);
    assert!(c.diagram_annotations_enabled && c.performance_analysis_enabled);
    assert!(!c.include_api_docs);
    assert_eq!(c.ai_config_path.as_deref(), Some("ai.toml"));
    assert_eq!(c.ai_provider.as_deref(), Some("openai"));
    let g = WikiGenerator::new(c);
    let sc = g.security_config().expect("security on");
    assert!(sc.enable_propagation_diagrams && sc.enable_trace_analysis);
    assert_eq!(sc.min_hotspot_severity, SecuritySeverity::Medium);
}

#[test]
fn pages_are_counted() {
    let files = vec![
        FileInfo {
            path: "a.rs".to_string(),
            language: "rust".to_string(),
            symbols: vec![Symbol { name: "f".to_string(), kind: SymbolKind::Function }],
            lines: 3,
        },
        FileInfo {
            path: "b.rs".to_string(),
            language: "rust".to_string(),
            symbols: vec![Symbol { name: "S".to_string(), kind: SymbolKind::Type }],
            lines: 3,
        },
    ];
    let plain = WikiGenerator::new(WikiConfig::builder().with_output_dir("o").build().unwrap());
    assert_eq!(plain.page_count(&files).pages, 5);
    assert!(plain.security_config().is_none());
    let secure = WikiGenerator::new(
        WikiConfig::builder().with_output_dir("o").with_security_insights(true).build().unwrap(),
    );
    assert_eq!(secure.page_count(&files).pages, 7);
    assert_eq!(secure.page_count(&vec![]).pages, 4);
}

#[test]
fn files_are_rated_by_their_hotspots() {
    assert_eq!(SecurityLevel::of_hotspots(&vec![]), SecurityLevel::Low);
    let hs = vec![hotspot("a", SecuritySeverity::Medium), hotspot("a", SecuritySeverity::High)];
    assert_eq!(SecurityLevel::of_hotspots(&hs), SecurityLevel::High);
    let hs = vec![hotspot("a", SecuritySeverity::Critical), hotspot("a", SecuritySeverity::High)];
    assert_eq!(SecurityLevel::of_hotspots(&hs).label(), "critical");
    assert_eq!(SecurityLevel::of_hotspots(&vec![hotspot("a", SecuritySeverity::Low)]).label(), "medium");
    let all = vec![hotspot("a", SecuritySeverity::Low), hotspot("b", SecuritySeverity::High), hotspot("a", SecuritySeverity::Info)];
    let mine = hotspots_for_file(&all, &"a".to_string());
    assert_eq!(mine.len(), 2);
    assert_eq!(mine[1].severity, SecuritySeverity::Info);
}

#[test]
fn dependency_nodes_use_path_checksums() {
    let paths = vec!["src/a.rs".to_string(), "src/b.rs".to_string(), "src/c.rs".to_string()];
    let g = build_simple_dependency_graph(&paths);
    assert_eq!(g.nodes.len(), 3);
    assert_eq!(g.nodes[0].id, crc32fast::hash(b"src/a.rs"));
    assert_ne!(g.nodes[0].id, g.nodes[1].id);
    assert_eq!(g.nodes[2].label, "src/c.rs");
    assert_eq!(g.edges.len(), 2);
    assert_eq!((g.edges[1].from, g.edges[1].to), (g.nodes[1].id, g.nodes[2].id));
    let fixed = dependency_chain(&paths, &vec![7, 8, 9]);
    assert_eq!((fixed.edges[0].from, fixed.edges[0].to), (7, 8));
    assert!(build_simple_dependency_graph(&vec![]).edges.is_empty());
}

#[test]
fn call_sites_are_found_by_pattern() {
    let symbols = vec![
        Symbol { name: "a".to_string(), kind: SymbolKind::Function },
        Symbol { name: "m".to_string(), kind: SymbolKind::Function },
    ];
    let text = "pub fn a() { let s = S; s.m(); util::helper(); }\npub fn m() {}";
    let found = find_call_sites(&symbols, text).expect("calls found");
    let pairs: Vec<(String, String)> = found.iter().map(|p| (p.caller.clone(), p.callee.clone())).collect();
    assert_eq!(pairs, vec![("a".to_string(), "m".to_string()), ("a".to_string(), "helper".to_string())]);
    assert!(find_call_sites(&symbols, "fn a() {}").is_none());
    assert!(find_call_sites(&vec![], "x.m()").is_none());
}
