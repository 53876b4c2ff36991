use code_wiki::generator::{HotspotColor, SecurityWikiGenerator};
use code_wiki::severity::{OwaspCategory, SecuritySeverity};
use code_wiki::symbols::{Symbol, SymbolKind};
use code_wiki::text::{html_escape, sanitize_filename};
use code_wiki::trace::{build_trace, SecurityVulnerability, VulnerabilityLocation};
use code_wiki::usage::{
    build_call_graph_diagram, build_dependency_map, build_usage_flow_diagram, names_suggest_call, words_of,
    UsagePoint,
};

fn sym(name: &str, kind: SymbolKind) -> Symbol {
    Symbol { name: name.to_string(), kind }
}

#[test]
fn names_are_split_at_underscores() {
    let words: Vec<String> = words_of("parse__input_").iter().map(|w| w.iter().collect()).collect();
    assert_eq!(words, vec!["parse", "", "input", ""]);
    assert_eq!(words_of("").len(), 1);
}

#[test]
fn names_suggest_calls() {
    assert!(names_suggest_call("parse", "parser_input"));
    assert!(!names_suggest_call("parse", "parse_input"));
    assert!(names_suggest_call("run", "runner"));
    assert!(!names_suggest_call("parse_input", "parse"));
    assert!(names_suggest_call("request_handler", "process_data"));
    assert!(!names_suggest_call("handler_x", "process_data"));
}

#[test]
fn call_graph_follows_names() {
    let symbols = vec![
        sym("load", SymbolKind::Function),
        sym("loader", SymbolKind::Function),
        sym("Config", SymbolKind::Type),
        sym("save", SymbolKind::Function),
    ];
    let g = build_call_graph_diagram(&symbols);
    assert_eq!(g.functions, vec!["load".to_string(), "loader".to_string(), "save".to_string()]);
    let calls: Vec<(String, String)> = g.calls.iter().map(|e| (e.from.clone(), e.to.clone())).collect();
    assert_eq!(calls, vec![("load".to_string(), "loader".to_string())]);
}

#[test]
fn usage_flow_runs_from_types_through_functions() {
    let symbols = vec![
        sym("Parser", SymbolKind::Type),
        sym("new", SymbolKind::Function),
        sym("Token", SymbolKind::Type),
        sym("run", SymbolKind::Function),
    ];
    let flow = build_usage_flow_diagram(&symbols);
    let edges: Vec<(UsagePoint, UsagePoint)> = flow.edges.iter().map(|e| (e.from, e.to)).collect();
    assert_eq!(
        edges,
        vec![
            (UsagePoint::Start, UsagePoint::Type(0)),
            (UsagePoint::Start, UsagePoint::Type(1)),
            (UsagePoint::Type(0), UsagePoint::Function(0)),
            (UsagePoint::Function(0), UsagePoint::Function(1)),
            (UsagePoint::Function(1), UsagePoint::End),
        ]
    );
    let only = build_usage_flow_diagram(&vec![sym("main", SymbolKind::Function)]);
    let edges: Vec<(UsagePoint, UsagePoint)> = only.edges.iter().map(|e| (e.from, e.to)).collect();
    assert_eq!(edges, vec![(UsagePoint::Start, UsagePoint::Function(0)), (UsagePoint::Function(0), UsagePoint::End)]);
}

#[test]
fn dependency_map_relates_by_name() {
    let symbols = vec![
        sym("Parser", SymbolKind::Type),
        sym("new_parser", SymbolKind::Function),
        sym("render", SymbolKind::Function),
        sym("ParserTrait", SymbolKind::Interface),
    ];
    let m = build_dependency_map(&symbols);
    let uses: Vec<(String, String)> = m.uses.iter().map(|e| (e.from.clone(), e.to.clone())).collect();
    assert_eq!(uses, vec![("new_parser".to_string(), "Parser".to_string())]);
    let implements: Vec<(String, String)> = m.implements.iter().map(|e| (e.from.clone(), e.to.clone())).collect();
    assert_eq!(implements, vec![("Parser".to_string(), "ParserTrait".to_string())]);
    assert_eq!(m.interfaces, vec!["ParserTrait".to_string()]);
}

#[test]
fn text_is_escaped_and_sanitised() {
    assert_eq!(html_escape("a<b> & c"), "a&lt;b&gt; &amp; c");
    assert_eq!(html_escape("plain"), "plain");
    assert_eq!(sanitize_filename("src/my file\nx.rs"), "src_my_file_x.rs");
}

#[test]
fn hotspot_colours_follow_severity() {
    assert_eq!(HotspotColor::of_severity(SecuritySeverity::Critical).name(), "red");
    assert_eq!(HotspotColor::of_severity(SecuritySeverity::High).name(), "orange");
    assert_eq!(HotspotColor::of_severity(SecuritySeverity::Medium).name(), "yellow");
    assert_eq!(HotspotColor::of_severity(SecuritySeverity::Info), HotspotColor::Green);
}

#[test]
fn trace_diagram_pairs_steps_with_impacts() {
    let v = SecurityVulnerability {
        id: "x".to_string(),
        title: "SQL injection".to_string(),
        severity: SecuritySeverity::High,
        owasp_category: OwaspCategory::Injection,
        location: VulnerabilityLocation {
            file: "db.rs".to_string(),
            function: Some("query_handler".to_string()),
            start_line: 1,
            end_line: 2,
            column: 3,
        },
    };
    let trace = build_trace(&v).expect("traced");
    let d = SecurityWikiGenerator::new().trace_diagram(&trace).expect("diagram");
    assert_eq!(d.title, "SQL injection");
    assert_eq!(d.first_impact_milli, 7000);
    assert_eq!(d.steps.len(), 2);
    assert_eq!(d.steps[0].function_name, "query_handler");
    assert_eq!(d.steps[0].next_impact_milli, Some(4900));
    assert_eq!(d.steps[1].next_impact_milli, Some(3430));
    let mut empty = trace.clone();
    empty.impact_chain.clear();
    assert!(SecurityWikiGenerator::new().trace_diagram(&empty).is_none());
}
