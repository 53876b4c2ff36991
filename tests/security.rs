use code_wiki::generator::{SecurityWikiConfig, SecurityWikiGenerator};
use code_wiki::hotspot::identify_security_hotspots;
use code_wiki::owasp::{analyze_file_owasp_categories, get_category_recommendations};
use code_wiki::severity::{hotspot_weight, impact_base, OwaspCategory, SecuritySeverity};
use code_wiki::trace::{
    build_trace, calculate_impact_chain, generate_mitigations, identify_security_traces, trace_propagation_path,
    ConfidenceLevel, ImpactLevel, SecurityVulnerability, TrustBoundary, VulnerabilityLocation,
};
use std::cmp::Ordering;

fn location(file: &str, function: Option<&str>) -> VulnerabilityLocation {
    VulnerabilityLocation {
        file: file.to_string(),
        function: function.map(|f| f.to_string()),
        start_line: 20,
        end_line: 30,
        column: 4,
    }
}

fn vuln(id: &str, file: &str, severity: SecuritySeverity, category: OwaspCategory) -> SecurityVulnerability {
    SecurityVulnerability {
        id: id.to_string(),
        title: format!("finding {}", id),
        severity,
        owasp_category: category,
        location: location(file, Some("run_query")),
    }
}

#[test]
fn severity_scale_is_ordered() {
    let scale = [SecuritySeverity::Info, SecuritySeverity::Low, SecuritySeverity::Medium, SecuritySeverity::High, SecuritySeverity::Critical];
    for (i, a) in scale.iter().enumerate() {
        for (j, b) in scale.iter().enumerate() {
            assert_eq!(a.compare(b), i.cmp(&j));
            assert_eq!(a.partial_cmp(b), Some(i.cmp(&j)));
            assert_eq!(a.at_least(b), i >= j);
        }
    }
    assert_eq!(SecuritySeverity::Low.compare(&SecuritySeverity::High), Ordering::Less);
    assert!(SecuritySeverity::Critical > SecuritySeverity::High);
}

#[test]
fn weights_keep_both_critical_values() {
    assert_eq!(hotspot_weight(SecuritySeverity::Critical), 10);
    assert_eq!(impact_base(SecuritySeverity::Critical), 9);
    assert_eq!(hotspot_weight(SecuritySeverity::High), 7);
    assert_eq!(hotspot_weight(SecuritySeverity::Medium), 5);
    assert_eq!(hotspot_weight(SecuritySeverity::Low), 3);
    assert_eq!(hotspot_weight(SecuritySeverity::Info), 1);
}

#[test]
fn only_medium_and_above_are_traced() {
    for s in [SecuritySeverity::Info, SecuritySeverity::Low] {
        assert!(build_trace(&vuln("v", "a.rs", s, OwaspCategory::Injection)).is_none());
    }
    for s in [SecuritySeverity::Medium, SecuritySeverity::High, SecuritySeverity::Critical] {
        let t = build_trace(&vuln("v7", "a.rs", s, OwaspCategory::Injection)).expect("traced");
        assert_eq!(t.id, "trace_v7");
        assert_eq!(t.source.severity, s);
        assert_eq!(t.confidence, ConfidenceLevel::Medium);
    }
    let all = vec![
        vuln("1", "a.rs", SecuritySeverity::Low, OwaspCategory::Injection),
        vuln("2", "a.rs", SecuritySeverity::High, OwaspCategory::Injection),
        vuln("3", "b.rs", SecuritySeverity::Info, OwaspCategory::Injection),
        vuln("4", "b.rs", SecuritySeverity::Medium, OwaspCategory::Injection),
    ];
    let ids: Vec<String> = identify_security_traces(&all).iter().map(|t| t.id.clone()).collect();
    assert_eq!(ids, vec!["trace_2".to_string(), "trace_4".to_string()]);
}

#[test]
fn impact_chain_has_four_decreasing_scores() {
    let chain = calculate_impact_chain(SecuritySeverity::Critical);
    let scores: Vec<u64> = chain.iter().map(|i| i.score_milli).collect();
    assert_eq!(scores, vec![9000, 6300, 4410, 3087]);
    assert_eq!(chain[0].confidentiality, ImpactLevel::Critical);
    assert_eq!(chain[0].integrity, ImpactLevel::Medium);
    assert_eq!(chain[1].confidentiality, ImpactLevel::High);
    assert_eq!(chain[3].integrity, ImpactLevel::Low);
    for s in [SecuritySeverity::Info, SecuritySeverity::Medium, SecuritySeverity::High] {
        let c = calculate_impact_chain(s);
        assert_eq!(c.len(), 4);
        assert!(c.windows(2).all(|w| w[0].score_milli > w[1].score_milli));
    }
    let medium: Vec<u64> = calculate_impact_chain(SecuritySeverity::Medium).iter().map(|i| i.score_milli).collect();
    assert_eq!(medium, vec![5000, 3500, 2450, 1715]);
}

#[test]
fn injection_mitigations_grow_with_severity() {
    let medium = generate_mitigations(OwaspCategory::Injection, SecuritySeverity::Medium);
    assert_eq!(
        medium,
        vec![
            "Use parameterized queries or stored procedures".to_string(),
            "Validate and sanitize all user inputs".to_string(),
            "Use an ORM or query builder with built-in protection".to_string(),
        ]
    );
    let high = generate_mitigations(OwaspCategory::Injection, SecuritySeverity::High);
    assert_eq!(high.len(), 5);
    assert_eq!(high[..3], medium[..]);
    assert_eq!(high[3], "Conduct thorough security testing");
    assert_eq!(high[4], "Implement monitoring and alerting");
    let other = generate_mitigations(OwaspCategory::InsecureDesign, SecuritySeverity::Critical);
    assert_eq!(other.len(), 4);
    assert_eq!(other[0], "Review and fix security weakness");
    let access = generate_mitigations(OwaspCategory::BrokenAccessControl, SecuritySeverity::Low);
    assert_eq!(access[1], "Use role-based access control (RBAC)");
}

#[test]
fn handler_gets_internal_step() {
    let path = trace_propagation_path(&location("srv.rs", Some("Admin_Handler")));
    assert_eq!(path.len(), 2);
    assert_eq!(path[0].function_name, "Admin_Handler");
    assert!(path[0].context.requires_auth);
    assert!(!path[0].context.is_sanitized);
    assert!(path[0].context.has_user_input);
    assert_eq!(path[0].context.trust_boundary, TrustBoundary::External);
    assert_eq!(path[0].location.start_line, 20);
    assert_eq!(path[1].function_name, "process_data");
    assert_eq!(path[1].location.function.as_deref(), Some("process_data"));
    assert_eq!(path[1].location.start_line, 30);
    assert_eq!(path[1].location.end_line, 45);
    assert_eq!(path[1].location.column, 0);
    assert_eq!(path[1].context.trust_boundary, TrustBoundary::Internal);
    let plain = trace_propagation_path(&location("x.rs", Some("escape_html")));
    assert_eq!(plain.len(), 1);
    assert!(plain[0].context.is_sanitized);
    assert!(!plain[0].context.requires_auth);
    assert!(trace_propagation_path(&location("x.rs", None)).is_empty());
    let mut far = location("x.rs", Some("handler"));
    far.start_line = usize::MAX - 3;
    assert_eq!(trace_propagation_path(&far)[1].location.start_line, usize::MAX);
}

#[test]
fn two_findings_in_one_file_make_one_hotspot() {
    let vs = vec![
        vuln("1", "src/db.rs", SecuritySeverity::High, OwaspCategory::Injection),
        vuln("2", "src/db.rs", SecuritySeverity::Medium, OwaspCategory::Injection),
    ];
    let hs = identify_security_hotspots(&vs, SecuritySeverity::Medium);
    assert_eq!(hs.len(), 1);
    assert_eq!(hs[0].risk_score, 12);
    assert_eq!(hs[0].severity, SecuritySeverity::High);
    assert_eq!(hs[0].vulnerability_count, 2);
    assert_eq!(hs[0].location.file, "src/db.rs");
    assert_eq!(hs[0].description, "Security hotspot with multiple vulnerabilities");
}

#[test]
fn hotspots_are_ranked_by_risk() {
    let vs = vec![
        vuln("1", "a.rs", SecuritySeverity::Medium, OwaspCategory::Injection),
        vuln("2", "b.rs", SecuritySeverity::Critical, OwaspCategory::Injection),
        vuln("3", "c.rs", SecuritySeverity::Low, OwaspCategory::Injection),
        vuln("4", "a.rs", SecuritySeverity::Medium, OwaspCategory::Injection),
        vuln("5", "d.rs", SecuritySeverity::High, OwaspCategory::Injection),
        vuln("6", "a.rs", SecuritySeverity::Info, OwaspCategory::Injection),
    ];
    let hs = identify_security_hotspots(&vs, SecuritySeverity::Medium);
    let got: Vec<(String, u64, usize)> =
        hs.iter().map(|h| (h.location.file.clone(), h.risk_score, h.vulnerability_count)).collect();
    assert_eq!(
        got,
        vec![("a.rs".to_string(), 10, 2), ("b.rs".to_string(), 10, 1), ("d.rs".to_string(), 7, 1)]
    );
    assert!(hs.windows(2).all(|w| w[0].risk_score >= w[1].risk_score));
    let all = identify_security_hotspots(&vs, SecuritySeverity::Info);
    assert_eq!(all.len(), 4);
    assert_eq!(all[0].location.file, "a.rs");
    assert_eq!(all[0].risk_score, 11);
    assert!(identify_security_hotspots(&vec![], SecuritySeverity::Info).is_empty());
}

#[test]
fn first_seen_location_is_kept() {
    let mut first = vuln("1", "a.rs", SecuritySeverity::Low, OwaspCategory::Injection);
    first.location.start_line = 3;
    let mut second = vuln("2", "a.rs", SecuritySeverity::Critical, OwaspCategory::Injection);
    second.location.start_line = 99;
    let hs = identify_security_hotspots(&vec![first, second], SecuritySeverity::Low);
    assert_eq!(hs[0].location.start_line, 3);
    assert_eq!(hs[0].severity, SecuritySeverity::Critical);
    assert_eq!(hs[0].risk_score, 13);
}

#[test]
fn analysis_respects_engine_switches() {
    let vs = vec![vuln("1", "a.rs", SecuritySeverity::High, OwaspCategory::Injection)];
    let on = SecurityWikiGenerator::new().analyze_security(&vs);
    assert_eq!(on.security_traces.len(), 1);
    assert_eq!(on.security_hotspots.len(), 1);
    let config = SecurityWikiConfig {
        enable_trace_analysis: false,
        enable_hotspot_visualization: false,
        ..SecurityWikiConfig::default()
    };
    let off = SecurityWikiGenerator::new_with_config(config).analyze_security(&vs);
    assert!(off.security_traces.is_empty());
    assert!(off.security_hotspots.is_empty());
}

#[test]
fn owasp_categories_follow_keywords() {
    let cats = analyze_file_owasp_categories("fn Login() { let PASSWORD = env(); db.Execute(q); }");
    assert_eq!(
        cats,
        vec!["A02:2021 – Cryptographic Failures".to_string(), "A03:2021 – Injection".to_string()]
    );
    assert!(analyze_file_owasp_categories("fn add(a: i32) -> i32 { a }").is_empty());
    let all = analyze_file_owasp_categories("admin secret update token debug");
    assert_eq!(all.len(), 5);
    assert_eq!(get_category_recommendations("A04:2021 – Insecure Design").len(), 4);
    assert_eq!(
        get_category_recommendations("unknown"),
        vec!["Review and apply security best practices".to_string()]
    );
}

#[test]
fn owasp_block_lists_each_recommendation() {
    let g = SecurityWikiGenerator::new();
    let html = g.generate_owasp_recommendations("let session = 1;");
    let expected = "<div class=\"card\"><h3>OWASP Security Recommendations</h3>\n<ul>\n\
<li><strong>A04:2021 – Insecure Design:</strong> Follow secure design principles from the start</li>\n\
<li><strong>A04:2021 – Insecure Design:</strong> Implement threat modeling</li>\n\
<li><strong>A04:2021 – Insecure Design:</strong> Use secure defaults and fail-safe behavior</li>\n\
<li><strong>A04:2021 – Insecure Design:</strong> Regular security reviews of design decisions</li>\n\
</ul></div>\n";
    assert_eq!(html, expected);
    assert_eq!(g.generate_owasp_recommendations("let x = 1;"), "");
    let off = SecurityWikiGenerator::new_with_config(SecurityWikiConfig {
        enable_owasp_recommendations: false,
        ..SecurityWikiConfig::default()
    });
    assert_eq!(off.generate_owasp_recommendations("password"), "");
}
