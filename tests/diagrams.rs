use code_wiki::diagram::{describe_file, select_shape, DiagramDescriptor, DiagramShape};
use code_wiki::flowchart::{render_flowchart, FlowPoint};
use code_wiki::sequence::{render_sequence, CallPair};
use code_wiki::signals::{extract_signals, CfgNode, ControlFlowGraph};
use code_wiki::symbols::{FileInfo, Symbol, SymbolKind};
use code_wiki::text::{anchorize, safe_ident};

fn sym(name: &str, kind: SymbolKind) -> Symbol {
    Symbol { name: name.to_string(), kind }
}

fn file(symbols: Vec<Symbol>) -> FileInfo {
    FileInfo { path: "src/lib.rs".to_string(), language: "rust".to_string(), symbols, lines: 10 }
}

fn branch(t: &str) -> CfgNode {
    CfgNode::Branch { node_type: t.to_string() }
}

fn call(f: &str) -> CfgNode {
    CfgNode::Call { function_name: f.to_string() }
}

fn graph(nodes: Vec<CfgNode>, decision_points: usize, calls: &[&str]) -> Option<ControlFlowGraph> {
    Some(ControlFlowGraph {
        nodes,
        decision_points,
        call_sequence: calls.iter().map(|c| c.to_string()).collect(),
    })
}

#[test]
fn if_else_with_one_function_gives_flowchart_only() {
    let f = file(vec![sym("pick", SymbolKind::Function)]);
    let cfg = graph(vec![CfgNode::Other, branch("if_expression"), CfgNode::Other], 1, &[]);
    let d = describe_file(&f, &cfg, &None, &None);
    assert_eq!(d.len(), 1);
    match &d[0] {
        DiagramDescriptor::Flowchart(chart) => {
            assert_eq!(chart.nodes.len(), 1);
            assert!(chart.nodes[0].is_branch);
            assert_eq!(chart.nodes[0].label, "if_expression");
            assert!(!chart.nodes[0].is_loop);
        }
        other => panic!("expected a flowchart, got {:?}", other),
    }
}

#[test]
fn for_loop_gets_repeat_self_edge() {
    let f = file(vec![sym("sum", SymbolKind::Function)]);
    let cfg = graph(vec![branch("for_expression"), call("push")], 1, &["push"]);
    let d = describe_file(&f, &cfg, &None, &None);
    assert_eq!(d.len(), 1);
    let chart = match &d[0] {
        DiagramDescriptor::Flowchart(c) => c,
        other => panic!("expected a flowchart, got {:?}", other),
    };
    assert!(chart.nodes[0].is_loop);
    assert_eq!(chart.nodes[1].label, "call:push");
    assert!(chart
        .edges
        .iter()
        .any(|e| e.repeat && e.from == FlowPoint::Node(0) && e.to == FlowPoint::Node(0)));
    let expected = vec![
        (FlowPoint::Start, FlowPoint::Node(0), false),
        (FlowPoint::Node(0), FlowPoint::Node(0), true),
        (FlowPoint::Node(0), FlowPoint::Node(1), false),
        (FlowPoint::Node(1), FlowPoint::End, false),
    ];
    let got: Vec<_> = chart.edges.iter().map(|e| (e.from, e.to, e.repeat)).collect();
    assert_eq!(got, expected);
}

#[test]
fn two_functions_calling_give_sequence() {
    let f = file(vec![sym("a", SymbolKind::Function), sym("b", SymbolKind::Function)]);
    let cfg = graph(vec![call("b")], 0, &["b"]);
    let d = describe_file(&f, &cfg, &None, &None);
    assert_eq!(d.len(), 1);
    match &d[0] {
        DiagramDescriptor::Sequence(s) => {
            assert_eq!(s.participants, vec!["a".to_string(), "b".to_string()]);
            let lines: Vec<String> = s.messages.iter().map(|m| m.text()).collect();
            assert!(lines.contains(&"a->>b: call".to_string()));
        }
        other => panic!("expected a sequence diagram, got {:?}", other),
    }
}

#[test]
fn neither_branches_nor_two_functions_gives_class_diagram() {
    let f = file(vec![sym("Config::new", SymbolKind::Function), sym("Config", SymbolKind::Type)]);
    let d = describe_file(&f, &None, &Some(vec!["identifier".to_string()]), &None);
    assert_eq!(d.len(), 1);
    match &d[0] {
        DiagramDescriptor::ClassDiagram(c) => {
            assert_eq!(c.classes, vec!["Config__new".to_string(), "Config".to_string()]);
        }
        other => panic!("expected a class diagram, got {:?}", other),
    }
}

#[test]
fn branching_with_two_functions_gives_both() {
    let f = file(vec![sym("a", SymbolKind::Function), sym("b", SymbolKind::Function)]);
    let d = describe_file(&f, &None, &Some(vec!["match_expression".to_string()]), &None);
    assert_eq!(d.len(), 2);
    assert!(matches!(d[0], DiagramDescriptor::Flowchart(_)));
    match &d[1] {
        DiagramDescriptor::Sequence(s) => {
            assert_eq!(s.messages.len(), 1);
            assert_eq!(s.messages[0].text(), "a->>b: call");
        }
        other => panic!("expected a sequence diagram, got {:?}", other),
    }
    match &d[0] {
        DiagramDescriptor::Flowchart(c) => {
            let labels: Vec<&str> = c.nodes.iter().map(|n| n.label.as_str()).collect();
            assert_eq!(labels, vec!["a", "b"]);
        }
        _ => unreachable!(),
    }
}

#[test]
fn large_file_gets_summary() {
    let symbols: Vec<Symbol> = (0..21).map(|i| sym(&format!("f{}", i), SymbolKind::Function)).collect();
    let f = file(symbols);
    let cfg = graph(vec![branch("if_expression")], 1, &[]);
    let d = describe_file(&f, &cfg, &None, &None);
    assert_eq!(d.len(), 1);
    match &d[0] {
        DiagramDescriptor::Summary(s) => {
            assert_eq!(s.total_count, 21);
            assert_eq!(s.shown.len(), 10);
            assert_eq!(s.shown[0], "f0");
            assert_eq!(s.shown[9], "f9");
        }
        other => panic!("expected a summary, got {:?}", other),
    }
}

#[test]
fn twenty_functions_is_not_large() {
    assert_eq!(select_shape(20, false), DiagramShape::Sequence);
    assert_eq!(select_shape(21, false), DiagramShape::Summary);
    assert_eq!(select_shape(1, true), DiagramShape::Flowchart);
    assert_eq!(select_shape(2, true), DiagramShape::FlowchartAndSequence);
    assert_eq!(select_shape(0, false), DiagramShape::ClassDiagram);
}

#[test]
fn flowchart_is_capped_at_fifteen_nodes() {
    let nodes: Vec<CfgNode> = (0..40).map(|i| call(&format!("g{}", i))).collect();
    let chart = render_flowchart(&graph(nodes, 0, &[]), &vec![]);
    assert_eq!(chart.nodes.len(), 15);
    assert_eq!(chart.nodes[14].id, 14);
    let symbols: Vec<Symbol> = (0..30).map(|i| sym(&format!("s{}", i), SymbolKind::Other)).collect();
    let fallback = render_flowchart(&None, &symbols);
    assert_eq!(fallback.nodes.len(), 15);
}

#[test]
fn budget_counts_graph_nodes_not_shown_ones() {
    let mut nodes: Vec<CfgNode> = (0..14).map(|_| CfgNode::Other).collect();
    nodes.push(branch("while_statement"));
    nodes.push(branch("if_statement"));
    let chart = render_flowchart(&graph(nodes, 2, &[]), &vec![]);
    assert_eq!(chart.nodes.len(), 1);
    assert_eq!(chart.nodes[0].label, "while_statement");
    assert!(chart.nodes[0].is_loop);
}

#[test]
fn long_labels_are_shortened() {
    let chart = render_flowchart(
        &graph(
            vec![branch("a_very_long_branch_kind_name"), call("some_really_long_function_name")],
            1,
            &[],
        ),
        &vec![],
    );
    assert_eq!(chart.nodes[0].label, "a_very_long_branc...");
    assert_eq!(chart.nodes[1].label, "call:some_really_long_");
}

#[test]
fn empty_graph_falls_back_to_symbols() {
    let symbols = vec![sym("x", SymbolKind::Other), sym("y", SymbolKind::Function)];
    let chart = render_flowchart(&graph(vec![CfgNode::Other], 0, &[]), &symbols);
    let labels: Vec<&str> = chart.nodes.iter().map(|n| n.label.as_str()).collect();
    assert_eq!(labels, vec!["x", "y"]);
    let empty = render_flowchart(&None, &vec![]);
    assert!(empty.nodes.is_empty());
    assert_eq!(empty.edges.len(), 1);
    assert_eq!((empty.edges[0].from, empty.edges[0].to), (FlowPoint::Start, FlowPoint::End));
}

#[test]
fn description_is_repeatable() {
    let f = file(vec![sym("a", SymbolKind::Function), sym("b", SymbolKind::Function)]);
    let cfg = graph(vec![branch("loop_expression"), call("b")], 1, &["b"]);
    let first = describe_file(&f, &cfg, &None, &None);
    let second = describe_file(&f, &cfg, &None, &None);
    assert_eq!(format!("{:?}", first), format!("{:?}", second));
}

#[test]
fn graph_calls_come_from_first_function() {
    let symbols = vec![sym("Main Entry", SymbolKind::Function), sym("helper", SymbolKind::Function)];
    let d = render_sequence(&symbols, &vec!["Do:Thing".to_string(), "helper".to_string()], &None);
    assert_eq!(d.participants, vec!["main_entry".to_string(), "helper".to_string()]);
    let lines: Vec<String> = d.messages.iter().map(|m| m.text()).collect();
    assert_eq!(lines, vec!["main_entry->>do_thing: call".to_string(), "main_entry->>helper: call".to_string()]);
}

#[test]
fn text_calls_are_kept_between_declared_functions() {
    let symbols = vec![sym("a", SymbolKind::Function), sym("b", SymbolKind::Function), sym("c", SymbolKind::Function)];
    let pairs = Some(vec![
        CallPair { caller: "a".to_string(), callee: "c".to_string() },
        CallPair { caller: "a".to_string(), callee: "println".to_string() },
        CallPair { caller: "a".to_string(), callee: "b".to_string() },
    ]);
    let d = render_sequence(&symbols, &vec![], &pairs);
    let lines: Vec<String> = d.messages.iter().map(|m| m.text()).collect();
    assert_eq!(lines, vec!["a->>c: call".to_string(), "a->>b: call".to_string()]);
    let none_valid = Some(vec![CallPair { caller: "x".to_string(), callee: "y".to_string() }]);
    assert!(render_sequence(&symbols, &vec![], &none_valid).messages.is_empty());
}

#[test]
fn adjacent_functions_are_linked_without_calls() {
    let symbols = vec![sym("a", SymbolKind::Function), sym("T", SymbolKind::Type), sym("b", SymbolKind::Function), sym("c", SymbolKind::Function)];
    let d = render_sequence(&symbols, &vec![], &Some(vec![]));
    let lines: Vec<String> = d.messages.iter().map(|m| m.text()).collect();
    assert_eq!(lines, vec!["a->>b: call".to_string(), "b->>c: call".to_string()]);
}

#[test]
fn identifiers_are_normalised() {
    assert_eq!(anchorize("My Type::New"), "my-type--new");
    assert_eq!(safe_ident("My Type::New"), "my_type__new");
    assert_eq!(safe_ident("kebab-Case"), "kebab_case");
    assert_eq!(safe_ident("ÀB"), "àb");
}

#[test]
fn signals_come_from_graph_or_syntax_kinds() {
    let s = extract_signals(&graph(vec![CfgNode::Other], 0, &["f", "g"]), &Some(vec!["if_statement".to_string()]));
    assert!(!s.has_decision_point);
    assert_eq!(s.call_sequence, vec!["f".to_string(), "g".to_string()]);
    let s = extract_signals(&graph(vec![], 3, &["f"]), &Some(vec!["do_statement".to_string()]));
    assert!(s.has_decision_point);
    assert!(s.call_sequence.is_empty());
    let s = extract_signals(&None, &None);
    assert!(!s.has_decision_point);
}

#[test]
fn symbol_kinds_are_classified() {
    assert_eq!(SymbolKind::classify("fn"), SymbolKind::Function);
    assert_eq!(SymbolKind::classify("function_declaration"), SymbolKind::Function);
    assert_eq!(SymbolKind::classify("class"), SymbolKind::Type);
    assert_eq!(SymbolKind::classify("struct"), SymbolKind::Type);
    assert_eq!(SymbolKind::classify("interface"), SymbolKind::Interface);
    assert_eq!(SymbolKind::classify("const"), SymbolKind::Other);
}
