use code_wiki::relations::{generate_relationship_map_simple, relationship_map, GlobalRole, Relationship};
use code_wiki::symbols::{FileInfo, Symbol, SymbolKind};

fn file(path: &str, symbols: Vec<(&str, SymbolKind)>) -> FileInfo {
    FileInfo {
        path: path.to_string(),
        language: "rust".to_string(),
        symbols: symbols.into_iter().map(|(n, k)| Symbol { name: n.to_string(), kind: k }).collect(),
        lines: 1,
    }
}

fn describe(r: &Relationship) -> String {
    match r {
        Relationship::Symbol { name, kind } => format!("symbol:{}:{:?}", name, kind),
        Relationship::CrossFile { path } => format!("cross_file:{}", path),
        Relationship::SharedSymbol { name, path } => format!("shared_symbol:{}@{}", name, path),
    }
}

fn roles(g: &[GlobalRole]) -> Vec<String> {
    g.iter()
        .map(|r| match r {
            GlobalRole::EntryPoint { path } => format!("entry_point:{}", path),
            GlobalRole::CoreModule { path } => format!("core_module:{}", path),
        })
        .collect()
}

#[test]
fn relationships_follow_names() {
    let files = vec![
        file("src/parser.rs", vec![("Parser", SymbolKind::Type), ("parse", SymbolKind::Function)]),
        file("src/parser_utils.rs", vec![("parser", SymbolKind::Function)]),
        file("src/main.rs", vec![]),
    ];
    let stems = vec!["parser".to_string(), "parser_utils".to_string(), "main".to_string()];
    let names = vec!["parser.rs".to_string(), "parser_utils.rs".to_string(), "main.rs".to_string()];
    let m = relationship_map(&files, &stems, &names);
    assert_eq!(m.files.len(), 3);
    let first: Vec<String> = m.files[0].relationships.iter().map(describe).collect();
    assert_eq!(
        first,
        vec![
            "symbol:Parser:Type".to_string(),
            "symbol:parse:Function".to_string(),
            "cross_file:src/parser_utils.rs".to_string(),
            "shared_symbol:Parser@src/parser_utils.rs".to_string(),
        ]
    );
    let third: Vec<String> = m.files[2].relationships.iter().map(describe).collect();
    assert!(third.is_empty());
    assert_eq!(
        roles(&m.global),
        vec![
            "entry_point:src/main.rs".to_string(),
            "core_module:src/parser.rs".to_string(),
        ]
    );
}

#[test]
fn relationship_map_reads_path_names() {
    let files = vec![
        file("app/server.rs", vec![("run", SymbolKind::Function)]),
        file("lib/serverless.rs", vec![("Run", SymbolKind::Type)]),
    ];
    let m = generate_relationship_map_simple(&files);
    let first: Vec<String> = m.files[0].relationships.iter().map(describe).collect();
    assert_eq!(
        first,
        vec![
            "symbol:run:Function".to_string(),
            "cross_file:lib/serverless.rs".to_string(),
            "shared_symbol:run@lib/serverless.rs".to_string(),
        ]
    );
    assert_eq!(
        roles(&m.global),
        vec![
            "entry_point:app/server.rs".to_string(),
            "entry_point:lib/serverless.rs".to_string(),
            "core_module:app/server.rs".to_string(),
            "core_module:lib/serverless.rs".to_string(),
        ]
    );
}
