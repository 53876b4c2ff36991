//! Choice of the diagrams that describe a file, and the descriptors built
//! for it.

use crate::flowchart::{chain_edges, flow_views, lemma_chart_view, node_view, render_flowchart, FlowEdge, FlowNode, FlowNodeView, Flowchart};
use crate::sequence::{message_view, pairs_view, render_sequence, sequence_messages, CallPair, SequenceDiagram, SequenceMessage};
use crate::signals::{branching_spec, calls_spec, extract_signals, ControlFlowGraph};
use crate::symbols::{function_names, function_symbols, FileInfo, Symbol};
use crate::text::{ident_spec, replace_chars, swap_chars};
use vstd::prelude::*;

verus! {

/// Files with more functions than this get a summary instead of diagrams.
pub const LARGE_FILE_FUNCTIONS: usize = 20;

/// Function names a summary shows at most.
pub const SUMMARY_SHOWN: usize = 10;

/// Which diagrams describe a file.
#[derive(Clone, Copy, Debug, PartialEq, Eq, Structural)]
pub enum DiagramShape {
    FlowchartAndSequence,
    Flowchart,
    Sequence,
    ClassDiagram,
    Summary,
}

/// The shape for a file with `functions` functions that branches or not:
/// a summary above `LARGE_FILE_FUNCTIONS` functions, else by the table
/// branching × two or more functions.
pub open spec fn shape_spec(functions: nat, branching: bool) -> DiagramShape {
    if functions > LARGE_FILE_FUNCTIONS {
        DiagramShape::Summary
    } else if branching && functions >= 2 {
        DiagramShape::FlowchartAndSequence
    } else if branching {
        DiagramShape::Flowchart
    } else if functions >= 2 {
        DiagramShape::Sequence
    } else {
        DiagramShape::ClassDiagram
    }
}

/// Chooses the shape for a file (see [`shape_spec`]).
pub fn select_shape(functions: usize, branching: bool) -> (r: DiagramShape)
    ensures
        r == shape_spec(functions as nat, branching),
{
    if functions > LARGE_FILE_FUNCTIONS {
        DiagramShape::Summary
    } else if branching && functions >= 2 {
        DiagramShape::FlowchartAndSequence
    } else if branching {
        DiagramShape::Flowchart
    } else if functions >= 2 {
        DiagramShape::Sequence
    } else {
        DiagramShape::ClassDiagram
    }
}

/// Class diagram of a file: one class per symbol.
#[derive(Clone, Debug)]
pub struct ClassDiagram {
    pub classes: Vec<String>,
}

/// Summary of a large file: some of its function names and how many
/// functions it has.
#[derive(Clone, Debug)]
pub struct ModuleSummary {
    pub shown: Vec<String>,
    pub total_count: usize,
}

/// A diagram describing a file.
#[derive(Clone, Debug)]
pub enum DiagramDescriptor {
    Flowchart(Flowchart),
    Sequence(SequenceDiagram),
    ClassDiagram(ClassDiagram),
    Summary(ModuleSummary),
}

/// What a diagram shows.
pub enum DiagramView {
    Flowchart(Seq<FlowNodeView>, Seq<FlowEdge>),
    Sequence(Seq<Seq<char>>, Seq<(Seq<char>, Seq<char>)>),
    ClassDiagram(Seq<Seq<char>>),
    Summary(Seq<Seq<char>>, nat),
}

/// The view of a diagram.
pub open spec fn descriptor_view(d: DiagramDescriptor) -> DiagramView {
    match d {
        DiagramDescriptor::Flowchart(f) => DiagramView::Flowchart(
            f.nodes@.map_values(|n: FlowNode| node_view(n)),
            f.edges@,
        ),
        DiagramDescriptor::Sequence(s) => DiagramView::Sequence(
            s.participants@.map_values(|p: String| p@),
            s.messages@.map_values(|m: SequenceMessage| message_view(m)),
        ),
        DiagramDescriptor::ClassDiagram(c) => DiagramView::ClassDiagram(
            c.classes@.map_values(|s: String| s@),
        ),
        DiagramDescriptor::Summary(s) => DiagramView::Summary(
            s.shown@.map_values(|n: String| n@),
            s.total_count as nat,
        ),
    }
}

/// Class name of a symbol: its name with colons turned into underscores.
pub open spec fn class_name(name: Seq<char>) -> Seq<char> {
    swap_chars(name, ':', ':', '_')
}

/// Class diagram of a symbol list.
pub open spec fn class_view(syms: Seq<Symbol>) -> DiagramView {
    DiagramView::ClassDiagram(syms.map_values(|s: Symbol| class_name(s.name@)))
}

/// Summary of a symbol list: its first `SUMMARY_SHOWN` function names and
/// its function count.
pub open spec fn summary_view(syms: Seq<Symbol>) -> DiagramView {
    let fs = function_names(syms);
    DiagramView::Summary(
        if fs.len() > SUMMARY_SHOWN {
            fs.take(SUMMARY_SHOWN as int)
        } else {
            fs
        },
        fs.len(),
    )
}

/// Flowchart of a file.
pub open spec fn flowchart_view(cfg: Option<ControlFlowGraph>, syms: Seq<Symbol>) -> DiagramView {
    DiagramView::Flowchart(flow_views(cfg, syms), chain_edges(flow_views(cfg, syms)))
}

/// Sequence diagram of a file.
pub open spec fn sequence_view(
    cfg: Option<ControlFlowGraph>,
    syms: Seq<Symbol>,
    pairs: Option<Seq<(Seq<char>, Seq<char>)>>,
) -> DiagramView {
    DiagramView::Sequence(
        function_names(syms).map_values(|n: Seq<char>| ident_spec(n)),
        sequence_messages(function_names(syms), calls_spec(cfg), pairs),
    )
}

/// The diagrams that describe a file, in the order flowchart, sequence.
pub open spec fn describe_spec(
    syms: Seq<Symbol>,
    cfg: Option<ControlFlowGraph>,
    kinds: Option<Vec<String>>,
    pairs: Option<Seq<(Seq<char>, Seq<char>)>>,
) -> Seq<DiagramView> {
    match shape_spec(function_names(syms).len(), branching_spec(cfg, kinds)) {
        DiagramShape::Summary => seq![summary_view(syms)],
        DiagramShape::FlowchartAndSequence => seq![
            flowchart_view(cfg, syms),
            sequence_view(cfg, syms, pairs),
        ],
        DiagramShape::Flowchart => seq![flowchart_view(cfg, syms)],
        DiagramShape::Sequence => seq![sequence_view(cfg, syms, pairs)],
        DiagramShape::ClassDiagram => seq![class_view(syms)],
    }
}

/// Class diagram of a symbol list.
pub fn class_diagram(symbols: &Vec<Symbol>) -> (r: ClassDiagram)
    ensures
        DiagramView::ClassDiagram(r.classes@.map_values(|s: String| s@)) == class_view(symbols@),
{
    let mut classes: Vec<String> = Vec::new();
    let mut i: usize = 0;
    while i < symbols.len()
        invariant
            i <= symbols@.len(),
            classes@.len() == i,
            forall|k: int| 0 <= k < i ==> (#[trigger] classes@[k])@ == class_name(symbols@[k].name@),
        decreases symbols@.len() - i,
    {
        proof {
            reveal_strlit("_");
        }
        classes.push(replace_chars(symbols[i].name.as_str(), ':', ':', "_"));
        i += 1;
    }
    assert(classes@.map_values(|s: String| s@) =~= symbols@.map_values(|s: Symbol| class_name(s.name@)));
    ClassDiagram { classes }
}

/// Summary of a large file.
pub fn module_summary(symbols: &Vec<Symbol>) -> (r: ModuleSummary)
    ensures
        DiagramView::Summary(r.shown@.map_values(|n: String| n@), r.total_count as nat) == summary_view(
            symbols@,
        ),
{
    let funcs = function_symbols(symbols);
    let ghost fs = function_names(symbols@);
    let limit = if funcs.len() > SUMMARY_SHOWN {
        SUMMARY_SHOWN
    } else {
        funcs.len()
    };
    let mut shown: Vec<String> = Vec::new();
    let mut i: usize = 0;
    while i < limit
        invariant
            limit <= funcs@.len(),
            funcs@.map_values(|s: String| s@) == fs,
            i <= limit,
            shown@.len() == i,
            forall|k: int| 0 <= k < i ==> (#[trigger] shown@[k])@ == fs[k],
        decreases limit - i,
    {
        shown.push(funcs[i].clone());
        i += 1;
    }
    assert(shown@.map_values(|n: String| n@) =~= (if fs.len() > SUMMARY_SHOWN {
        fs.take(SUMMARY_SHOWN as int)
    } else {
        fs
    }));
    ModuleSummary { shown, total_count: funcs.len() }
}

/// The diagrams that describe a file, from its symbols, its graph if one
/// could be built, the syntax kinds found in it if it could be parsed, and
/// the call sites found in its text if it could be read.
pub fn describe_file(
    file: &FileInfo,
    cfg: &Option<ControlFlowGraph>,
    kinds: &Option<Vec<String>>,
    pairs: &Option<Vec<CallPair>>,
) -> (r: Vec<DiagramDescriptor>)
    ensures
        r@.map_values(|d: DiagramDescriptor| descriptor_view(d)) == describe_spec(
            file.symbols@,
            *cfg,
            *kinds,
            pairs_view(*pairs),
        ),
        forall|k: int|
            0 <= k < r@.len() ==> (#[trigger] r@[k] matches DiagramDescriptor::Flowchart(f) ==> forall|i: int|
                0 <= i < f.nodes@.len() ==> (#[trigger] f.nodes@[i]).id == i),
{
    let signals = extract_signals(cfg, kinds);
    let funcs = function_symbols(&file.symbols);
    let functions = funcs.len();
    assert(functions == function_names(file.symbols@).len()) by {
        assert(funcs@.map_values(|s: String| s@).len() == funcs@.len());
    }
    let shape = select_shape(functions, signals.has_decision_point);
    let mut r: Vec<DiagramDescriptor> = Vec::new();
    match shape {
        DiagramShape::Summary => {
            r.push(DiagramDescriptor::Summary(module_summary(&file.symbols)));
        },
        DiagramShape::FlowchartAndSequence => {
            let f = render_flowchart(cfg, &file.symbols);
            proof {
                lemma_chart_view(flow_views(*cfg, file.symbols@), f);
            }
            r.push(DiagramDescriptor::Flowchart(f));
            r.push(DiagramDescriptor::Sequence(render_sequence(&file.symbols, &signals.call_sequence, pairs)));
        },
        DiagramShape::Flowchart => {
            let f = render_flowchart(cfg, &file.symbols);
            proof {
                lemma_chart_view(flow_views(*cfg, file.symbols@), f);
            }
            r.push(DiagramDescriptor::Flowchart(f));
        },
        DiagramShape::Sequence => {
            r.push(DiagramDescriptor::Sequence(render_sequence(&file.symbols, &signals.call_sequence, pairs)));
        },
        DiagramShape::ClassDiagram => {
            r.push(DiagramDescriptor::ClassDiagram(class_diagram(&file.symbols)));
        },
    }
    assert(r@.map_values(|d: DiagramDescriptor| descriptor_view(d)) =~= describe_spec(
        file.symbols@,
        *cfg,
        *kinds,
        pairs_view(*pairs),
    ));
    r
}

} // verus!
