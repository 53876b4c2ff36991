//! Flowchart descriptors: the decisions and calls of a control-flow graph as
//! a bounded chain of nodes, or the symbols of a file in declaration order.
//! The chain approximates control flow; it does not tell which edge of a
//! decision is taken when its condition holds.

use crate::signals::{usable, CfgNode, ControlFlowGraph};
use crate::symbols::Symbol;
use crate::text::{contains, contains_seq};
use vstd::prelude::*;

verus! {

/// Most nodes a flowchart shows.
pub const NODE_BUDGET: usize = 15;

/// Labels longer than this many characters are shortened.
pub const LABEL_WIDTH: usize = 20;

/// Characters of a long label that are kept.
pub const LABEL_KEPT: usize = 17;

/// An end point of a flowchart edge.
#[derive(Clone, Copy, Debug, PartialEq, Eq, Structural)]
pub enum FlowPoint {
    Start,
    Node(usize),
    End,
}

/// A flowchart edge; `repeat` marks the self-edge of a loop.
#[derive(Clone, Copy, Debug, PartialEq, Eq, Structural)]
pub struct FlowEdge {
    pub from: FlowPoint,
    pub to: FlowPoint,
    pub repeat: bool,
}

/// A flowchart node; `id` is its position among the nodes.
#[derive(Clone, Debug)]
pub struct FlowNode {
    pub id: usize,
    pub label: String,
    pub is_loop: bool,
    pub is_branch: bool,
}

/// Nodes and edges of a flowchart.
#[derive(Clone, Debug)]
pub struct Flowchart {
    pub nodes: Vec<FlowNode>,
    pub edges: Vec<FlowEdge>,
}

/// What a flowchart node shows.
pub struct FlowNodeView {
    pub label: Seq<char>,
    pub is_loop: bool,
    pub is_branch: bool,
}

/// The view of a node.
pub open spec fn node_view(n: FlowNode) -> FlowNodeView {
    FlowNodeView { label: n.label@, is_loop: n.is_loop, is_branch: n.is_branch }
}

/// A decision whose syntax kind names a loop.
pub open spec fn loop_kind(t: Seq<char>) -> bool {
    contains_seq(t, "for"@) || contains_seq(t, "while"@) || contains_seq(t, "loop"@)
}

/// The first characters of a long text, or the whole of a short one.
pub open spec fn shortened(t: Seq<char>) -> Seq<char> {
    if t.len() > LABEL_WIDTH {
        t.take(LABEL_KEPT as int)
    } else {
        t
    }
}

/// Decisions and calls are shown; other nodes are not.
pub open spec fn shown(n: CfgNode) -> bool {
    n is Branch || n is Call
}

/// The view of a shown graph node.
pub open spec fn cfg_node_view(n: CfgNode) -> FlowNodeView {
    match n {
        CfgNode::Branch { node_type } => FlowNodeView {
            label: if node_type@.len() > LABEL_WIDTH {
                node_type@.take(LABEL_KEPT as int) + "..."@
            } else {
                node_type@
            },
            is_loop: loop_kind(node_type@),
            is_branch: true,
        },
        CfgNode::Call { function_name } => FlowNodeView {
            label: "call:"@ + shortened(function_name@),
            is_loop: false,
            is_branch: false,
        },
        CfgNode::Other => FlowNodeView { label: seq![], is_loop: false, is_branch: false },
    }
}

/// Views of the shown nodes of `ns`, in order.
pub open spec fn shown_views(ns: Seq<CfgNode>) -> Seq<FlowNodeView>
    decreases ns.len(),
{
    if ns.len() == 0 {
        seq![]
    } else {
        let rest = shown_views(ns.drop_last());
        if shown(ns.last()) {
            rest.push(cfg_node_view(ns.last()))
        } else {
            rest
        }
    }
}

/// At most `NODE_BUDGET` first elements of `ns`.
pub open spec fn budgeted<T>(ns: Seq<T>) -> Seq<T> {
    if ns.len() > NODE_BUDGET {
        ns.take(NODE_BUDGET as int)
    } else {
        ns
    }
}

/// Node views of the flowchart of a graph: the shown nodes among its first
/// `NODE_BUDGET` nodes.
pub open spec fn cfg_flow_views(ns: Seq<CfgNode>) -> Seq<FlowNodeView> {
    shown_views(budgeted(ns))
}

/// Node views of the flowchart of a symbol list: its first `NODE_BUDGET`
/// symbols, by name.
pub open spec fn symbol_flow_views(syms: Seq<Symbol>) -> Seq<FlowNodeView> {
    budgeted(syms).map_values(|s: Symbol| FlowNodeView { label: s.name@, is_loop: false, is_branch: false })
}

/// Edges that node `i` adds: its self-edge if it is a loop, then the edge
/// from the node before it.
pub open spec fn step_edges(i: nat, is_loop: bool) -> Seq<FlowEdge> {
    (if is_loop {
        seq![FlowEdge { from: FlowPoint::Node(i as usize), to: FlowPoint::Node(i as usize), repeat: true }]
    } else {
        seq![]
    }) + (if i > 0 {
        seq![FlowEdge { from: FlowPoint::Node((i - 1) as usize), to: FlowPoint::Node(i as usize), repeat: false }]
    } else {
        seq![]
    })
}

/// Edges added by the nodes of `vs`, in order.
pub open spec fn body_edges(vs: Seq<FlowNodeView>) -> Seq<FlowEdge>
    decreases vs.len(),
{
    if vs.len() == 0 {
        seq![]
    } else {
        body_edges(vs.drop_last()) + step_edges((vs.len() - 1) as nat, vs.last().is_loop)
    }
}

/// All edges of a chain of nodes `vs`: from the start to the first node,
/// along the chain, to the end (from the start to the end without nodes).
pub open spec fn chain_edges(vs: Seq<FlowNodeView>) -> Seq<FlowEdge> {
    if vs.len() == 0 {
        seq![FlowEdge { from: FlowPoint::Start, to: FlowPoint::End, repeat: false }]
    } else {
        seq![FlowEdge { from: FlowPoint::Start, to: FlowPoint::Node(0), repeat: false }] + body_edges(vs)
            + seq![FlowEdge { from: FlowPoint::Node((vs.len() - 1) as usize), to: FlowPoint::End, repeat: false }]
    }
}

/// `f` is the flowchart of the node views `vs`.
pub open spec fn is_chart_of(vs: Seq<FlowNodeView>, f: Flowchart) -> bool {
    &&& f.nodes@.len() == vs.len()
    &&& forall|i: int| 0 <= i < vs.len() ==> (#[trigger] f.nodes@[i]).id == i && node_view(f.nodes@[i]) == vs[i]
    &&& f.edges@ == chain_edges(vs)
}

/// The node views of a chart of `vs` are `vs`.
pub proof fn lemma_chart_view(vs: Seq<FlowNodeView>, f: Flowchart)
    requires
        is_chart_of(vs, f),
    ensures
        f.nodes@.map_values(|n: FlowNode| node_view(n)) == vs,
{
    assert forall|i: int| 0 <= i < vs.len() implies f.nodes@.map_values(|n: FlowNode| node_view(n))[i]
        == vs[i] by {
        assert(node_view(f.nodes@[i]) == vs[i]);
    }
    assert(f.nodes@.map_values(|n: FlowNode| node_view(n)) =~= vs);
}

/// Label of a decision node.
fn branch_label(node_type: &String) -> (r: String)
    ensures
        r@ == cfg_node_view(CfgNode::Branch { node_type: *node_type }).label,
{
    if node_type.as_str().unicode_len() > LABEL_WIDTH {
        String::from_str(node_type.as_str().substring_char(0, LABEL_KEPT)).concat("...")
    } else {
        node_type.clone()
    }
}

/// Label of a call node.
fn call_label(function_name: &String) -> (r: String)
    ensures
        r@ == cfg_node_view(CfgNode::Call { function_name: *function_name }).label,
{
    let name = function_name.as_str();
    if name.unicode_len() > LABEL_WIDTH {
        String::from_str("call:").concat(name.substring_char(0, LABEL_KEPT))
    } else {
        String::from_str("call:").concat(name)
    }
}

/// Lays out the nodes of a chain with their edges.
fn chain(nodes: Vec<FlowNode>) -> (r: Flowchart)
    requires
        forall|i: int| 0 <= i < nodes@.len() ==> (#[trigger] nodes@[i]).id == i,
    ensures
        r.nodes@ == nodes@,
        r.edges@ == chain_edges(nodes@.map_values(|n: FlowNode| node_view(n))),
{
    let ghost vs = nodes@.map_values(|n: FlowNode| node_view(n));
    let mut edges: Vec<FlowEdge> = Vec::new();
    let n = nodes.len();
    if n == 0 {
        edges.push(FlowEdge { from: FlowPoint::Start, to: FlowPoint::End, repeat: false });
        assert(edges@ =~= chain_edges(vs));
        return Flowchart { nodes, edges };
    }
    edges.push(FlowEdge { from: FlowPoint::Start, to: FlowPoint::Node(0), repeat: false });
    let mut i: usize = 0;
    while i < n
        invariant
            n == nodes@.len(),
            vs == nodes@.map_values(|n: FlowNode| node_view(n)),
            i <= n,
            edges@ == seq![FlowEdge { from: FlowPoint::Start, to: FlowPoint::Node(0), repeat: false }]
                + body_edges(vs.take(i as int)),
        decreases n - i,
    {
        let ghost before = edges@;
        if nodes[i].is_loop {
            edges.push(FlowEdge { from: FlowPoint::Node(i), to: FlowPoint::Node(i), repeat: true });
        }
        if i > 0 {
            edges.push(FlowEdge { from: FlowPoint::Node(i - 1), to: FlowPoint::Node(i), repeat: false });
        }
        assert(vs.take(i + 1).drop_last() =~= vs.take(i as int));
        assert(edges@ =~= before + step_edges(i as nat, vs[i as int].is_loop));
        assert(edges@ =~= seq![FlowEdge { from: FlowPoint::Start, to: FlowPoint::Node(0), repeat: false }]
            + body_edges(vs.take(i + 1)));
        i += 1;
    }
    edges.push(FlowEdge { from: FlowPoint::Node(n - 1), to: FlowPoint::End, repeat: false });
    assert(vs.take(n as int) =~= vs);
    assert(edges@ =~= chain_edges(vs));
    Flowchart { nodes, edges }
}

/// A graph never shows more nodes than it has.
pub proof fn lemma_shown_len(ns: Seq<CfgNode>)
    ensures
        shown_views(ns).len() <= ns.len(),
    decreases ns.len(),
{
    if ns.len() > 0 {
        lemma_shown_len(ns.drop_last());
    }
}

/// Nodes of the flowchart of a graph's node list.
fn cfg_flow_nodes(ns: &Vec<CfgNode>) -> (r: Vec<FlowNode>)
    ensures
        r@.map_values(|n: FlowNode| node_view(n)) == cfg_flow_views(ns@),
        forall|i: int| 0 <= i < r@.len() ==> (#[trigger] r@[i]).id == i,
{
    let limit = if ns.len() > NODE_BUDGET {
        NODE_BUDGET
    } else {
        ns.len()
    };
    let ghost b = budgeted(ns@);
    assert(b =~= ns@.take(limit as int));
    let mut out: Vec<FlowNode> = Vec::new();
    let mut i: usize = 0;
    while i < limit
        invariant
            limit <= ns@.len(),
            b == ns@.take(limit as int),
            i <= limit,
            out@.map_values(|n: FlowNode| node_view(n)) == shown_views(b.take(i as int)),
            forall|k: int| 0 <= k < out@.len() ==> (#[trigger] out@[k]).id == k,
        decreases limit - i,
    {
        assert(b.take(i + 1).drop_last() =~= b.take(i as int));
        assert(b.take(i + 1).last() == ns@[i as int]);
        let ghost before = out@;
        let id = out.len();
        match &ns[i] {
            CfgNode::Branch { node_type } => {
                let label = branch_label(node_type);
                let is_loop = contains(node_type.as_str(), "for") || contains(node_type.as_str(), "while")
                    || contains(node_type.as_str(), "loop");
                out.push(FlowNode { id, label, is_loop, is_branch: true });
            },
            CfgNode::Call { function_name } => {
                let label = call_label(function_name);
                out.push(FlowNode { id, label, is_loop: false, is_branch: false });
            },
            CfgNode::Other => {},
        }
        assert(out@.map_values(|n: FlowNode| node_view(n)) =~= shown_views(b.take(i + 1)));
        i += 1;
    }
    assert(b.take(limit as int) =~= b);
    out
}

/// Nodes of the flowchart of a symbol list.
fn symbol_flow_nodes(symbols: &Vec<Symbol>) -> (r: Vec<FlowNode>)
    ensures
        r@.map_values(|n: FlowNode| node_view(n)) == symbol_flow_views(symbols@),
        forall|i: int| 0 <= i < r@.len() ==> (#[trigger] r@[i]).id == i,
{
    let limit = if symbols.len() > NODE_BUDGET {
        NODE_BUDGET
    } else {
        symbols.len()
    };
    let mut out: Vec<FlowNode> = Vec::new();
    let mut i: usize = 0;
    while i < limit
        invariant
            limit <= symbols@.len(),
            limit == budgeted(symbols@).len(),
            i <= limit,
            out@.len() == i,
            forall|k: int| 0 <= k < i ==> node_view(#[trigger] out@[k]) == symbol_flow_views(symbols@)[k],
            forall|k: int| 0 <= k < out@.len() ==> (#[trigger] out@[k]).id == k,
        decreases limit - i,
    {
        out.push(FlowNode { id: i, label: symbols[i].name.clone(), is_loop: false, is_branch: false });
        i += 1;
    }
    assert(out@.map_values(|n: FlowNode| node_view(n)) =~= symbol_flow_views(symbols@));
    out
}

/// Node views of the flowchart of a file: those of its graph where a usable
/// graph shows at least one node, else those of its symbols.
pub open spec fn flow_views(cfg: Option<ControlFlowGraph>, syms: Seq<Symbol>) -> Seq<FlowNodeView> {
    if usable(cfg) && cfg_flow_views(cfg->0.nodes@).len() > 0 {
        cfg_flow_views(cfg->0.nodes@)
    } else {
        symbol_flow_views(syms)
    }
}

/// Renders the flowchart of a file from its graph, if one could be built,
/// and its symbols.
pub fn render_flowchart(cfg: &Option<ControlFlowGraph>, symbols: &Vec<Symbol>) -> (r: Flowchart)
    ensures
        is_chart_of(flow_views(*cfg, symbols@), r),
        r.nodes@.len() <= NODE_BUDGET,
{
    let from_graph = match cfg {
        Some(g) if g.nodes.len() > 0 => cfg_flow_nodes(&g.nodes),
        _ => Vec::new(),
    };
    let nodes = if from_graph.len() > 0 {
        from_graph
    } else {
        symbol_flow_nodes(symbols)
    };
    let ghost vs = nodes@.map_values(|n: FlowNode| node_view(n));
    proof {
        if usable(*cfg) {
            lemma_shown_len(budgeted(cfg->0.nodes@));
        }
        assert(vs == flow_views(*cfg, symbols@));
    }
    let r = chain(nodes);
    assert forall|i: int| 0 <= i < vs.len() implies (#[trigger] r.nodes@[i]).id == i && node_view(r.nodes@[i]) == vs[i] by {
        assert(vs[i] == node_view(r.nodes@[i]));
    }
    r
}

} // verus!
