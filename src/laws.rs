//! Properties that hold of every input, stated over the specifications of
//! the functions they relate.

use crate::diagram::{describe_spec, descriptor_view, flowchart_view, DiagramDescriptor, DiagramView};
use crate::flowchart::{budgeted, flow_views, lemma_shown_len, NODE_BUDGET};
use crate::sequence::{pairs_view, CallPair};
use crate::signals::{usable, ControlFlowGraph};
use crate::symbols::Symbol;
use vstd::prelude::*;

verus! {

/// A flowchart shows at most `NODE_BUDGET` nodes, however many nodes the
/// graph it comes from has.
pub proof fn flowchart_within_budget(syms: Seq<Symbol>, cfg: Option<ControlFlowGraph>)
    ensures
        flow_views(cfg, syms).len() <= NODE_BUDGET,
{
    if usable(cfg) {
        lemma_shown_len(budgeted(cfg->0.nodes@));
    }
}

/// Every flowchart among the diagrams of a file shows at most `NODE_BUDGET`
/// nodes.
pub proof fn described_flowcharts_within_budget(
    syms: Seq<Symbol>,
    cfg: Option<ControlFlowGraph>,
    kinds: Option<Vec<String>>,
    pairs: Option<Seq<(Seq<char>, Seq<char>)>>,
)
    ensures
        forall|k: int|
            0 <= k < describe_spec(syms, cfg, kinds, pairs).len() ==> (#[trigger] describe_spec(
                syms,
                cfg,
                kinds,
                pairs,
            )[k] matches DiagramView::Flowchart(nodes, _) ==> nodes.len() <= NODE_BUDGET),
{
    flowchart_within_budget(syms, cfg);
    assert(flowchart_view(cfg, syms) matches DiagramView::Flowchart(nodes, _) && nodes.len() <= NODE_BUDGET);
}

/// Describing a file twice from the same inputs gives the same diagrams:
/// what `describe_file` returns depends on its inputs alone.
pub proof fn description_is_deterministic(
    first: Seq<DiagramDescriptor>,
    second: Seq<DiagramDescriptor>,
    syms: Seq<Symbol>,
    cfg: Option<ControlFlowGraph>,
    kinds: Option<Vec<String>>,
    pairs: Option<Vec<CallPair>>,
)
    requires
        first.map_values(|d: DiagramDescriptor| descriptor_view(d)) == describe_spec(
            syms,
            cfg,
            kinds,
            pairs_view(pairs),
        ),
        second.map_values(|d: DiagramDescriptor| descriptor_view(d)) == describe_spec(
            syms,
            cfg,
            kinds,
            pairs_view(pairs),
        ),
    ensures
        first.map_values(|d: DiagramDescriptor| descriptor_view(d)) == second.map_values(
            |d: DiagramDescriptor| descriptor_view(d),
        ),
{
}

} // verus!
