//! Control-flow signals of a file: whether it branches, and which calls it
//! makes, from its control-flow graph or, without one, from the kinds of its
//! syntax nodes.

use crate::symbols::same_text;
use vstd::prelude::*;

verus! {

/// A node of a control-flow graph built outside this library.
#[derive(Clone, Debug)]
pub enum CfgNode {
    /// A decision point; `node_type` is the syntax kind (`"if_expression"`,
    /// `"for_statement"`, ...).
    Branch { node_type: String },
    /// A call of `function_name`.
    Call { function_name: String },
    /// Any other node.
    Other,
}

/// What a control-flow graph of a file exposes: its nodes in order, how many
/// decision points it has, and the callee names of its calls in order.
#[derive(Clone, Debug)]
pub struct ControlFlowGraph {
    pub nodes: Vec<CfgNode>,
    pub decision_points: usize,
    pub call_sequence: Vec<String>,
}

/// Whether a file branches, and the calls its graph lists.
#[derive(Clone, Debug)]
pub struct ControlFlowSignals {
    pub has_decision_point: bool,
    pub call_sequence: Vec<String>,
}

/// Syntax kinds that make a decision, across the languages analysed.
pub open spec fn branch_kinds() -> Seq<Seq<char>> {
    seq![
        "if_expression"@,
        "match_expression"@,
        "while_expression"@,
        "while_let_expression"@,
        "for_expression"@,
        "loop_expression"@,
        "if_statement"@,
        "switch_statement"@,
        "conditional_expression"@,
        "for_statement"@,
        "while_statement"@,
        "do_statement"@,
    ]
}

/// Whether `kind` is one of [`branch_kinds`].
pub fn is_branch_kind(kind: &str) -> (r: bool)
    ensures
        r == branch_kinds().contains(kind@),
{
    let names = [
        "if_expression",
        "match_expression",
        "while_expression",
        "while_let_expression",
        "for_expression",
        "loop_expression",
        "if_statement",
        "switch_statement",
        "conditional_expression",
        "for_statement",
        "while_statement",
        "do_statement",
    ];
    let ghost views = names@.map_values(|s: &str| s@);
    assert(views =~= branch_kinds());
    let mut i: usize = 0;
    while i < 12
        invariant
            i <= 12,
            names@.len() == 12,
            views == names@.map_values(|s: &str| s@),
            views == branch_kinds(),
            forall|k: int| 0 <= k < i ==> views[k] != kind@,
        decreases 12 - i,
    {
        if same_text(names[i], kind) {
            assert(views[i as int] == kind@);
            return true;
        }
        i += 1;
    }
    false
}

/// Some syntax kind of `kinds` makes a decision.
pub open spec fn any_branch_kind(kinds: Seq<String>) -> bool {
    exists|i: int| 0 <= i < kinds.len() && branch_kinds().contains(#[trigger] kinds[i]@)
}

/// Whether any of the syntax kinds found in a file makes a decision.
pub fn has_branch_kind(kinds: &Vec<String>) -> (r: bool)
    ensures
        r == any_branch_kind(kinds@),
{
    let mut i: usize = 0;
    while i < kinds.len()
        invariant
            i <= kinds@.len(),
            forall|k: int| 0 <= k < i ==> !branch_kinds().contains(#[trigger] kinds@[k]@),
        decreases kinds@.len() - i,
    {
        if is_branch_kind(kinds[i].as_str()) {
            return true;
        }
        i += 1;
    }
    false
}

/// A graph is usable where it has at least one node.
pub open spec fn usable(cfg: Option<ControlFlowGraph>) -> bool {
    cfg matches Some(g) && g.nodes@.len() > 0
}

/// Branching as signalled: by the graph's decision points where a usable
/// graph is given, else by the syntax kinds where they are given, else not.
pub open spec fn branching_spec(cfg: Option<ControlFlowGraph>, kinds: Option<Vec<String>>) -> bool {
    if usable(cfg) {
        cfg->0.decision_points > 0
    } else {
        match kinds {
            Some(k) => any_branch_kind(k@),
            None => false,
        }
    }
}

/// Calls as signalled: the graph's call listing where a usable graph is
/// given, else none.
pub open spec fn calls_spec(cfg: Option<ControlFlowGraph>) -> Seq<Seq<char>> {
    if usable(cfg) {
        cfg->0.call_sequence@.map_values(|s: String| s@)
    } else {
        seq![]
    }
}

/// Extracts the signals of a file from its graph, if one could be built,
/// and the syntax kinds found in it, if it could be parsed. Never fails:
/// without either, the file counts as not branching and without calls.
pub fn extract_signals(cfg: &Option<ControlFlowGraph>, kinds: &Option<Vec<String>>) -> (r: ControlFlowSignals)
    ensures
        r.has_decision_point == branching_spec(*cfg, *kinds),
        r.call_sequence@.map_values(|s: String| s@) == calls_spec(*cfg),
{
    match cfg {
        Some(g) if g.nodes.len() > 0 => {
            let mut calls: Vec<String> = Vec::new();
            let mut i: usize = 0;
            while i < g.call_sequence.len()
                invariant
                    i <= g.call_sequence@.len(),
                    calls@ == g.call_sequence@.take(i as int),
                decreases g.call_sequence@.len() - i,
            {
                let c = g.call_sequence[i].clone();
                calls.push(c);
                assert(calls@ =~= g.call_sequence@.take(i + 1));
                i += 1;
            }
            assert(g.call_sequence@.take(g.call_sequence@.len() as int) =~= g.call_sequence@);
            ControlFlowSignals { has_decision_point: g.decision_points > 0, call_sequence: calls }
        },
        _ => {
            let has = match kinds {
                Some(k) => has_branch_kind(k),
                None => false,
            };
            ControlFlowSignals { has_decision_point: has, call_sequence: Vec::new() }
        },
    }
}

} // verus!
