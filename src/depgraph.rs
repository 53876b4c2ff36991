//! The dependency overview of a site: its files as a chain of nodes, each
//! identified by the CRC-32 checksum of its path.

use vstd::prelude::*;
use vstd::utf8::encode_utf8;

verus! {

/// The CRC-32 checksum that `crc32fast::hash` computes over these bytes.
pub uninterp spec fn crc32_of(bytes: Seq<u8>) -> u32;

/// Relies on `crc32fast::hash`: the CRC-32 checksum of a byte slice, which
/// depends on the bytes alone.
#[verifier::external_body]
fn checksum(bytes: &[u8]) -> (r: u32)
    ensures
        r == crc32_of(bytes@),
{
    crc32fast::hash(bytes)
}

/// A file of the overview.
#[derive(Clone, Debug)]
pub struct DependencyNode {
    pub id: u32,
    pub label: String,
}

/// An edge of the overview, between node ids.
#[derive(Clone, Copy, Debug, PartialEq, Eq, Structural)]
pub struct DependencyEdge {
    pub from: u32,
    pub to: u32,
}

/// Nodes and edges of the overview.
#[derive(Clone, Debug)]
pub struct DependencyGraph {
    pub nodes: Vec<DependencyNode>,
    pub edges: Vec<DependencyEdge>,
}

/// `g` chains the files `paths` with node ids `ids`: one node per file in
/// order, and an edge from each node to the next.
pub open spec fn is_chain_of(paths: Seq<String>, ids: Seq<u32>, g: DependencyGraph) -> bool {
    &&& g.nodes@.len() == paths.len()
    &&& forall|i: int|
        0 <= i < paths.len() ==> (#[trigger] g.nodes@[i]).id == ids[i] && g.nodes@[i].label@ == paths[i]@
    &&& g.edges@.len() == if paths.len() == 0 {
        0
    } else {
        paths.len() - 1
    }
    &&& forall|i: int|
        0 <= i < g.edges@.len() ==> #[trigger] g.edges@[i] == (DependencyEdge { from: ids[i], to: ids[i + 1] })
}

/// Chains the files `paths` with the given node ids.
pub fn dependency_chain(paths: &Vec<String>, ids: &Vec<u32>) -> (r: DependencyGraph)
    requires
        paths@.len() == ids@.len(),
    ensures
        is_chain_of(paths@, ids@, r),
{
    let mut nodes: Vec<DependencyNode> = Vec::new();
    let mut edges: Vec<DependencyEdge> = Vec::new();
    let mut i: usize = 0;
    while i < paths.len()
        invariant
            paths@.len() == ids@.len(),
            i <= paths@.len(),
            nodes@.len() == i,
            forall|k: int| 0 <= k < i ==> (#[trigger] nodes@[k]).id == ids[k] && nodes@[k].label@ == paths[k]@,
            edges@.len() == if i == 0 {
                0
            } else {
                i - 1
            },
            forall|k: int| 0 <= k < edges@.len() ==> #[trigger] edges@[k] == (DependencyEdge { from: ids[k], to: ids[k + 1] }),
        decreases paths@.len() - i,
    {
        if i > 0 {
            edges.push(DependencyEdge { from: ids[i - 1], to: ids[i] });
        }
        nodes.push(DependencyNode { id: ids[i], label: paths[i].clone() });
        i += 1;
    }
    DependencyGraph { nodes, edges }
}

/// The overview of the files `paths`: each node's id is the checksum of the
/// UTF-8 bytes of its path.
pub fn build_simple_dependency_graph(paths: &Vec<String>) -> (r: DependencyGraph)
    ensures
        is_chain_of(paths@, paths@.map_values(|p: String| crc32_of(encode_utf8(p@))), r),
{
    let mut ids: Vec<u32> = Vec::new();
    let mut i: usize = 0;
    while i < paths.len()
        invariant
            i <= paths@.len(),
            ids@.len() == i,
            forall|k: int| 0 <= k < i ==> #[trigger] ids@[k] == crc32_of(encode_utf8(paths@[k]@)),
        decreases paths@.len() - i,
    {
        ids.push(checksum(paths[i].as_str().as_bytes()));
        i += 1;
    }
    assert(ids@ =~= paths@.map_values(|p: String| crc32_of(encode_utf8(p@))));
    dependency_chain(paths, &ids)
}

} // verus!
