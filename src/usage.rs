//! Diagrams of a file's usage page: a call graph guessed from function
//! names, the flow from its types through its functions, and the map of
//! which functions use which types and which types implement which
//! interfaces. All three are naming heuristics.

use crate::symbols::{names_of_kind, same_chars, symbols_of_kind, Symbol, SymbolKind};
use crate::text::{chars_of, contains_chars, contains_seq, lower_of, to_lower};
use vstd::prelude::*;

verus! {

/// The words of a name between underscores, as `str::split('_')` gives
/// them (an empty name is one empty word).
pub open spec fn split_words(s: Seq<char>) -> Seq<Seq<char>>
    decreases s.len(),
{
    if s.len() == 0 {
        seq![seq![]]
    } else {
        let parts = split_words(s.drop_last());
        if s.last() == '_' {
            parts.push(seq![])
        } else {
            parts.update(parts.len() - 1, parts.last().push(s.last()))
        }
    }
}

/// The words of a name (see [`split_words`]).
pub fn words_of(s: &str) -> (r: Vec<Vec<char>>)
    ensures
        r@.map_values(|w: Vec<char>| w@) == split_words(s@),
        r@.len() >= 1,
{
    let cs = chars_of(s);
    let mut words: Vec<Vec<char>> = Vec::new();
    words.push(Vec::new());
    let mut i: usize = 0;
    assert(words@.map_values(|w: Vec<char>| w@) =~= split_words(s@.take(0)));
    while i < cs.len()
        invariant
            cs@ == s@,
            i <= cs@.len(),
            words@.len() >= 1,
            words@.map_values(|w: Vec<char>| w@) == split_words(s@.take(i as int)),
        decreases cs@.len() - i,
    {
        assert(s@.take(i + 1).drop_last() =~= s@.take(i as int));
        assert(s@.take(i + 1).last() == cs@[i as int]);
        let ghost before = words@.map_values(|w: Vec<char>| w@);
        let c = cs[i];
        if c == '_' {
            words.push(Vec::new());
            assert(words@.map_values(|w: Vec<char>| w@) =~= before.push(seq![]));
        } else {
            let mut w = words.pop().unwrap();
            let ghost rest = words@;
            w.push(c);
            words.push(w);
            assert(words@.map_values(|w: Vec<char>| w@) =~= before.update(
                before.len() - 1,
                before.last().push(c),
            ));
        }
        i += 1;
    }
    assert(s@.take(cs@.len() as int) =~= s@);
    words
}

/// Some word of the caller occurs in a longer word of the callee.
pub open spec fn shares_word_root(a: Seq<Seq<char>>, b: Seq<Seq<char>>) -> bool {
    exists|i: int, j: int|
        0 <= i < a.len() && 0 <= j < b.len() && contains_seq(#[trigger] b[j], #[trigger] a[i]) && b[j].len()
            > a[i].len()
}

/// The names suggest that `caller` calls `callee`: a word of the caller
/// occurs in a longer word of the callee, or a handler hands over to a
/// processing function.
pub open spec fn suggests_call(caller: Seq<char>, callee: Seq<char>) -> bool {
    let a = split_words(caller);
    let b = split_words(callee);
    shares_word_root(a, b) || (a.last() == "handler"@ && b[0] == "process"@)
}

/// Whether the names suggest a call (see [`suggests_call`]).
pub fn names_suggest_call(caller: &str, callee: &str) -> (r: bool)
    ensures
        r == suggests_call(caller@, callee@),
{
    let a = words_of(caller);
    let b = words_of(callee);
    let ghost av = a@.map_values(|w: Vec<char>| w@);
    let ghost bv = b@.map_values(|w: Vec<char>| w@);
    let mut found = false;
    let mut i: usize = 0;
    while i < a.len() && !found
        invariant
            i <= a@.len(),
            av == a@.map_values(|w: Vec<char>| w@),
            bv == b@.map_values(|w: Vec<char>| w@),
            found ==> shares_word_root(av, bv),
            !found ==> forall|x: int, y: int|
                0 <= x < i && 0 <= y < bv.len() ==> !(contains_seq(#[trigger] bv[y], #[trigger] av[x]) && bv[y].len()
                    > av[x].len()),
        decreases a@.len() - i + (if found { 0int } else { 1int }),
    {
        let mut j: usize = 0;
        while j < b.len() && !found
            invariant
                i < a@.len(),
                j <= b@.len(),
                av == a@.map_values(|w: Vec<char>| w@),
                bv == b@.map_values(|w: Vec<char>| w@),
                found ==> shares_word_root(av, bv),
                !found ==> forall|x: int, y: int|
                    0 <= x < i && 0 <= y < bv.len() ==> !(contains_seq(#[trigger] bv[y], #[trigger] av[x])
                        && bv[y].len() > av[x].len()),
                !found ==> forall|y: int|
                    0 <= y < j ==> !(contains_seq(#[trigger] bv[y], av[i as int]) && bv[y].len() > av[i as int].len()),
            decreases b@.len() - j + (if found { 0int } else { 1int }),
        {
            if b[j].len() > a[i].len() && contains_chars(&b[j], &a[i]) {
                assert(contains_seq(bv[j as int], av[i as int]) && bv[j as int].len() > av[i as int].len());
                found = true;
            } else {
                j += 1;
            }
        }
        if !found {
            i += 1;
        }
    }
    if found {
        return true;
    }
    let handler = chars_of("handler");
    let process = chars_of("process");
    same_chars(&a[a.len() - 1], &handler) && same_chars(&b[0], &process)
}

/// An edge between two named symbols.
#[derive(Clone, Debug)]
pub struct NamedEdge {
    pub from: String,
    pub to: String,
}

/// The names an edge joins.
pub open spec fn edge_view(e: NamedEdge) -> (Seq<char>, Seq<char>) {
    (e.from@, e.to@)
}

/// Pairs `(x, y)` for the `y` of `ys` related to `x`, in order.
pub open spec fn row_pairs(
    x: Seq<char>,
    ys: Seq<Seq<char>>,
    rel: spec_fn(Seq<char>, Seq<char>) -> bool,
) -> Seq<(Seq<char>, Seq<char>)>
    decreases ys.len(),
{
    if ys.len() == 0 {
        seq![]
    } else {
        row_pairs(x, ys.drop_last(), rel) + if rel(x, ys.last()) {
            seq![(x, ys.last())]
        } else {
            seq![]
        }
    }
}

/// Related pairs `(x, y)` of `xs` × `ys`, row by row.
pub open spec fn related_pairs(
    xs: Seq<Seq<char>>,
    ys: Seq<Seq<char>>,
    rel: spec_fn(Seq<char>, Seq<char>) -> bool,
) -> Seq<(Seq<char>, Seq<char>)>
    decreases xs.len(),
{
    if xs.len() == 0 {
        seq![]
    } else {
        related_pairs(xs.drop_last(), ys, rel) + row_pairs(xs.last(), ys, rel)
    }
}

/// Edges for the related pairs of `xs` × `ys`, where `test(i, j)` tells
/// whether `xs[i]` and `ys[j]` are related.
fn collect_pairs<F: Fn(usize, usize) -> bool>(
    xs: &Vec<String>,
    ys: &Vec<String>,
    test: F,
    Ghost(rel): Ghost<spec_fn(Seq<char>, Seq<char>) -> bool>,
) -> (r: Vec<NamedEdge>)
    requires
        forall|i: usize, j: usize| i < xs@.len() && j < ys@.len() ==> #[trigger] test.requires((i, j)),
        forall|i: usize, j: usize, b: bool|
            i < xs@.len() && j < ys@.len() && #[trigger] test.ensures((i, j), b) ==> b == rel(xs@[i as int]@, ys@[j as int]@),
    ensures
        r@.map_values(|e: NamedEdge| edge_view(e)) == related_pairs(
            xs@.map_values(|s: String| s@),
            ys@.map_values(|s: String| s@),
            rel,
        ),
{
    let ghost xv = xs@.map_values(|s: String| s@);
    let ghost yv = ys@.map_values(|s: String| s@);
    let mut r: Vec<NamedEdge> = Vec::new();
    let mut i: usize = 0;
    while i < xs.len()
        invariant
            i <= xs@.len(),
            xv == xs@.map_values(|s: String| s@),
            yv == ys@.map_values(|s: String| s@),
            forall|i: usize, j: usize| i < xs@.len() && j < ys@.len() ==> #[trigger] test.requires((i, j)),
            forall|i: usize, j: usize, b: bool|
                i < xs@.len() && j < ys@.len() && #[trigger] test.ensures((i, j), b) ==> b == rel(xs@[i as int]@, ys@[j as int]@),
            r@.map_values(|e: NamedEdge| edge_view(e)) == related_pairs(xv.take(i as int), yv, rel),
        decreases xs@.len() - i,
    {
        let ghost start = r@.map_values(|e: NamedEdge| edge_view(e));
        let mut j: usize = 0;
        while j < ys.len()
            invariant
                i < xs@.len(),
                j <= ys@.len(),
                xv == xs@.map_values(|s: String| s@),
                yv == ys@.map_values(|s: String| s@),
                forall|i: usize, j: usize| i < xs@.len() && j < ys@.len() ==> #[trigger] test.requires((i, j)),
                forall|i: usize, j: usize, b: bool|
                    i < xs@.len() && j < ys@.len() && #[trigger] test.ensures((i, j), b) ==> b == rel(xs@[i as int]@, ys@[j as int]@),
                r@.map_values(|e: NamedEdge| edge_view(e)) == start + row_pairs(xv[i as int], yv.take(j as int), rel),
            decreases ys@.len() - j,
        {
            assert(yv.take(j + 1).drop_last() =~= yv.take(j as int));
            assert(yv.take(j + 1).last() == ys@[j as int]@);
            let ghost before = r@.map_values(|e: NamedEdge| edge_view(e));
            let keep = test(i, j);
            if keep {
                r.push(NamedEdge { from: xs[i].clone(), to: ys[j].clone() });
                assert(r@.map_values(|e: NamedEdge| edge_view(e)) =~= before.push((xv[i as int], yv[j as int])));
            }
            assert(r@.map_values(|e: NamedEdge| edge_view(e)) =~= start + row_pairs(
                xv[i as int],
                yv.take(j + 1),
                rel,
            ));
            j += 1;
        }
        assert(yv.take(ys@.len() as int) =~= yv);
        assert(xv.take(i + 1).drop_last() =~= xv.take(i as int));
        assert(xv.take(i + 1).last() == xv[i as int]);
        assert(r@.map_values(|e: NamedEdge| edge_view(e)) =~= related_pairs(xv.take(i + 1), yv, rel));
        i += 1;
    }
    assert(xv.take(xs@.len() as int) =~= xv);
    r
}

/// Calls the call graph shows: between two different functions whose names
/// suggest a call.
pub open spec fn call_relation() -> spec_fn(Seq<char>, Seq<char>) -> bool {
    |a: Seq<char>, b: Seq<char>| a != b && suggests_call(a, b)
}

/// The functions of a file and the calls their names suggest.
#[derive(Clone, Debug)]
pub struct CallGraph {
    pub functions: Vec<String>,
    pub calls: Vec<NamedEdge>,
}

/// The call graph of a file's symbols.
pub fn build_call_graph_diagram(symbols: &Vec<Symbol>) -> (r: CallGraph)
    ensures
        r.functions@.map_values(|s: String| s@) == names_of_kind(symbols@, SymbolKind::Function),
        r.calls@.map_values(|e: NamedEdge| edge_view(e)) == related_pairs(
            names_of_kind(symbols@, SymbolKind::Function),
            names_of_kind(symbols@, SymbolKind::Function),
            call_relation(),
        ),
{
    let fs = symbols_of_kind(symbols, SymbolKind::Function);
    let ghost rel = call_relation();
    let test = |i: usize, j: usize| -> (b: bool)
        requires
            i < fs@.len(),
            j < fs@.len(),
        ensures
            b == (fs@[i as int]@ != fs@[j as int]@ && suggests_call(fs@[i as int]@, fs@[j as int]@)),
        { fs[i] != fs[j] && names_suggest_call(fs[i].as_str(), fs[j].as_str()) };
    let calls = collect_pairs(&fs, &fs, test, Ghost(rel));
    CallGraph { functions: fs, calls }
}

/// A function uses a type whose name its lowercased name holds.
pub open spec fn uses_relation() -> spec_fn(Seq<char>, Seq<char>) -> bool {
    |f: Seq<char>, t: Seq<char>| contains_seq(lower_of(f), lower_of(t))
}

/// A type implements an interface where either lowercased name holds the
/// other.
pub open spec fn implements_relation() -> spec_fn(Seq<char>, Seq<char>) -> bool {
    |t: Seq<char>, i: Seq<char>| contains_seq(lower_of(t), lower_of(i)) || contains_seq(lower_of(i), lower_of(t))
}

/// Whether the lowercased `a` holds the lowercased `b`.
fn holds_lowercased(a: &String, b: &String) -> (r: bool)
    ensures
        r == contains_seq(lower_of(a@), lower_of(b@)),
{
    let la = chars_of(to_lower(a.as_str()).as_str());
    let lb = chars_of(to_lower(b.as_str()).as_str());
    contains_chars(&la, &lb)
}

/// Types and interfaces of a file, which functions use which types, and
/// which types implement which interfaces.
#[derive(Clone, Debug)]
pub struct DependencyMap {
    pub types: Vec<String>,
    pub interfaces: Vec<String>,
    pub uses: Vec<NamedEdge>,
    pub implements: Vec<NamedEdge>,
}

/// The dependency map of a file's symbols.
pub fn build_dependency_map(symbols: &Vec<Symbol>) -> (r: DependencyMap)
    ensures
        r.types@.map_values(|s: String| s@) == names_of_kind(symbols@, SymbolKind::Type),
        r.interfaces@.map_values(|s: String| s@) == names_of_kind(symbols@, SymbolKind::Interface),
        r.uses@.map_values(|e: NamedEdge| edge_view(e)) == related_pairs(
            names_of_kind(symbols@, SymbolKind::Function),
            names_of_kind(symbols@, SymbolKind::Type),
            uses_relation(),
        ),
        r.implements@.map_values(|e: NamedEdge| edge_view(e)) == related_pairs(
            names_of_kind(symbols@, SymbolKind::Type),
            names_of_kind(symbols@, SymbolKind::Interface),
            implements_relation(),
        ),
{
    let fs = symbols_of_kind(symbols, SymbolKind::Function);
    let ts = symbols_of_kind(symbols, SymbolKind::Type);
    let is = symbols_of_kind(symbols, SymbolKind::Interface);
    let uses_test = |i: usize, j: usize| -> (b: bool)
        requires
            i < fs@.len(),
            j < ts@.len(),
        ensures
            b == contains_seq(lower_of(fs@[i as int]@), lower_of(ts@[j as int]@)),
        { holds_lowercased(&fs[i], &ts[j]) };
    let uses = collect_pairs(&fs, &ts, uses_test, Ghost(uses_relation()));
    let implements_test = |i: usize, j: usize| -> (b: bool)
        requires
            i < ts@.len(),
            j < is@.len(),
        ensures
            b == (contains_seq(lower_of(ts@[i as int]@), lower_of(is@[j as int]@)) || contains_seq(
                lower_of(is@[j as int]@),
                lower_of(ts@[i as int]@),
            )),
        { holds_lowercased(&ts[i], &is[j]) || holds_lowercased(&is[j], &ts[i]) };
    let implements = collect_pairs(&ts, &is, implements_test, Ghost(implements_relation()));
    DependencyMap { types: ts, interfaces: is, uses, implements }
}

/// An end point of the usage flow.
#[derive(Clone, Copy, Debug, PartialEq, Eq, Structural)]
pub enum UsagePoint {
    /// The user input the flow starts from.
    Start,
    /// The result the flow ends in.
    End,
    /// The type at this position among the file's types.
    Type(usize),
    /// The function at this position among the file's functions.
    Function(usize),
}

/// An edge of the usage flow.
#[derive(Clone, Copy, Debug, PartialEq, Eq, Structural)]
pub struct UsageEdge {
    pub from: UsagePoint,
    pub to: UsagePoint,
}

/// The usage flow of a file: from the input to each type, from the first
/// type (or the input) through the functions in order, to the result.
#[derive(Clone, Debug)]
pub struct UsageFlow {
    pub types: Vec<String>,
    pub functions: Vec<String>,
    pub edges: Vec<UsageEdge>,
}

/// Edges of the usage flow of a file with `nt` types and `nf` functions.
pub open spec fn usage_edges(nt: nat, nf: nat) -> Seq<UsageEdge> {
    Seq::new(nt, |k: int| UsageEdge { from: UsagePoint::Start, to: UsagePoint::Type(k as usize) }) + if nf > 0 {
        seq![
            UsageEdge {
                from: if nt > 0 {
                    UsagePoint::Type(0)
                } else {
                    UsagePoint::Start
                },
                to: UsagePoint::Function(0),
            },
        ] + Seq::new(
            (nf - 1) as nat,
            |i: int| UsageEdge { from: UsagePoint::Function(i as usize), to: UsagePoint::Function((i + 1) as usize) },
        ) + seq![UsageEdge { from: UsagePoint::Function((nf - 1) as usize), to: UsagePoint::End }]
    } else {
        seq![]
    }
}

/// The usage flow of a file's symbols.
pub fn build_usage_flow_diagram(symbols: &Vec<Symbol>) -> (r: UsageFlow)
    ensures
        r.types@.map_values(|s: String| s@) == names_of_kind(symbols@, SymbolKind::Type),
        r.functions@.map_values(|s: String| s@) == names_of_kind(symbols@, SymbolKind::Function),
        r.edges@ == usage_edges(r.types@.len(), r.functions@.len()),
{
    let ts = symbols_of_kind(symbols, SymbolKind::Type);
    let fs = symbols_of_kind(symbols, SymbolKind::Function);
    let nt = ts.len();
    let nf = fs.len();
    let mut edges: Vec<UsageEdge> = Vec::new();
    let mut k: usize = 0;
    while k < nt
        invariant
            k <= nt,
            edges@ == Seq::new(k as nat, |k: int| UsageEdge { from: UsagePoint::Start, to: UsagePoint::Type(k as usize) }),
        decreases nt - k,
    {
        edges.push(UsageEdge { from: UsagePoint::Start, to: UsagePoint::Type(k) });
        assert(edges@ =~= Seq::new((k + 1) as nat, |k: int| UsageEdge { from: UsagePoint::Start, to: UsagePoint::Type(k as usize) }));
        k += 1;
    }
    let ghost typed = edges@;
    if nf > 0 {
        let first = if nt > 0 {
            UsagePoint::Type(0)
        } else {
            UsagePoint::Start
        };
        edges.push(UsageEdge { from: first, to: UsagePoint::Function(0) });
        let ghost head = edges@;
        let mut i: usize = 0;
        while i + 1 < nf
            invariant
                nf > 0,
                i < nf,
                edges@ == head + Seq::new(
                    i as nat,
                    |i: int| UsageEdge { from: UsagePoint::Function(i as usize), to: UsagePoint::Function((i + 1) as usize) },
                ),
            decreases nf - i,
        {
            edges.push(UsageEdge { from: UsagePoint::Function(i), to: UsagePoint::Function(i + 1) });
            assert(edges@ =~= head + Seq::new(
                (i + 1) as nat,
                |i: int| UsageEdge { from: UsagePoint::Function(i as usize), to: UsagePoint::Function((i + 1) as usize) },
            ));
            i += 1;
        }
        edges.push(UsageEdge { from: UsagePoint::Function(nf - 1), to: UsagePoint::End });
    }
    assert(edges@ =~= usage_edges(nt as nat, nf as nat));
    UsageFlow { types: ts, functions: fs, edges }
}

} // verus!
