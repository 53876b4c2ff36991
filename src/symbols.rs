//! Symbols of a source file, as listed by an analyzer.

use crate::text::{chars_of, contains, contains_seq};
use vstd::prelude::*;

verus! {

/// What a symbol declares.
#[derive(Clone, Copy, Debug, PartialEq, Eq, Structural)]
pub enum SymbolKind {
    Function,
    Type,
    Interface,
    Other,
}

/// Kind named by an analyzer's kind text: function before type before
/// interface, by the words each kind text holds.
pub open spec fn kind_of_text(t: Seq<char>) -> SymbolKind {
    if contains_seq(t, "fn"@) || contains_seq(t, "function"@) {
        SymbolKind::Function
    } else if contains_seq(t, "struct"@) || contains_seq(t, "class"@) {
        SymbolKind::Type
    } else if contains_seq(t, "trait"@) || contains_seq(t, "interface"@) {
        SymbolKind::Interface
    } else {
        SymbolKind::Other
    }
}

impl SymbolKind {
    /// Classifies an analyzer's kind text (`"fn"`, `"struct"`, `"trait"`,
    /// `"function_declaration"`, ...).
    pub fn classify(text: &str) -> (r: SymbolKind)
        ensures
            r == kind_of_text(text@),
    {
        if contains(text, "fn") || contains(text, "function") {
            SymbolKind::Function
        } else if contains(text, "struct") || contains(text, "class") {
            SymbolKind::Type
        } else if contains(text, "trait") || contains(text, "interface") {
            SymbolKind::Interface
        } else {
            SymbolKind::Other
        }
    }
}

/// A declared symbol.
#[derive(Clone, Debug)]
pub struct Symbol {
    pub name: String,
    pub kind: SymbolKind,
}

/// A source file with its symbols in declaration order.
#[derive(Clone, Debug)]
pub struct FileInfo {
    pub path: String,
    pub language: String,
    pub symbols: Vec<Symbol>,
    pub lines: usize,
}

/// Names of the function symbols, in declaration order.
pub open spec fn function_names(syms: Seq<Symbol>) -> Seq<Seq<char>>
    decreases syms.len(),
{
    if syms.len() == 0 {
        seq![]
    } else {
        let rest = function_names(syms.drop_last());
        if syms.last().kind == SymbolKind::Function {
            rest.push(syms.last().name@)
        } else {
            rest
        }
    }
}

/// Names of the function symbols of `symbols`, in declaration order.
pub fn function_symbols(symbols: &Vec<Symbol>) -> (r: Vec<String>)
    ensures
        r@.map_values(|s: String| s@) == function_names(symbols@),
{
    let mut r: Vec<String> = Vec::new();
    let mut i: usize = 0;
    while i < symbols.len()
        invariant
            i <= symbols@.len(),
            r@.map_values(|s: String| s@) == function_names(symbols@.take(i as int)),
        decreases symbols@.len() - i,
    {
        assert(symbols@.take(i + 1).drop_last() =~= symbols@.take(i as int));
        if symbols[i].kind == SymbolKind::Function {
            r.push(symbols[i].name.clone());
        }
        assert(r@.map_values(|s: String| s@) =~= function_names(symbols@.take(i + 1)));
        i += 1;
    }
    assert(symbols@.take(symbols@.len() as int) =~= symbols@);
    r
}

/// Names of the symbols of kind `k`, in declaration order.
pub open spec fn names_of_kind(syms: Seq<Symbol>, k: SymbolKind) -> Seq<Seq<char>>
    decreases syms.len(),
{
    if syms.len() == 0 {
        seq![]
    } else {
        let rest = names_of_kind(syms.drop_last(), k);
        if syms.last().kind == k {
            rest.push(syms.last().name@)
        } else {
            rest
        }
    }
}

/// Names of the symbols of `symbols` of kind `kind`, in declaration order.
pub fn symbols_of_kind(symbols: &Vec<Symbol>, kind: SymbolKind) -> (r: Vec<String>)
    ensures
        r@.map_values(|s: String| s@) == names_of_kind(symbols@, kind),
{
    let mut r: Vec<String> = Vec::new();
    let mut i: usize = 0;
    while i < symbols.len()
        invariant
            i <= symbols@.len(),
            r@.map_values(|s: String| s@) == names_of_kind(symbols@.take(i as int), kind),
        decreases symbols@.len() - i,
    {
        assert(symbols@.take(i + 1).drop_last() =~= symbols@.take(i as int));
        if symbols[i].kind == kind {
            r.push(symbols[i].name.clone());
        }
        assert(r@.map_values(|s: String| s@) =~= names_of_kind(symbols@.take(i + 1), kind));
        i += 1;
    }
    assert(symbols@.take(symbols@.len() as int) =~= symbols@);
    r
}

/// Whether two character vectors are equal.
pub fn same_chars(x: &Vec<char>, y: &Vec<char>) -> (r: bool)
    ensures
        r == (x@ == y@),
{
    if x.len() != y.len() {
        return false;
    }
    let mut i: usize = 0;
    while i < x.len()
        invariant
            x@.len() == y@.len(),
            i <= x@.len(),
            forall|k: int| 0 <= k < i ==> x@[k] == y@[k],
        decreases x@.len() - i,
    {
        if x[i] != y[i] {
            return false;
        }
        i += 1;
    }
    assert(x@ =~= y@);
    true
}

/// Whether two strings hold the same characters.
pub fn same_text(a: &str, b: &str) -> (r: bool)
    ensures
        r == (a@ == b@),
{
    let x = chars_of(a);
    let y = chars_of(b);
    same_chars(&x, &y)
}

} // verus!
