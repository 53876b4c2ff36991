//! Call sites found in a file's text by pattern: method calls `x.f()` and
//! path calls `m::f()`. Every call found is attributed to the first function
//! the file declares; the sequence renderer keeps only calls between
//! declared functions.

use crate::sequence::{pair_view, CallPair};
use crate::symbols::{function_names, function_symbols, Symbol};
use vstd::prelude::*;

verus! {

/// What the regex crate finds for `pattern` in `text`: `None` where the
/// pattern does not compile, else for each successive non-overlapping match
/// the text of its capture group 2 (`None` where that group took no part).
pub uninterp spec fn second_groups(pattern: Seq<char>, text: Seq<char>) -> Option<Seq<Option<Seq<char>>>>;

/// Character views of a scan result.
pub open spec fn groups_view(r: Option<Vec<Option<String>>>) -> Option<Seq<Option<Seq<char>>>> {
    match r {
        Some(v) => Some(
            v@.map_values(
                |o: Option<String>|
                    match o {
                        Some(s) => Some(s@),
                        None => None,
                    },
            ),
        ),
        None => None,
    }
}

/// Relies on `regex::Regex::new`, which compiles `pattern` or reports an
/// error, and `Regex::captures_iter`, whose captures are read at group 2.
#[verifier::external_body]
fn second_captures(pattern: &str, text: &str) -> (r: Option<Vec<Option<String>>>)
    ensures
        groups_view(r) == second_groups(pattern@, text@),
{
    let re = regex::Regex::new(pattern).ok()?;
    Some(re.captures_iter(text).map(|c| c.get(2).map(|m| m.as_str().to_string())).collect())
}

/// Pattern of a method call without arguments: `receiver.method()`.
pub open spec fn method_call_pattern() -> Seq<char> {
    "(\\w+)\\.(\\w+)\\(\\)"@
}

/// Pattern of a path call without arguments: `module::function()`.
pub open spec fn path_call_pattern() -> Seq<char> {
    "(\\w+)::(\\w+)\\(\\)"@
}

/// Calls from `caller` to each callee found, in order.
pub open spec fn callee_pairs(caller: Seq<char>, found: Seq<Option<Seq<char>>>) -> Seq<(Seq<char>, Seq<char>)>
    decreases found.len(),
{
    if found.len() == 0 {
        seq![]
    } else {
        let rest = callee_pairs(caller, found.drop_last());
        match found.last() {
            Some(c) => rest.push((caller, c)),
            None => rest,
        }
    }
}

/// The callees found by a scan, or none where the pattern did not compile.
pub open spec fn found_or_none(r: Option<Seq<Option<Seq<char>>>>) -> Seq<Option<Seq<char>>> {
    match r {
        Some(s) => s,
        None => seq![],
    }
}

/// Appends to `out` a call from `caller` to each callee of `found`.
pub fn push_callee_pairs(out: &mut Vec<CallPair>, caller: &String, found: &Vec<Option<String>>)
    ensures
        final(out)@.map_values(|p: CallPair| pair_view(p)) == old(out)@.map_values(|p: CallPair| pair_view(p))
            + callee_pairs(caller@, groups_view(Some(*found))->0),
{
    let ghost start = old(out)@.map_values(|p: CallPair| pair_view(p));
    let ghost fv = groups_view(Some(*found))->0;
    let mut i: usize = 0;
    while i < found.len()
        invariant
            i <= found@.len(),
            fv == groups_view(Some(*found))->0,
            out@.map_values(|p: CallPair| pair_view(p)) == start + callee_pairs(caller@, fv.take(i as int)),
        decreases found@.len() - i,
    {
        assert(fv.take(i + 1).drop_last() =~= fv.take(i as int));
        assert(fv.take(i + 1).last() == fv[i as int]);
        let ghost before = out@;
        match &found[i] {
            Some(callee) => {
                assert(fv[i as int] == Some(callee@));
                out.push(CallPair { caller: caller.clone(), callee: callee.clone() });
                assert(out@.map_values(|p: CallPair| pair_view(p)) =~= before.map_values(
                    |p: CallPair| pair_view(p),
                ).push((caller@, callee@)));
            },
            None => {
                assert(fv[i as int] is None);
            },
        }
        assert(out@.map_values(|p: CallPair| pair_view(p)) =~= start + callee_pairs(
            caller@,
            fv.take(i + 1),
        ));
        i += 1;
    }
    assert(fv.take(found@.len() as int) =~= fv);
}

/// Calls found in `text`, all from `caller`: method calls first, then path
/// calls.
pub fn extract_call_pairs(caller: &String, text: &str) -> (r: Vec<CallPair>)
    ensures
        r@.map_values(|p: CallPair| pair_view(p)) == callee_pairs(
            caller@,
            found_or_none(second_groups(method_call_pattern(), text@)),
        ) + callee_pairs(caller@, found_or_none(second_groups(path_call_pattern(), text@))),
{
    let mut r: Vec<CallPair> = Vec::new();
    assert(r@.map_values(|p: CallPair| pair_view(p)) =~= seq![]);
    let methods = second_captures("(\\w+)\\.(\\w+)\\(\\)", text);
    match &methods {
        Some(found) => push_callee_pairs(&mut r, caller, found),
        None => {},
    }
    let ghost after_methods = r@.map_values(|p: CallPair| pair_view(p));
    assert(after_methods =~= callee_pairs(caller@, found_or_none(second_groups(method_call_pattern(), text@))));
    let paths = second_captures("(\\w+)::(\\w+)\\(\\)", text);
    match &paths {
        Some(found) => push_callee_pairs(&mut r, caller, found),
        None => {},
    }
    assert(r@.map_values(|p: CallPair| pair_view(p)) =~= after_methods + callee_pairs(
        caller@,
        found_or_none(second_groups(path_call_pattern(), text@)),
    ));
    r
}

/// Call sites of a file with symbols `syms` and text `text`: `None` where it
/// declares no function or no call is found, else the calls found, from its
/// first function.
pub open spec fn call_sites_spec(syms: Seq<Symbol>, text: Seq<char>) -> Option<Seq<(Seq<char>, Seq<char>)>> {
    let fs = function_names(syms);
    if fs.len() == 0 {
        None
    } else {
        let found = callee_pairs(fs[0], found_or_none(second_groups(method_call_pattern(), text)))
            + callee_pairs(fs[0], found_or_none(second_groups(path_call_pattern(), text)));
        if found.len() == 0 {
            None
        } else {
            Some(found)
        }
    }
}

/// Call sites found in the text of a file (see [`call_sites_spec`]).
pub fn find_call_sites(symbols: &Vec<Symbol>, text: &str) -> (r: Option<Vec<CallPair>>)
    ensures
        match r {
            Some(v) => call_sites_spec(symbols@, text@) == Some(v@.map_values(|p: CallPair| pair_view(p))),
            None => call_sites_spec(symbols@, text@) is None,
        },
{
    let funcs = function_symbols(symbols);
    if funcs.len() == 0 {
        return None;
    }
    let found = extract_call_pairs(&funcs[0], text);
    if found.len() == 0 {
        None
    } else {
        Some(found)
    }
}

} // verus!
