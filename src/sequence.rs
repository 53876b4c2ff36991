//! Sequence descriptors: the function symbols of a file as participants and
//! the calls between them as messages. Calls come from the first source that
//! has any: the control-flow graph's call listing, then call sites found in
//! the file's text, then consecutive function declarations.

use crate::symbols::{function_names, function_symbols, Symbol};
use crate::text::{ident_spec, safe_ident};
use vstd::prelude::*;

verus! {

/// A call found in a file's text: `caller` calls `callee`.
#[derive(Clone, Debug)]
pub struct CallPair {
    pub caller: String,
    pub callee: String,
}

/// A message of a sequence diagram, between participant identifiers.
#[derive(Clone, Debug)]
pub struct SequenceMessage {
    pub caller: String,
    pub callee: String,
}

/// Participants and messages of a sequence diagram.
#[derive(Clone, Debug)]
pub struct SequenceDiagram {
    pub participants: Vec<String>,
    pub messages: Vec<SequenceMessage>,
}

/// The line a message stands for: `caller->>callee: call`.
pub open spec fn message_line(caller: Seq<char>, callee: Seq<char>) -> Seq<char> {
    caller + "->>"@ + callee + ": call"@
}

impl SequenceMessage {
    /// The line this message stands for (see [`message_line`]).
    pub fn text(&self) -> (r: String)
        ensures
            r@ == message_line(self.caller@, self.callee@),
    {
        self.caller.clone().concat("->>").concat(self.callee.as_str()).concat(": call")
    }
}

/// The caller and callee of a message.
pub open spec fn message_view(m: SequenceMessage) -> (Seq<char>, Seq<char>) {
    (m.caller@, m.callee@)
}

/// The caller and callee of a call pair.
pub open spec fn pair_view(p: CallPair) -> (Seq<char>, Seq<char>) {
    (p.caller@, p.callee@)
}

/// Messages from the graph's call listing: every call is attributed to the
/// first declared function.
pub open spec fn graph_messages(funcs: Seq<Seq<char>>, calls: Seq<Seq<char>>) -> Seq<(Seq<char>, Seq<char>)> {
    if funcs.len() == 0 {
        seq![]
    } else {
        calls.map_values(|c: Seq<char>| (ident_spec(funcs[0]), ident_spec(c)))
    }
}

/// Messages from call sites found in the text: those between two declared
/// functions, in order.
pub open spec fn text_messages(funcs: Seq<Seq<char>>, pairs: Seq<(Seq<char>, Seq<char>)>) -> Seq<
    (Seq<char>, Seq<char>),
>
    decreases pairs.len(),
{
    if pairs.len() == 0 {
        seq![]
    } else {
        let rest = text_messages(funcs, pairs.drop_last());
        let p = pairs.last();
        if funcs.contains(p.0) && funcs.contains(p.1) {
            rest.push((ident_spec(p.0), ident_spec(p.1)))
        } else {
            rest
        }
    }
}

/// Messages between consecutive declared functions.
pub open spec fn adjacent_messages(funcs: Seq<Seq<char>>) -> Seq<(Seq<char>, Seq<char>)> {
    if funcs.len() >= 2 {
        Seq::new((funcs.len() - 1) as nat, |i: int| (ident_spec(funcs[i]), ident_spec(funcs[i + 1])))
    } else {
        seq![]
    }
}

/// Messages of the sequence diagram of a file whose functions are `funcs`.
pub open spec fn sequence_messages(
    funcs: Seq<Seq<char>>,
    calls: Seq<Seq<char>>,
    pairs: Option<Seq<(Seq<char>, Seq<char>)>>,
) -> Seq<(Seq<char>, Seq<char>)> {
    if calls.len() > 0 {
        graph_messages(funcs, calls)
    } else if pairs is Some && pairs->0.len() > 0 {
        text_messages(funcs, pairs->0)
    } else {
        adjacent_messages(funcs)
    }
}

/// Views of optional call pairs.
pub open spec fn pairs_view(pairs: Option<Vec<CallPair>>) -> Option<Seq<(Seq<char>, Seq<char>)>> {
    match pairs {
        Some(v) => Some(v@.map_values(|p: CallPair| pair_view(p))),
        None => None,
    }
}

/// `d` is the sequence diagram of a file with symbols `syms`, graph calls
/// `calls` and call sites `pairs`.
pub open spec fn is_sequence_of(
    syms: Seq<Symbol>,
    calls: Seq<Seq<char>>,
    pairs: Option<Seq<(Seq<char>, Seq<char>)>>,
    d: SequenceDiagram,
) -> bool {
    &&& d.participants@.map_values(|s: String| s@) == function_names(syms).map_values(
        |n: Seq<char>| ident_spec(n),
    )
    &&& d.messages@.map_values(|m: SequenceMessage| message_view(m)) == sequence_messages(
        function_names(syms),
        calls,
        pairs,
    )
}

/// Whether `name` is one of `names`.
fn is_listed(names: &Vec<String>, name: &String) -> (r: bool)
    ensures
        r == names@.map_values(|s: String| s@).contains(name@),
{
    let ghost vs = names@.map_values(|s: String| s@);
    let mut i: usize = 0;
    while i < names.len()
        invariant
            i <= names@.len(),
            vs == names@.map_values(|s: String| s@),
            forall|k: int| 0 <= k < i ==> vs[k] != name@,
        decreases names@.len() - i,
    {
        if names[i] == *name {
            assert(vs[i as int] == name@);
            return true;
        }
        i += 1;
    }
    false
}

/// A message between the identifiers of two names.
fn message(caller: &String, callee: &String) -> (r: SequenceMessage)
    ensures
        message_view(r) == (ident_spec(caller@), ident_spec(callee@)),
{
    SequenceMessage { caller: safe_ident(caller.as_str()), callee: safe_ident(callee.as_str()) }
}

/// Renders the sequence diagram of a file from its symbols, the call listing
/// of its graph (empty without one) and the call sites found in its text,
/// if it could be read.
pub fn render_sequence(symbols: &Vec<Symbol>, calls: &Vec<String>, pairs: &Option<Vec<CallPair>>) -> (r: SequenceDiagram)
    ensures
        is_sequence_of(symbols@, calls@.map_values(|s: String| s@), pairs_view(*pairs), r),
{
    let funcs = function_symbols(symbols);
    let ghost fs = function_names(symbols@);
    let ghost cs = calls@.map_values(|s: String| s@);
    let mut participants: Vec<String> = Vec::new();
    let mut i: usize = 0;
    while i < funcs.len()
        invariant
            i <= funcs@.len(),
            funcs@.map_values(|s: String| s@) == fs,
            participants@.len() == i,
            forall|k: int| 0 <= k < i ==> (#[trigger] participants@[k])@ == ident_spec(fs[k]),
        decreases funcs@.len() - i,
    {
        participants.push(safe_ident(funcs[i].as_str()));
        i += 1;
    }
    assert(participants@.map_values(|s: String| s@) =~= fs.map_values(|n: Seq<char>| ident_spec(n)));
    let mut messages: Vec<SequenceMessage> = Vec::new();
    if calls.len() > 0 {
        if funcs.len() > 0 {
            let mut j: usize = 0;
            while j < calls.len()
                invariant
                    j <= calls@.len(),
                    funcs@.len() > 0,
                    funcs@.map_values(|s: String| s@) == fs,
                    cs == calls@.map_values(|s: String| s@),
                    messages@.len() == j,
                    forall|k: int| 0 <= k < j ==> message_view(#[trigger] messages@[k]) == (
                        ident_spec(fs[0]),
                        ident_spec(cs[k]),
                    ),
                decreases calls@.len() - j,
            {
                messages.push(message(&funcs[0], &calls[j]));
                j += 1;
            }
        }
        assert(messages@.map_values(|m: SequenceMessage| message_view(m)) =~= graph_messages(fs, cs));
    } else if pairs.is_some() && pairs.as_ref().unwrap().len() > 0 {
        let ps = pairs.as_ref().unwrap();
        let ghost pv = ps@.map_values(|p: CallPair| pair_view(p));
        let mut j: usize = 0;
        while j < ps.len()
            invariant
                j <= ps@.len(),
                funcs@.map_values(|s: String| s@) == fs,
                pv == ps@.map_values(|p: CallPair| pair_view(p)),
                messages@.map_values(|m: SequenceMessage| message_view(m)) == text_messages(
                    fs,
                    pv.take(j as int),
                ),
            decreases ps@.len() - j,
        {
            assert(pv.take(j + 1).drop_last() =~= pv.take(j as int));
            assert(pv.take(j + 1).last() == pair_view(ps@[j as int]));
            let ghost before = messages@;
            let p = &ps[j];
            if is_listed(&funcs, &p.caller) && is_listed(&funcs, &p.callee) {
                messages.push(message(&p.caller, &p.callee));
            }
            assert(messages@.map_values(|m: SequenceMessage| message_view(m)) =~= text_messages(
                fs,
                pv.take(j + 1),
            ));
            j += 1;
        }
        assert(pv.take(ps@.len() as int) =~= pv);
    } else if funcs.len() >= 2 {
        let mut j: usize = 0;
        let last = funcs.len() - 1;
        while j < last
            invariant
                last == funcs@.len() - 1,
                j <= last,
                funcs@.len() >= 2,
                funcs@.map_values(|s: String| s@) == fs,
                messages@.len() == j,
                forall|k: int| 0 <= k < j ==> message_view(#[trigger] messages@[k]) == (
                    ident_spec(fs[k]),
                    ident_spec(fs[k + 1]),
                ),
            decreases last - j,
        {
            messages.push(message(&funcs[j], &funcs[j + 1]));
            j += 1;
        }
        assert(messages@.map_values(|m: SequenceMessage| message_view(m)) =~= adjacent_messages(fs));
    } else {
        assert(messages@.map_values(|m: SequenceMessage| message_view(m)) =~= adjacent_messages(fs));
    }
    SequenceDiagram { participants, messages }
}

} // verus!
