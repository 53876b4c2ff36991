//! Relationships between the files of a code base, guessed from names:
//! the symbols of each file, files whose names contain one another,
//! symbols of the same name but different kind in two files, and which
//! files look like entry points or core modules.

use crate::symbols::{FileInfo, Symbol, SymbolKind};
use crate::text::{chars_of, contains, contains_seq, lower_of, to_lower};
use vstd::prelude::*;

verus! {

/// A relationship of one file.
#[derive(Clone, Debug)]
pub enum Relationship {
    /// The file declares this symbol.
    Symbol { name: String, kind: SymbolKind },
    /// The names of the file and of the file at `path` contain one another.
    CrossFile { path: String },
    /// The file at `path` declares a symbol of the same name, up to case,
    /// but of another kind.
    SharedSymbol { name: String, path: String },
}

/// The relationships of one file.
#[derive(Clone, Debug)]
pub struct FileRelationships {
    pub path: String,
    pub relationships: Vec<Relationship>,
}

/// The role a file plays in the whole code base.
#[derive(Clone, Debug)]
pub enum GlobalRole {
    /// Its file name suggests a program entry (main, entry, app, server).
    EntryPoint { path: String },
    /// It declares more than half as many symbols as the largest file.
    CoreModule { path: String },
}

/// Relationships of every file, and the roles of files.
#[derive(Clone, Debug)]
pub struct RelationshipMap {
    pub files: Vec<FileRelationships>,
    pub global: Vec<GlobalRole>,
}

/// What a relationship states.
pub enum RelationView {
    Symbol(Seq<char>, SymbolKind),
    CrossFile(Seq<char>),
    SharedSymbol(Seq<char>, Seq<char>),
}

/// The view of a relationship.
pub open spec fn relation_view(r: Relationship) -> RelationView {
    match r {
        Relationship::Symbol { name, kind } => RelationView::Symbol(name@, kind),
        Relationship::CrossFile { path } => RelationView::CrossFile(path@),
        Relationship::SharedSymbol { name, path } => RelationView::SharedSymbol(name@, path@),
    }
}

/// One relationship per declared symbol.
pub open spec fn symbol_relations(syms: Seq<Symbol>) -> Seq<RelationView> {
    syms.map_values(|s: Symbol| RelationView::Symbol(s.name@, s.kind))
}

/// Symbols `a` and `b` share a name, up to case, but not a kind.
pub open spec fn shares_symbol(a: Symbol, b: Symbol) -> bool {
    lower_of(a.name@) == lower_of(b.name@) && a.kind != b.kind
}

/// Shared-symbol relationships of symbol `a` with the symbols `bs` of the
/// file at `path`.
pub open spec fn shared_row(a: Symbol, bs: Seq<Symbol>, path: Seq<char>) -> Seq<RelationView>
    decreases bs.len(),
{
    if bs.len() == 0 {
        seq![]
    } else {
        shared_row(a, bs.drop_last(), path) + if shares_symbol(a, bs.last()) {
            seq![RelationView::SharedSymbol(a.name@, path)]
        } else {
            seq![]
        }
    }
}

/// Shared-symbol relationships of the symbols `as_` with the symbols `bs`
/// of the file at `path`.
pub open spec fn shared_relations(as_: Seq<Symbol>, bs: Seq<Symbol>, path: Seq<char>) -> Seq<RelationView>
    decreases as_.len(),
{
    if as_.len() == 0 {
        seq![]
    } else {
        shared_relations(as_.drop_last(), bs, path) + shared_row(as_.last(), bs, path)
    }
}

/// Relationships of file `f` (named `stem`) with another file `o` (named
/// `other_stem`): none for the same path; else a cross-file relationship
/// where either name contains the other, then the shared symbols.
pub open spec fn pair_relations(f: FileInfo, stem: Seq<char>, o: FileInfo, other_stem: Seq<char>) -> Seq<RelationView> {
    if o.path@ == f.path@ {
        seq![]
    } else {
        (if contains_seq(stem, other_stem) || contains_seq(other_stem, stem) {
            seq![RelationView::CrossFile(o.path@)]
        } else {
            seq![]
        }) + shared_relations(f.symbols@, o.symbols@, o.path@)
    }
}

/// Relationships of file `f` with the first `n` files of `files`.
pub open spec fn cross_relations(
    f: FileInfo,
    stem: Seq<char>,
    files: Seq<FileInfo>,
    stems: Seq<Seq<char>>,
    n: int,
) -> Seq<RelationView>
    decreases n,
{
    if n <= 0 {
        seq![]
    } else {
        cross_relations(f, stem, files, stems, n - 1) + pair_relations(f, stem, files[n - 1], stems[n - 1])
    }
}

/// All relationships of file `i`.
pub open spec fn file_relations(files: Seq<FileInfo>, stems: Seq<Seq<char>>, i: int) -> Seq<RelationView> {
    symbol_relations(files[i].symbols@) + cross_relations(files[i], stems[i], files, stems, files.len() as int)
}

/// Whether symbols `a` and `b` share a name up to case but not a kind.
fn symbols_shared(a: &Symbol, b: &Symbol) -> (r: bool)
    ensures
        r == shares_symbol(*a, *b),
{
    if a.kind == b.kind {
        return false;
    }
    let la = chars_of(to_lower(a.name.as_str()).as_str());
    let lb = chars_of(to_lower(b.name.as_str()).as_str());
    crate::symbols::same_chars(&la, &lb)
}

/// Appends the shared-symbol relationships of `as_` with the symbols `bs`
/// of the file at `path`.
fn push_shared(out: &mut Vec<Relationship>, as_: &Vec<Symbol>, bs: &Vec<Symbol>, path: &String)
    ensures
        final(out)@.map_values(|r: Relationship| relation_view(r)) == old(out)@.map_values(
            |r: Relationship| relation_view(r),
        ) + shared_relations(as_@, bs@, path@),
{
    let ghost start = old(out)@.map_values(|r: Relationship| relation_view(r));
    let mut i: usize = 0;
    while i < as_.len()
        invariant
            i <= as_@.len(),
            out@.map_values(|r: Relationship| relation_view(r)) == start + shared_relations(
                as_@.take(i as int),
                bs@,
                path@,
            ),
        decreases as_@.len() - i,
    {
        let ghost row_start = out@.map_values(|r: Relationship| relation_view(r));
        let mut j: usize = 0;
        while j < bs.len()
            invariant
                i < as_@.len(),
                j <= bs@.len(),
                out@.map_values(|r: Relationship| relation_view(r)) == row_start + shared_row(
                    as_@[i as int],
                    bs@.take(j as int),
                    path@,
                ),
            decreases bs@.len() - j,
        {
            assert(bs@.take(j + 1).drop_last() =~= bs@.take(j as int));
            let ghost before = out@.map_values(|r: Relationship| relation_view(r));
            if symbols_shared(&as_[i], &bs[j]) {
                out.push(Relationship::SharedSymbol { name: as_[i].name.clone(), path: path.clone() });
                assert(out@.map_values(|r: Relationship| relation_view(r)) =~= before.push(
                    RelationView::SharedSymbol(as_@[i as int].name@, path@),
                ));
            }
            assert(out@.map_values(|r: Relationship| relation_view(r)) =~= row_start + shared_row(
                as_@[i as int],
                bs@.take(j + 1),
                path@,
            ));
            j += 1;
        }
        assert(bs@.take(bs@.len() as int) =~= bs@);
        assert(as_@.take(i + 1).drop_last() =~= as_@.take(i as int));
        assert(out@.map_values(|r: Relationship| relation_view(r)) =~= start + shared_relations(
            as_@.take(i + 1),
            bs@,
            path@,
        ));
        i += 1;
    }
    assert(as_@.take(as_@.len() as int) =~= as_@);
}

/// The relationships of file `i` of `files`, whose names are `stems`.
fn relations_of(files: &Vec<FileInfo>, stems: &Vec<String>, i: usize) -> (r: Vec<Relationship>)
    requires
        files@.len() == stems@.len(),
        i < files@.len(),
    ensures
        r@.map_values(|r: Relationship| relation_view(r)) == file_relations(
            files@,
            stems@.map_values(|s: String| s@),
            i as int,
        ),
{
    let ghost sv = stems@.map_values(|s: String| s@);
    let f = &files[i];
    let mut out: Vec<Relationship> = Vec::new();
    let mut k: usize = 0;
    while k < f.symbols.len()
        invariant
            k <= f.symbols@.len(),
            out@.len() == k,
            forall|m: int| 0 <= m < k ==> relation_view(#[trigger] out@[m]) == RelationView::Symbol(
                f.symbols@[m].name@,
                f.symbols@[m].kind,
            ),
        decreases f.symbols@.len() - k,
    {
        out.push(Relationship::Symbol { name: f.symbols[k].name.clone(), kind: f.symbols[k].kind });
        k += 1;
    }
    let ghost head = out@.map_values(|r: Relationship| relation_view(r));
    assert(head =~= symbol_relations(f.symbols@));
    let stem = &stems[i];
    let mut j: usize = 0;
    while j < files.len()
        invariant
            files@.len() == stems@.len(),
            i < files@.len(),
            j <= files@.len(),
            sv == stems@.map_values(|s: String| s@),
            *f == files@[i as int],
            *stem == stems@[i as int],
            out@.map_values(|r: Relationship| relation_view(r)) == head + cross_relations(
                *f,
                sv[i as int],
                files@,
                sv,
                j as int,
            ),
        decreases files@.len() - j,
    {
        let ghost before = out@.map_values(|r: Relationship| relation_view(r));
        let o = &files[j];
        if o.path != f.path {
            if contains(stem.as_str(), stems[j].as_str()) || contains(stems[j].as_str(), stem.as_str()) {
                out.push(Relationship::CrossFile { path: o.path.clone() });
            }
            let ghost mid = out@.map_values(|r: Relationship| relation_view(r));
            assert(mid =~= before + (if contains_seq(sv[i as int], sv[j as int]) || contains_seq(
                sv[j as int],
                sv[i as int],
            ) {
                seq![RelationView::CrossFile(o.path@)]
            } else {
                seq![]
            }));
            push_shared(&mut out, &f.symbols, &o.symbols, &o.path);
        }
        assert(out@.map_values(|r: Relationship| relation_view(r)) =~= before + pair_relations(
            *f,
            sv[i as int],
            files@[j as int],
            sv[j as int],
        ));
        j += 1;
    }
    out
}

/// What a role states.
pub enum RoleView {
    EntryPoint(Seq<char>),
    CoreModule(Seq<char>),
}

/// The view of a role.
pub open spec fn role_view(r: GlobalRole) -> RoleView {
    match r {
        GlobalRole::EntryPoint { path } => RoleView::EntryPoint(path@),
        GlobalRole::CoreModule { path } => RoleView::CoreModule(path@),
    }
}

/// A file name that suggests a program entry.
pub open spec fn entry_name(name: Seq<char>) -> bool {
    contains_seq(name, "main"@) || contains_seq(name, "entry"@) || contains_seq(name, "app"@) || contains_seq(
        name,
        "server"@,
    )
}

/// Entry points among the first `n` files, whose file names are `names`.
pub open spec fn entry_roles(files: Seq<FileInfo>, names: Seq<Seq<char>>, n: int) -> Seq<RoleView>
    decreases n,
{
    if n <= 0 {
        seq![]
    } else {
        entry_roles(files, names, n - 1) + if entry_name(names[n - 1]) {
            seq![RoleView::EntryPoint(files[n - 1].path@)]
        } else {
            seq![]
        }
    }
}

/// Most symbols declared by one of the first `n` files.
pub open spec fn max_symbols(files: Seq<FileInfo>, n: int) -> nat
    decreases n,
{
    if n <= 0 {
        0
    } else {
        let m = max_symbols(files, n - 1);
        if files[n - 1].symbols@.len() > m {
            files[n - 1].symbols@.len()
        } else {
            m
        }
    }
}

/// Core modules among the first `n` files: those with more than `most / 2`
/// symbols.
pub open spec fn core_roles(files: Seq<FileInfo>, most: nat, n: int) -> Seq<RoleView>
    decreases n,
{
    if n <= 0 {
        seq![]
    } else {
        core_roles(files, most, n - 1) + if files[n - 1].symbols@.len() > most / 2 {
            seq![RoleView::CoreModule(files[n - 1].path@)]
        } else {
            seq![]
        }
    }
}

/// Roles of the files: entry points first, then core modules.
pub open spec fn global_roles(files: Seq<FileInfo>, names: Seq<Seq<char>>) -> Seq<RoleView> {
    entry_roles(files, names, files.len() as int) + core_roles(
        files,
        max_symbols(files, files.len() as int),
        files.len() as int,
    )
}

/// `m` is the relationship map of `files`, whose names are `stems` and
/// whose file names are `names`.
pub open spec fn is_map_of(
    files: Seq<FileInfo>,
    stems: Seq<Seq<char>>,
    names: Seq<Seq<char>>,
    m: RelationshipMap,
) -> bool {
    &&& m.files@.len() == files.len()
    &&& forall|i: int|
        0 <= i < files.len() ==> (#[trigger] m.files@[i]).path@ == files[i].path@
            && m.files@[i].relationships@.map_values(|r: Relationship| relation_view(r)) == file_relations(
            files,
            stems,
            i,
        )
    &&& m.global@.map_values(|r: GlobalRole| role_view(r)) == global_roles(files, names)
}

/// The relationship map of `files`, given the name of each file without
/// extension (`stems`) and its file name (`names`).
pub fn relationship_map(files: &Vec<FileInfo>, stems: &Vec<String>, names: &Vec<String>) -> (r: RelationshipMap)
    requires
        stems@.len() == files@.len(),
        names@.len() == files@.len(),
    ensures
        is_map_of(files@, stems@.map_values(|s: String| s@), names@.map_values(|s: String| s@), r),
{
    let ghost sv = stems@.map_values(|s: String| s@);
    let ghost nv = names@.map_values(|s: String| s@);
    let mut per_file: Vec<FileRelationships> = Vec::new();
    let mut i: usize = 0;
    while i < files.len()
        invariant
            stems@.len() == files@.len(),
            i <= files@.len(),
            sv == stems@.map_values(|s: String| s@),
            per_file@.len() == i,
            forall|k: int|
                0 <= k < i ==> (#[trigger] per_file@[k]).path@ == files@[k].path@
                    && per_file@[k].relationships@.map_values(|r: Relationship| relation_view(r))
                    == file_relations(files@, sv, k),
        decreases files@.len() - i,
    {
        let relationships = relations_of(files, stems, i);
        per_file.push(FileRelationships { path: files[i].path.clone(), relationships });
        i += 1;
    }
    let mut global: Vec<GlobalRole> = Vec::new();
    let mut j: usize = 0;
    while j < files.len()
        invariant
            names@.len() == files@.len(),
            j <= files@.len(),
            nv == names@.map_values(|s: String| s@),
            global@.map_values(|r: GlobalRole| role_view(r)) == entry_roles(files@, nv, j as int),
        decreases files@.len() - j,
    {
        let ghost before = global@.map_values(|r: GlobalRole| role_view(r));
        let nm = names[j].as_str();
        if contains(nm, "main") || contains(nm, "entry") || contains(nm, "app") || contains(nm, "server") {
            global.push(GlobalRole::EntryPoint { path: files[j].path.clone() });
        }
        assert(global@.map_values(|r: GlobalRole| role_view(r)) =~= entry_roles(files@, nv, j + 1));
        j += 1;
    }
    let mut most: usize = 0;
    let mut k: usize = 0;
    while k < files.len()
        invariant
            k <= files@.len(),
            most == max_symbols(files@, k as int),
        decreases files@.len() - k,
    {
        if files[k].symbols.len() > most {
            most = files[k].symbols.len();
        }
        k += 1;
    }
    let ghost entries = global@.map_values(|r: GlobalRole| role_view(r));
    let mut c: usize = 0;
    while c < files.len()
        invariant
            c <= files@.len(),
            most == max_symbols(files@, files@.len() as int),
            global@.map_values(|r: GlobalRole| role_view(r)) == entries + core_roles(
                files@,
                most as nat,
                c as int,
            ),
        decreases files@.len() - c,
    {
        let ghost before = global@.map_values(|r: GlobalRole| role_view(r));
        let big = files[c].symbols.len() > most / 2;
        assert(big == (files@[c as int].symbols@.len() > (most as nat) / 2));
        if big {
            global.push(GlobalRole::CoreModule { path: files[c].path.clone() });
            assert(global@.map_values(|r: GlobalRole| role_view(r)) =~= before.push(
                RoleView::CoreModule(files@[c as int].path@),
            ));
        }
        assert(global@.map_values(|r: GlobalRole| role_view(r)) =~= entries + core_roles(
            files@,
            most as nat,
            c + 1,
        ));
        c += 1;
    }
    RelationshipMap { files: per_file, global }
}

/// Relies on `std::path::Path::file_stem`: the last component of a path
/// without its extension, by the path rules of the platform; `None` where
/// the path has no file name.
#[verifier::external_body]
fn path_stem(path: &str) -> (r: Option<String>) {
    std::path::Path::new(path).file_stem().and_then(|s| s.to_str()).map(|s| s.to_string())
}

/// Relies on `std::path::Path::file_name`: the last component of a path,
/// by the path rules of the platform; `None` where there is none.
#[verifier::external_body]
fn path_file_name(path: &str) -> (r: Option<String>) {
    std::path::Path::new(path).file_name().and_then(|s| s.to_str()).map(|s| s.to_string())
}

/// The relationship map of `files`, with the names that the platform's path
/// rules give (empty where a path has none).
pub fn generate_relationship_map_simple(files: &Vec<FileInfo>) -> (r: RelationshipMap)
    ensures
        exists|stems: Seq<Seq<char>>, names: Seq<Seq<char>>|
            stems.len() == files@.len() && names.len() == files@.len() && is_map_of(files@, stems, names, r),
{
    let mut stems: Vec<String> = Vec::new();
    let mut names: Vec<String> = Vec::new();
    let mut i: usize = 0;
    while i < files.len()
        invariant
            i <= files@.len(),
            stems@.len() == i,
            names@.len() == i,
        decreases files@.len() - i,
    {
        let stem = match path_stem(files[i].path.as_str()) {
            Some(s) => s,
            None => String::new(),
        };
        let name = match path_file_name(files[i].path.as_str()) {
            Some(s) => s,
            None => String::new(),
        };
        stems.push(stem);
        names.push(name);
        i += 1;
    }
    let r = relationship_map(files, &stems, &names);
    assert(stems@.map_values(|s: String| s@).len() == files@.len());
    assert(names@.map_values(|s: String| s@).len() == files@.len());
    r
}

} // verus!
