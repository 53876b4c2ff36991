//! Character-level helpers: substring search and identifier normalisation.

use vstd::prelude::*;

verus! {

broadcast use vstd::string::group_string_axioms;

/// The character sequences of a list of strings.
pub open spec fn views(v: Seq<String>) -> Seq<Seq<char>> {
    v.map_values(|s: String| s@)
}

/// `needle` occurs in `hay` starting at position `i`.
pub open spec fn occurs_at(hay: Seq<char>, needle: Seq<char>, i: int) -> bool {
    &&& 0 <= i
    &&& i + needle.len() <= hay.len()
    &&& hay.subrange(i, i + needle.len()) == needle
}

/// `needle` occurs somewhere in `hay`.
pub open spec fn contains_seq(hay: Seq<char>, needle: Seq<char>) -> bool {
    exists|i: int| occurs_at(hay, needle, i)
}

/// The characters of a string, in order.
pub fn chars_of(s: &str) -> (v: Vec<char>)
    ensures
        v@ == s@,
{
    let mut v: Vec<char> = Vec::new();
    for c in it: s.chars()
        invariant
            it.seq() == s@,
            v@ == s@.take(it.index() as int),
    {
        v.push(c);
    }
    assert(v@ =~= s@);
    v
}

fn matches_at(hay: &Vec<char>, needle: &Vec<char>, i: usize) -> (r: bool)
    requires
        i + needle@.len() <= hay@.len(),
    ensures
        r == occurs_at(hay@, needle@, i as int),
{
    let m = needle.len();
    let mut k: usize = 0;
    while k < m
        invariant
            k <= m,
            m == needle@.len(),
            i + m <= hay.len(),
            forall|j: int| 0 <= j < k ==> hay@[i + j] == needle@[j],
        decreases m - k,
    {
        if hay[i + k] != needle[k] {
            assert(hay@.subrange(i as int, i + m)[k as int] != needle@[k as int]);
            return false;
        }
        k += 1;
    }
    assert(hay@.subrange(i as int, i + m) =~= needle@);
    true
}

/// Whether `needle` occurs in `hay`.
pub fn contains_chars(hay: &Vec<char>, needle: &Vec<char>) -> (r: bool)
    ensures
        r == contains_seq(hay@, needle@),
{
    let n = hay.len();
    let m = needle.len();
    if m > n {
        return false;
    }
    if m == 0 {
        assert(hay@.subrange(0, 0) =~= needle@);
        assert(occurs_at(hay@, needle@, 0));
        return true;
    }
    let mut i: usize = 0;
    while i <= n - m
        invariant
            n == hay@.len(),
            m == needle@.len(),
            0 < m <= n,
            i <= n - m + 1,
            forall|j: int| 0 <= j < i ==> !occurs_at(hay@, needle@, j),
        decreases n - m + 1 - i,
    {
        if matches_at(hay, needle, i) {
            return true;
        }
        i += 1;
    }
    false
}

/// Whether `needle` occurs in `hay`.
pub fn contains(hay: &str, needle: &str) -> (r: bool)
    ensures
        r == contains_seq(hay@, needle@),
{
    let h = chars_of(hay);
    let n = chars_of(needle);
    contains_chars(&h, &n)
}

/// What `str::to_lowercase` returns for a string with these characters.
pub uninterp spec fn lower_of(s: Seq<char>) -> Seq<char>;

/// Relies on `str::to_lowercase`: the lowercase mapping of a string, which
/// depends on its characters alone.
#[verifier::external_body]
pub(crate) fn to_lower(s: &str) -> (r: String)
    ensures
        r@ == lower_of(s@),
{
    s.to_lowercase()
}

/// `s` with every `a` and every `b` replaced by `w`.
pub open spec fn swap_chars(s: Seq<char>, a: char, b: char, w: char) -> Seq<char> {
    s.map_values(|c: char| if c == a || c == b { w } else { c })
}

/// `s` with every `a` and every `b` replaced by the one character of `with`.
pub fn replace_chars(s: &str, a: char, b: char, with: &str) -> (r: String)
    requires
        with@.len() == 1,
    ensures
        r@ == swap_chars(s@, a, b, with@[0]),
{
    let cs = chars_of(s);
    let n = cs.len();
    let mut r = String::new();
    for i in 0..n
        invariant
            n == s@.len(),
            cs@ == s@,
            with@.len() == 1,
            r@ == swap_chars(s@.take(i as int), a, b, with@[0]),
    {
        let ghost before = r@;
        if cs[i] == a || cs[i] == b {
            r.append(with);
        } else {
            let one = s.substring_char(i, i + 1);
            r.append(one);
        }
        assert(s@.take(i + 1) =~= s@.take(i as int).push(s@[i as int]));
        assert(r@ =~= swap_chars(s@.take(i + 1), a, b, with@[0]));
    }
    assert(s@.take(n as int) =~= s@);
    r
}

/// The anchor form of a name: spaces and colons become dashes, then the
/// whole name is lowercased.
pub open spec fn anchor_spec(s: Seq<char>) -> Seq<char> {
    lower_of(swap_chars(s, ' ', ':', '-'))
}

/// The diagram identifier form of a name: its anchor form with dashes
/// turned into underscores.
pub open spec fn ident_spec(s: Seq<char>) -> Seq<char> {
    swap_chars(anchor_spec(s), '-', '-', '_')
}

/// Anchor form of a name (see [`anchor_spec`]).
pub fn anchorize(s: &str) -> (r: String)
    ensures
        r@ == anchor_spec(s@),
{
    proof {
        reveal_strlit("-");
    }
    let dashed = replace_chars(s, ' ', ':', "-");
    to_lower(dashed.as_str())
}

/// Diagram-safe identifier for a name (see [`ident_spec`]); the same name
/// always gives the same identifier.
pub fn safe_ident(s: &str) -> (r: String)
    ensures
        r@ == ident_spec(s@),
{
    let a = anchorize(s);
    proof {
        reveal_strlit("_");
    }
    replace_chars(a.as_str(), '-', '-', "_")
}

/// A path as a page file name: slashes, line feeds and spaces become
/// underscores.
pub open spec fn sanitized(p: Seq<char>) -> Seq<char> {
    swap_chars(swap_chars(p, '/', '\n', '_'), ' ', ' ', '_')
}

/// Page file name of a path (see [`sanitized`]).
pub fn sanitize_filename(path: &str) -> (r: String)
    ensures
        r@ == sanitized(path@),
{
    proof {
        reveal_strlit("_");
    }
    let once = replace_chars(path, '/', '\n', "_");
    replace_chars(once.as_str(), ' ', ' ', "_")
}

/// How one character is written in HTML text.
pub open spec fn escaped_char(c: char) -> Seq<char> {
    if c == '&' {
        "&amp;"@
    } else if c == '<' {
        "&lt;"@
    } else if c == '>' {
        "&gt;"@
    } else {
        seq![c]
    }
}

/// A text written in HTML: ampersands and angle brackets as entities.
pub open spec fn escaped(s: Seq<char>) -> Seq<char>
    decreases s.len(),
{
    if s.len() == 0 {
        seq![]
    } else {
        escaped(s.drop_last()) + escaped_char(s.last())
    }
}

/// A text written in HTML (see [`escaped`]).
pub fn html_escape(s: &str) -> (r: String)
    ensures
        r@ == escaped(s@),
{
    let cs = chars_of(s);
    let mut r = String::new();
    let mut i: usize = 0;
    while i < cs.len()
        invariant
            cs@ == s@,
            i <= cs@.len(),
            r@ == escaped(s@.take(i as int)),
        decreases cs@.len() - i,
    {
        assert(s@.take(i + 1).drop_last() =~= s@.take(i as int));
        assert(s@.take(i + 1).last() == cs@[i as int]);
        let c = cs[i];
        if c == '&' {
            r.append("&amp;");
        } else if c == '<' {
            r.append("&lt;");
        } else if c == '>' {
            r.append("&gt;");
        } else {
            let one = s.substring_char(i, i + 1);
            assert(one@ =~= seq![c]);
            r.append(one);
        }
        i += 1;
    }
    assert(s@.take(cs@.len() as int) =~= s@);
    r
}

} // verus!
