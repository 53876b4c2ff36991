//! OWASP categories suggested by the words of a file, and the
//! recommendations given for each. The detection is a keyword heuristic: it
//! can both over- and under-report.

use crate::symbols::same_text;
use crate::text::{chars_of, contains_chars, contains_seq, lower_of, to_lower, views};
use vstd::prelude::*;

verus! {

/// Label of the broken access control category.
pub open spec fn access_label() -> Seq<char> {
    "A01:2021 – Broken Access Control"@
}

/// Label of the cryptographic failures category.
pub open spec fn crypto_label() -> Seq<char> {
    "A02:2021 – Cryptographic Failures"@
}

/// Label of the injection category.
pub open spec fn injection_label() -> Seq<char> {
    "A03:2021 – Injection"@
}

/// Label of the insecure design category.
pub open spec fn design_label() -> Seq<char> {
    "A04:2021 – Insecure Design"@
}

/// Label of the security misconfiguration category.
pub open spec fn config_label() -> Seq<char> {
    "A05:2021 – Security Misconfiguration"@
}

/// Some word of `words` occurs in `t`.
pub open spec fn mentions_any(t: Seq<char>, words: Seq<Seq<char>>) -> bool {
    exists|i: int| 0 <= i < words.len() && contains_seq(t, #[trigger] words[i])
}

/// Words that suggest each category, in category order.
pub open spec fn category_words(c: int) -> Seq<Seq<char>> {
    if c == 0 {
        seq!["admin"@, "access"@, "auth"@, "authorize"@]
    } else if c == 1 {
        seq!["encrypt"@, "decrypt"@, "password"@, "secret"@]
    } else if c == 2 {
        seq!["select"@, "insert"@, "update"@, "delete"@, "exec"@, "system"@]
    } else if c == 3 {
        seq!["random"@, "token"@, "session"@]
    } else {
        seq!["debug"@, "config"@, "environment"@]
    }
}

/// Label of each category, in category order.
pub open spec fn category_label(c: int) -> Seq<char> {
    if c == 0 {
        access_label()
    } else if c == 1 {
        crypto_label()
    } else if c == 2 {
        injection_label()
    } else if c == 3 {
        design_label()
    } else {
        config_label()
    }
}

/// Labels of the first `n` categories that the lowercased text `t` suggests.
pub open spec fn suggested(t: Seq<char>, n: int) -> Seq<Seq<char>>
    decreases n,
{
    if n <= 0 {
        seq![]
    } else if mentions_any(t, category_words(n - 1)) {
        suggested(t, n - 1).push(category_label(n - 1))
    } else {
        suggested(t, n - 1)
    }
}

/// Recommendations for a category label.
pub open spec fn category_recommendations(label: Seq<char>) -> Seq<Seq<char>> {
    if label == access_label() {
        seq![
            "Implement proper authorization checks before sensitive operations"@,
            "Use role-based access control (RBAC)"@,
            "Apply the principle of least privilege"@,
            "Implement proper session management"@,
        ]
    } else if label == crypto_label() {
        seq![
            "Use strong encryption algorithms and key sizes"@,
            "Store encryption keys securely"@,
            "Implement proper key management and rotation"@,
            "Use secure random number generators"@,
        ]
    } else if label == injection_label() {
        seq![
            "Use parameterized queries or prepared statements"@,
            "Validate and sanitize all user inputs"@,
            "Use an ORM with built-in injection protection"@,
            "Implement content security policies"@,
        ]
    } else if label == design_label() {
        seq![
            "Follow secure design principles from the start"@,
            "Implement threat modeling"@,
            "Use secure defaults and fail-safe behavior"@,
            "Regular security reviews of design decisions"@,
        ]
    } else if label == config_label() {
        seq![
            "Secure default configurations"@,
            "Regular configuration reviews"@,
            "Environment-specific configurations"@,
            "Automated configuration validation"@,
        ]
    } else {
        seq!["Review and apply security best practices"@]
    }
}

/// Whether the text `h` holds one of `words`.
fn mentions(h: &Vec<char>, words: &[&str]) -> (r: bool)
    ensures
        r == mentions_any(h@, words@.map_values(|w: &str| w@)),
{
    let ghost ws = words@.map_values(|w: &str| w@);
    let mut i: usize = 0;
    while i < words.len()
        invariant
            i <= words@.len(),
            ws == words@.map_values(|w: &str| w@),
            forall|k: int| 0 <= k < i ==> !contains_seq(h@, #[trigger] ws[k]),
        decreases words@.len() - i,
    {
        let w = chars_of(words[i]);
        if contains_chars(h, &w) {
            assert(contains_seq(h@, ws[i as int]));
            return true;
        }
        i += 1;
    }
    false
}

/// Labels of the OWASP categories suggested by a file's text, in category
/// order.
pub fn analyze_file_owasp_categories(content: &str) -> (r: Vec<String>)
    ensures
        views(r@) == suggested(lower_of(content@), 5),
{
    let lower = to_lower(content);
    let h = chars_of(lower.as_str());
    proof {
        reveal_with_fuel(suggested, 6);
    }
    let mut r: Vec<String> = Vec::new();
    let a01 = ["admin", "access", "auth", "authorize"];
    let a02 = ["encrypt", "decrypt", "password", "secret"];
    let a03 = ["select", "insert", "update", "delete", "exec", "system"];
    let a04 = ["random", "token", "session"];
    let a05 = ["debug", "config", "environment"];
    assert(a01@.map_values(|w: &str| w@) =~= category_words(0));
    assert(a02@.map_values(|w: &str| w@) =~= category_words(1));
    assert(a03@.map_values(|w: &str| w@) =~= category_words(2));
    assert(a04@.map_values(|w: &str| w@) =~= category_words(3));
    assert(a05@.map_values(|w: &str| w@) =~= category_words(4));
    if mentions(&h, &a01) {
        r.push(String::from_str("A01:2021 – Broken Access Control"));
    }
    assert(views(r@) =~= suggested(h@, 1));
    if mentions(&h, &a02) {
        r.push(String::from_str("A02:2021 – Cryptographic Failures"));
    }
    assert(views(r@) =~= suggested(h@, 2));
    if mentions(&h, &a03) {
        r.push(String::from_str("A03:2021 – Injection"));
    }
    assert(views(r@) =~= suggested(h@, 3));
    if mentions(&h, &a04) {
        r.push(String::from_str("A04:2021 – Insecure Design"));
    }
    assert(views(r@) =~= suggested(h@, 4));
    if mentions(&h, &a05) {
        r.push(String::from_str("A05:2021 – Security Misconfiguration"));
    }
    assert(views(r@) =~= suggested(h@, 5));
    r
}

/// Strings of the given texts.
fn strings_of(texts: &[&str]) -> (r: Vec<String>)
    ensures
        views(r@) == texts@.map_values(|t: &str| t@),
{
    let mut r: Vec<String> = Vec::new();
    let mut i: usize = 0;
    while i < texts.len()
        invariant
            i <= texts@.len(),
            r@.len() == i,
            forall|k: int| 0 <= k < i ==> (#[trigger] r@[k])@ == texts@[k]@,
        decreases texts@.len() - i,
    {
        r.push(String::from_str(texts[i]));
        i += 1;
    }
    assert(views(r@) =~= texts@.map_values(|t: &str| t@));
    r
}

/// Recommendations for a category label (see [`category_recommendations`]).
pub fn get_category_recommendations(category: &str) -> (r: Vec<String>)
    ensures
        views(r@) == category_recommendations(category@),
{
    if same_text(category, "A01:2021 – Broken Access Control") {
        let t = [
            "Implement proper authorization checks before sensitive operations",
            "Use role-based access control (RBAC)",
            "Apply the principle of least privilege",
            "Implement proper session management",
        ];
        assert(t@.map_values(|t: &str| t@) =~= category_recommendations(category@));
        strings_of(&t)
    } else if same_text(category, "A02:2021 – Cryptographic Failures") {
        let t = [
            "Use strong encryption algorithms and key sizes",
            "Store encryption keys securely",
            "Implement proper key management and rotation",
            "Use secure random number generators",
        ];
        assert(t@.map_values(|t: &str| t@) =~= category_recommendations(category@));
        strings_of(&t)
    } else if same_text(category, "A03:2021 – Injection") {
        let t = [
            "Use parameterized queries or prepared statements",
            "Validate and sanitize all user inputs",
            "Use an ORM with built-in injection protection",
            "Implement content security policies",
        ];
        assert(t@.map_values(|t: &str| t@) =~= category_recommendations(category@));
        strings_of(&t)
    } else if same_text(category, "A04:2021 – Insecure Design") {
        let t = [
            "Follow secure design principles from the start",
            "Implement threat modeling",
            "Use secure defaults and fail-safe behavior",
            "Regular security reviews of design decisions",
        ];
        assert(t@.map_values(|t: &str| t@) =~= category_recommendations(category@));
        strings_of(&t)
    } else if same_text(category, "A05:2021 – Security Misconfiguration") {
        let t = [
            "Secure default configurations",
            "Regular configuration reviews",
            "Environment-specific configurations",
            "Automated configuration validation",
        ];
        assert(t@.map_values(|t: &str| t@) =~= category_recommendations(category@));
        strings_of(&t)
    } else {
        let t = ["Review and apply security best practices"];
        assert(t@.map_values(|t: &str| t@) =~= category_recommendations(category@));
        strings_of(&t)
    }
}

} // verus!
