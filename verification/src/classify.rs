use vstd::prelude::*;

use crate::escape::{escape_ignore, unescape_all};

verus! {

/// regex::Regex, declared so compiled patterns can stand in the
/// library's own types.
#[verifier::external_type_specification]
#[verifier::external_body]
pub struct ExRegex(regex::Regex);

/// Whether regex compilation accepts `pattern`: the result of
/// regex::Regex::new depends on the pattern text alone.
pub uninterp spec fn regex_valid(pattern: Seq<char>) -> bool;

/// Whether `text` matches the pattern compiled from `pattern`: the
/// result of regex::Regex::is_match depends on the pattern text and
/// the haystack alone.
pub uninterp spec fn regex_match(pattern: Seq<char>, text: Seq<char>) -> bool;

/// One pattern ignore value, kept together with the pattern text it
/// was compiled from; only `compile` builds one, so the two never
/// drift apart.
pub struct IgnorePattern {
    pattern: String,
    compiled: regex::Regex,
}

impl IgnorePattern {
    /// The pattern text this ignore value was compiled from.
    pub closed spec fn pattern_view(&self) -> Seq<char> {
        self.pattern@
    }

    /// Relies on regex::Regex::new: whether compilation succeeds is
    /// decided by the pattern text alone.
    #[verifier::external_body]
    pub(crate) fn compile(pattern: String) -> (r: Option<IgnorePattern>)
        ensures
            r is Some <==> regex_valid(pattern@),
            r matches Some(p) ==> p.pattern_view() == pattern@,
    {
        match regex::Regex::new(&pattern) {
            Ok(compiled) => Some(IgnorePattern { pattern, compiled }),
            Err(_) => None,
        }
    }

    /// Relies on regex::Regex::is_match: the result is decided by the
    /// pattern this value was compiled from and the text alone.
    #[verifier::external_body]
    pub(crate) fn is_match(&self, text: &str) -> (b: bool)
        ensures
            b == regex_match(self.pattern_view(), text@),
    {
        self.compiled.is_match(text)
    }
}

/// Unescapes every pattern ignore value and compiles it. `None` when
/// any value, after unescaping, is not a pattern that compilation
/// accepts: configuration rejects the whole set in that case, and the
/// scan never starts.
pub fn escape_regex_ignores(values: &Vec<String>) -> (r: Option<Vec<IgnorePattern>>)
    ensures
        (r is Some) <==> (forall|i: int|
            0 <= i < values@.len() ==> regex_valid(unescape_all(values@[i]@))),
        r matches Some(ps) ==> ps@.len() == values@.len() && forall|i: int|
            0 <= i < values@.len() ==> ps@[i].pattern_view() == unescape_all(values@[i]@),
{
    let mut out: Vec<IgnorePattern> = Vec::new();
    let mut idx: usize = 0;
    while idx < values.len()
        invariant
            idx <= values@.len(),
            out@.len() == idx,
            forall|i: int| 0 <= i < idx ==> regex_valid(unescape_all(values@[i]@)),
            forall|i: int| 0 <= i < idx ==> out@[i].pattern_view() == unescape_all(values@[i]@),
        decreases values@.len() - idx,
    {
        let unescaped = escape_ignore(values[idx].clone());
        match IgnorePattern::compile(unescaped) {
            Some(p) => {
                out.push(p);
            },
            None => {
                return None;
            },
        }
        idx = idx + 1;
    }
    Some(out)
}

/// Whether a response must be surfaced: it is suppressed exactly when
/// it equals one of the literal ignore values or matches one of the
/// pattern ignore values, and interesting otherwise.
pub open spec fn interesting(
    resp: Seq<char>,
    literals: Seq<String>,
    patterns: Seq<IgnorePattern>,
) -> bool {
    &&& !(exists|i: int| 0 <= i < literals.len() && literals[i]@ == resp)
    &&& !(exists|j: int| 0 <= j < patterns.len() && regex_match(patterns[j].pattern_view(), resp))
}

/// Decides whether a response is interesting. The literal ignore
/// values are compared after their one-time unescaping; the pattern
/// ignore values are already compiled.
pub fn is_interesting(
    response: &String,
    literals: &Vec<String>,
    patterns: &Vec<IgnorePattern>,
) -> (b: bool)
    ensures
        b == interesting(response@, literals@, patterns@),
{
    let mut i: usize = 0;
    while i < literals.len()
        invariant
            i <= literals@.len(),
            forall|k: int| 0 <= k < i ==> literals@[k]@ != response@,
        decreases literals@.len() - i,
    {
        if literals[i].eq(response) {
            return false;
        }
        i = i + 1;
    }
    let mut j: usize = 0;
    while j < patterns.len()
        invariant
            j <= patterns@.len(),
            forall|k: int| 0 <= k < j ==> !regex_match(patterns@[k].pattern_view(), response@),
            forall|k: int| 0 <= k < literals@.len() ==> literals@[k]@ != response@,
        decreases patterns@.len() - j,
    {
        if patterns[j].is_match(response.as_str()) {
            return false;
        }
        j = j + 1;
    }
    true
}

} // verus!
