use vstd::prelude::*;
use vstd::string::StringExecFns;

verus! {

/// The pattern of one namespace qualifier: a run of word characters followed by `::`.
pub const QUALIFIER_PATTERN: &'static str = r"(?:\w+::)";

/// Whether the regex engine accepts `pattern` as a regular expression.
pub uninterp spec fn pattern_accepted(pattern: Seq<char>) -> bool;

/// What is left of `text` once every non-overlapping match of `pattern`,
/// found left to right, has been replaced by the empty string.
pub uninterp spec fn matches_removed(pattern: Seq<char>, text: Seq<char>) -> Seq<char>;

/// Relies on `regex::Regex::new`, which compiles `pattern` or reports why it
/// cannot, and on `regex::Regex::replace_all` with an empty replacement, which
/// deletes every non-overlapping match from `text`.
#[verifier::external_body]
fn remove_all_matches(pattern: &str, text: &str) -> (r: Option<String>)
    ensures
        r is Some <==> pattern_accepted(pattern@),
        r is Some ==> r->Some_0@ == matches_removed(pattern@, text@),
{
    match regex::Regex::new(pattern) {
        Ok(re) => Some(re.replace_all(text, "").into_owned()),
        Err(_) => None,
    }
}

/// A type name with its namespace qualifiers removed. Should the regex engine
/// ever refuse the qualifier pattern, the name is kept as it is.
pub open spec fn prettified(name: Seq<char>) -> Seq<char> {
    if pattern_accepted(QUALIFIER_PATTERN@) {
        matches_removed(QUALIFIER_PATTERN@, name)
    } else {
        name
    }
}

/// Strips the namespace qualifiers from a type name
/// (`module::Sub::Type` becomes `Type`).
pub fn prettify_type_name(name: &str) -> (r: String)
    ensures
        r@ == prettified(name@),
{
    match remove_all_matches(QUALIFIER_PATTERN, name) {
        Some(s) => s,
        None => String::from_str(name),
    }
}

} // verus!
