//! Compiled regular expressions (the `regex` crate), known by their source text.
use vstd::prelude::*;

verus! {

#[verifier::external_type_specification]
#[verifier::external_body]
pub struct ExRegex(regex::Regex);

#[verifier::external_type_specification]
#[verifier::external_body]
pub struct ExRegexError(regex::Error);

/// A compiled regular expression together with the source it was compiled from.
/// Only `Pattern::compile` makes one.
pub struct Pattern {
    source: String,
    compiled: regex::Regex,
}

impl View for Pattern {
    type V = Seq<char>;

    closed spec fn view(&self) -> Seq<char> {
        self.source@
    }
}

/// Whether `regex::Regex::new` accepts `source`.
pub uninterp spec fn regex_accepts(source: Seq<char>) -> bool;

/// What `Regex::replace_all` makes of `haystack` for the expression compiled from
/// `source`, with `replacement` in place of every match.
pub uninterp spec fn regex_replace_all(
    source: Seq<char>,
    haystack: Seq<char>,
    replacement: Seq<char>,
) -> Seq<char>;

/// The texts of the successive non-overlapping matches that `Regex::find_iter` yields
/// in `haystack` for the expression compiled from `source`.
pub uninterp spec fn regex_matches(source: Seq<char>, haystack: Seq<char>) -> Seq<Seq<char>>;

/// The texts of a sequence of strings.
pub open spec fn string_texts(v: Seq<String>) -> Seq<Seq<char>> {
    v.map_values(|s: String| s@)
}

impl Pattern {
    /// Compiles `source` with `regex::Regex::new`.
    ///
    /// Trusted: the call succeeds exactly when `regex_accepts(source)`, which is a
    /// function of the source text alone; the pattern remembers its source.
    #[verifier::external_body]
    pub(crate) fn compile(source: &str) -> (r: Result<Pattern, regex::Error>)
        ensures
            r is Ok <==> regex_accepts(source@),
            r matches Ok(p) ==> p@ == source@,
    {
        regex::Regex::new(source).map(|compiled| Pattern { source: source.to_owned(), compiled })
    }

    /// Calls `Regex::replace_all` with a `&str` replacement and takes ownership of the
    /// result. As the regex crate documents, `$name` and `${name}` in such a
    /// replacement expand to capture groups; the replacements that this library
    /// passes hold no `$`.
    ///
    /// Trusted: the result is `regex_replace_all` of the source, the haystack and the
    /// replacement.
    #[verifier::external_body]
    pub(crate) fn replace_all(&self, haystack: &str, replacement: &str) -> (r: String)
        ensures
            r@ == regex_replace_all(self@, haystack@, replacement@),
    {
        self.compiled.replace_all(haystack, replacement).into_owned()
    }

    /// Calls `Regex::find_iter` and collects the text of each match, in order.
    ///
    /// Trusted: the texts are `regex_matches` of the source and the haystack.
    #[verifier::external_body]
    pub(crate) fn find_all(&self, haystack: &str) -> (r: Vec<String>)
        ensures
            string_texts(r@) == regex_matches(self@, haystack@),
    {
        self.compiled.find_iter(haystack).map(|m| m.as_str().to_owned()).collect()
    }
}

} // verus!
