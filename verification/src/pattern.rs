//! Compiled search patterns.

use vstd::prelude::*;
use vstd::string::*;
use vstd::utf8::*;

verus! {

/// `regex::Regex`, a compiled pattern: carried through as an opaque value.
#[verifier::external_type_specification]
#[verifier::external_body]
pub struct ExRegex(regex::Regex);

/// `regex::Error`, what the compiler reports of a pattern that it refuses:
/// carried through as an opaque value.
#[verifier::external_type_specification]
#[verifier::external_body]
pub struct ExRegexError(regex::Error);

/// Why a pattern could not be compiled.
#[derive(Debug, PartialEq, Eq)]
pub struct PatternError {
    /// The compiler's own description of the failure.
    pub message: String,
}

/// A search pattern: its source text together with its compiled form.
///
/// The only way to obtain a `Pattern` is [`Pattern::new`], so the compiled
/// form is always the one that the source text compiles to.
#[derive(Debug)]
pub struct Pattern {
    source: String,
    compiled: regex::Regex,
}

impl View for Pattern {
    type V = Seq<char>;

    /// A pattern is modelled by its source text.
    closed spec fn view(&self) -> Seq<char> {
        self.source@
    }
}

/// Whether the pattern compiler accepts `source`: it is valid syntax, and
/// what it compiles to stays within the compiler's default size limit. The
/// limit is counted in bytes of the compiled program, as the target that the
/// crate is built for lays it out.
pub uninterp spec fn regex_compiles(source: Seq<char>) -> bool;

/// Whether the pattern with the given source matches somewhere in `haystack`.
pub uninterp spec fn regex_is_match(source: Seq<char>, haystack: Seq<char>) -> bool;

/// The leftmost match of the pattern with the given source in `haystack`, as
/// the byte offsets of its start and of its end in the UTF-8 encoding of
/// `haystack`, or `None` where the pattern matches nowhere.
pub uninterp spec fn regex_find(source: Seq<char>, haystack: Seq<char>) -> Option<(int, int)>;

/// Whether `c` has a meaning of its own in a pattern.
pub open spec fn is_meta_character(c: char) -> bool {
    c == '\\' || c == '.' || c == '+' || c == '*' || c == '?' || c == '(' || c == ')' || c == '|'
        || c == '[' || c == ']' || c == '{' || c == '}' || c == '^' || c == '$' || c == '#'
        || c == '&' || c == '-' || c == '~'
}

/// `text` with a backslash put before each of its meta characters: a pattern
/// source that stands for `text` itself.
pub open spec fn escaped(text: Seq<char>) -> Seq<char>
    decreases text.len(),
{
    if text.len() == 0 {
        Seq::empty()
    } else if is_meta_character(text.last()) {
        escaped(text.drop_last()).push('\\').push(text.last())
    } else {
        escaped(text.drop_last()).push(text.last())
    }
}

/// `regex::Regex::new`: compiles `source`. Whether it succeeds depends on
/// `source` alone and is named by [`regex_compiles`]; nothing is claimed of
/// the error.
#[verifier::external_body]
fn compile(source: &str) -> (r: Result<regex::Regex, regex::Error>)
    ensures
        r is Ok == regex_compiles(source@),
{
    regex::Regex::new(source)
}

/// `regex::Error`'s `Display`: the text of a compile error. Nothing is
/// claimed of the text.
#[verifier::external_body]
fn describe(error: &regex::Error) -> (r: String) {
    format!("{}", error)
}

/// `regex::Regex::is_match` on the compiled form of `pattern`: the answer is
/// the one named by [`regex_is_match`] for the pattern's source and the
/// haystack. It depends on nothing else, since the compiled form of a
/// `Pattern` is what `regex::Regex::new` made of its source.
#[verifier::external_body]
fn search_any(pattern: &Pattern, haystack: &str) -> (r: bool)
    ensures
        r == regex_is_match(pattern@, haystack@),
{
    pattern.compiled.is_match(haystack)
}

/// `regex::Regex::find` on the compiled form of `pattern`: the offsets are
/// those named by [`regex_find`] for the pattern's source and the haystack.
/// As the crate documents of every match, start and end are in order and
/// both fall on character boundaries of the haystack.
#[verifier::external_body]
fn search_first(pattern: &Pattern, haystack: &str) -> (r: Option<(usize, usize)>)
    ensures
        match r {
            Some((start, end)) => {
                &&& regex_find(pattern@, haystack@) == Some((start as int, end as int))
                &&& start <= end
                &&& is_char_boundary(haystack.spec_bytes(), start as int)
                &&& is_char_boundary(haystack.spec_bytes(), end as int)
            },
            None => regex_find(pattern@, haystack@) is None,
        },
{
    match pattern.compiled.find(haystack) {
        Some(found) => Some((found.start(), found.end())),
        None => None,
    }
}

/// `regex::escape`: every meta character of `text` gets a backslash before
/// it, and nothing else changes.
#[verifier::external_body]
fn quote(text: &str) -> (r: String)
    ensures
        r@ == escaped(text@),
{
    regex::escape(text)
}

impl Pattern {
    /// Pairs `source` with what compiling it gave: a pattern where it
    /// compiled, the compiler's complaint where it did not.
    fn bind(source: &str, outcome: Result<regex::Regex, regex::Error>) -> (r: Result<
        Pattern,
        PatternError,
    >)
        ensures
            r is Ok == outcome is Ok,
            r matches Ok(p) ==> p@ == source@,
    {
        match outcome {
            Ok(compiled) => Ok(Pattern { source: source.to_owned(), compiled }),
            Err(error) => Err(PatternError { message: describe(&error) }),
        }
    }

    /// Compiles `source`. Succeeds exactly where the pattern compiler
    /// accepts `source`; the pattern's model is then `source`.
    pub fn new(source: &str) -> (r: Result<Pattern, PatternError>)
        ensures
            r is Ok == regex_compiles(source@),
            r matches Ok(p) ==> p@ == source@,
    {
        Pattern::bind(source, compile(source))
    }

    /// The source text the pattern was compiled from.
    pub fn as_str(&self) -> (r: &str)
        ensures
            r@ == self@,
    {
        self.source.as_str()
    }

    /// Whether the pattern matches anywhere in `haystack`.
    pub fn is_match(&self, haystack: &str) -> (r: bool)
        ensures
            r == regex_is_match(self@, haystack@),
    {
        search_any(self, haystack)
    }

    /// The leftmost match in `haystack`: the byte offsets of its start and
    /// of its end, both on character boundaries of `haystack`.
    pub fn find(&self, haystack: &str) -> (r: Option<(usize, usize)>)
        ensures
            match r {
                Some((start, end)) => {
                    &&& regex_find(self@, haystack@) == Some((start as int, end as int))
                    &&& start <= end
                    &&& is_char_boundary(haystack.spec_bytes(), start as int)
                    &&& is_char_boundary(haystack.spec_bytes(), end as int)
                },
                None => regex_find(self@, haystack@) is None,
            },
    {
        search_first(self, haystack)
    }

    /// A pattern source that matches `text` literally.
    pub fn escape(text: &str) -> (r: String)
        ensures
            r@ == escaped(text@),
    {
        quote(text)
    }
}

} // verus!
