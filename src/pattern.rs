use vstd::prelude::*;

verus! {

/// Whether the regular-expression syntax `pattern` compiles.
pub uninterp spec fn regex_compiles(pattern: Seq<char>) -> bool;

/// Whether the compiled form of `pattern` finds a match anywhere in `text`
/// (an unanchored search).
pub uninterp spec fn regex_finds(pattern: Seq<char>, text: Seq<char>) -> bool;

#[verifier::external_type_specification]
#[verifier::external_body]
pub struct ExRegex(regex::Regex);

#[verifier::external_type_specification]
#[verifier::external_body]
pub struct ExRegexError(regex::Error);

/// Relies on `regex::Regex::new`: compiles `source` with the default options,
/// and fails exactly when the syntax is rejected or the program is too large;
/// both depend on the text of the pattern alone.
#[verifier::external_body]
fn compile(source: &str) -> (r: Result<regex::Regex, regex::Error>)
    ensures
        r is Ok <==> regex_compiles(source@),
{
    regex::Regex::new(source)
}

/// Relies on `regex::Error`'s `Display`: a human-readable reason.
#[verifier::external_body]
fn describe_regex_error(e: &regex::Error) -> (r: String) {
    e.to_string()
}

/// A regular expression compiled once, together with the text it was
/// compiled from. The two fields are private and only `Pattern::new` builds
/// a value, so `compiled` is always the compilation of `source`.
#[derive(Debug)]
pub struct Pattern {
    source: String,
    compiled: regex::Regex,
}

/// Why a pattern could not be compiled.
#[derive(Debug)]
pub struct PatternError {
    pub pattern: String,
    pub message: String,
}

/// Relies on `regex::Regex::is_match` on the compiled field of a `Pattern`,
/// which holds the compilation of its `source` field.
#[verifier::external_body]
fn search(p: &Pattern, text: &str) -> (r: bool)
    ensures
        r == regex_finds(p.source@, text@),
{
    p.compiled.is_match(text)
}

impl View for Pattern {
    type V = Seq<char>;

    /// A pattern is seen as the text it was compiled from.
    closed spec fn view(&self) -> Seq<char> {
        self.source@
    }
}

impl Pattern {
    /// Compiles `source`; fails exactly when it is not a valid regular expression.
    pub fn new(source: &str) -> (r: Result<Pattern, PatternError>)
        ensures
            r is Ok <==> regex_compiles(source@),
            r matches Ok(p) ==> p@ == source@,
            r matches Err(e) ==> e.pattern@ == source@,
    {
        match compile(source) {
            Ok(compiled) => Ok(Pattern { source: String::from_str(source), compiled }),
            Err(e) => Err(PatternError { pattern: String::from_str(source), message: describe_regex_error(&e) }),
        }
    }

    /// The text this pattern was compiled from.
    pub fn as_str(&self) -> (r: &str)
        ensures
            r@ == self@,
    {
        self.source.as_str()
    }

    /// Whether the pattern matches somewhere in `text`.
    pub fn is_match(&self, text: &str) -> (r: bool)
        ensures
            r == regex_finds(self@, text@),
    {
        search(self, text)
    }
}

} // verus!
