//! Removal of terminal escape sequences, done by the `regex` crate.

use vstd::prelude::*;

verus! {

/// Whether `regex::Regex::new` accepts `pattern` as a regular expression.
pub uninterp spec fn regex_compiles(pattern: Seq<char>) -> bool;

/// What `regex::Regex::replace_all` returns for the regular expression compiled
/// from `pattern`: `haystack` with every match of the expression, found from
/// left to right without overlap, replaced by what `regex` makes of
/// `replacement`, in which it expands the references to capture groups that a
/// dollar sign begins. The library only ever replaces by the empty text.
pub uninterp spec fn regex_replace_all(
    pattern: Seq<char>,
    haystack: Seq<char>,
    replacement: Seq<char>,
) -> Seq<char>;

/// `regex::Error`, the reason for which `regex` refuses a pattern. It is
/// carried through and never looked into.
#[verifier::external_type_specification]
#[verifier::external_body]
pub struct ExRegexError(regex::Error);

/// The pattern of a terminal escape sequence: the escape character, an opening
/// square bracket, any number of digits and semicolons, and one ASCII letter.
pub const ESCAPE_PATTERN: &'static str = r"\x1b\[[0-9;]*[a-zA-Z]";

/// What is said of a refused escape pattern.
pub const REJECTED_MESSAGE: &'static str = "the pattern of terminal escape sequences was refused";

/// Why a name could not be cleaned.
#[derive(Debug)]
pub enum PatternError {
    /// The regular expression engine refused the escape pattern.
    Rejected,
}

impl PatternError {
    /// The error in words.
    pub fn message(&self) -> (text: String)
        ensures
            text@ == REJECTED_MESSAGE@,
    {
        match self {
            PatternError::Rejected => REJECTED_MESSAGE.to_owned(),
        }
    }
}

/// `text` without its terminal escape sequences.
pub open spec fn without_escapes(text: Seq<char>) -> Seq<char> {
    regex_replace_all(ESCAPE_PATTERN@, text, Seq::empty())
}

/// Compiles `pattern` with `regex::Regex::new` and, where that gives a regular
/// expression, replaces with `regex::Regex::replace_all` every match of it in
/// `haystack` by `replacement`.
///
/// Believed, not proved: the call fails exactly for the patterns that `regex`
/// refuses, whatever the other two strings are, and the text it returns
/// otherwise depends on the three strings alone. What that text is, is left to
/// `regex`.
#[verifier::external_body]
fn replace_all(pattern: &str, haystack: &str, replacement: &str) -> (out: Result<
    String,
    regex::Error,
>)
    ensures
        out is Ok <==> regex_compiles(pattern@),
        out matches Ok(text) ==> text@ == regex_replace_all(pattern@, haystack@, replacement@),
{
    let re = regex::Regex::new(pattern)?;
    Ok(re.replace_all(haystack, replacement).into_owned())
}

/// Removes the terminal escape sequences from `text`.
pub fn strip_escapes(text: &str) -> (out: Result<String, PatternError>)
    ensures
        out is Ok <==> regex_compiles(ESCAPE_PATTERN@),
        out matches Ok(clean) ==> clean@ == without_escapes(text@),
{
    match replace_all(ESCAPE_PATTERN, text, "") {
        Ok(clean) => {
            proof {
                reveal_strlit("");
                assert(""@ =~= Seq::<char>::empty());
            }
            Ok(clean)
        },
        Err(_) => Err(PatternError::Rejected),
    }
}

} // verus!
