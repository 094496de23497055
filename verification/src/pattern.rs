//! The pattern test applied to newly appended text.
//!
//! Two tests are offered. The substring test looks for the pattern as a
//! contiguous run of bytes, ignoring ASCII letter case; the search itself is
//! done by an Aho-Corasick automaton. The regular-expression test hands the
//! pattern, wrapped so that it is case-insensitive and unanchored, to the
//! regex engine.

use vstd::prelude::*;
use vstd::utf8::encode_utf8;
use aho_corasick::AcAutomaton;
use aho_corasick::Automaton;

verus! {

/// The longest literal pattern, in bytes, that the automaton is built for:
/// it numbers its states, two more than the pattern has bytes, in 32 bits.
pub const MAX_LITERAL_LEN: usize = 0xFFFF_FFFD;

/// Why a pattern could not be tested.
#[derive(Debug, PartialEq, Eq)]
pub enum PatternError {
    /// The literal pattern has more than `MAX_LITERAL_LEN` bytes.
    TooLong,
    /// The regex engine did not accept the pattern; `detail` is its message.
    Rejected { detail: String },
}

/// The ASCII lower-case form of a byte: upper-case letters move down to
/// lower case, every other byte stays.
pub open spec fn lower(b: u8) -> u8 {
    if 0x41 <= b && b <= 0x5a {
        (b + 0x20) as u8
    } else {
        b
    }
}

/// A byte sequence with every ASCII upper-case letter in lower case.
pub open spec fn fold(s: Seq<u8>) -> Seq<u8> {
    Seq::new(s.len(), |i: int| lower(s[i]))
}

/// `needle` stands in `hay` at offset `at`.
pub open spec fn occurs_at(hay: Seq<u8>, needle: Seq<u8>, at: int) -> bool {
    &&& 0 <= at
    &&& at + needle.len() <= hay.len()
    &&& hay.subrange(at, at + needle.len()) == needle
}

/// `needle` stands somewhere in `hay`.
pub open spec fn occurs(hay: Seq<u8>, needle: Seq<u8>) -> bool {
    exists|at: int| occurs_at(hay, needle, at)
}

/// The substring test on bytes: a non-empty `needle` stands somewhere in
/// `hay` once ASCII letter case is ignored. An empty needle matches nothing.
pub open spec fn contains_folded(hay: Seq<u8>, needle: Seq<u8>) -> bool {
    needle.len() > 0 && occurs(fold(hay), fold(needle))
}

/// What the regex engine answers when asked whether `pattern` matches
/// anywhere in `haystack`.
pub uninterp spec fn regex_is_match(pattern: Seq<char>, haystack: Seq<char>) -> bool;

/// The regular expression that a watch pattern stands for: case-insensitive,
/// with anything allowed before and after it on the line.
pub open spec fn line_pattern(pattern: Seq<char>) -> Seq<char> {
    "(?i).*"@ + pattern + ".*"@
}

#[verifier::external_type_specification]
#[verifier::external_body]
pub struct ExRegexError(regex::Error);

/// Builds an `aho_corasick::AcAutomaton` over the single pattern `needle`
/// and asks `Automaton::find` for a match in `hay`. The automaton reports a
/// match exactly where the pattern stands byte for byte in the text, and it
/// leaves an empty pattern out when it is built, so that one never matches.
#[verifier::external_body]
fn automaton_finds(needle: &[u8], hay: &[u8]) -> (found: bool)
    requires
        needle@.len() <= MAX_LITERAL_LEN,
    ensures
        found == (needle@.len() > 0 && occurs(hay@, needle@)),
{
    AcAutomaton::new(vec![needle]).find(hay).next().is_some()
}

/// Compiles `pattern` with `regex::Regex::new` and, where that succeeds,
/// asks `Regex::is_match` whether it matches anywhere in `haystack`. Nothing
/// is claimed about which patterns compile.
#[verifier::external_body]
fn regex_search(pattern: &str, haystack: &str) -> (r: Result<bool, regex::Error>)
    ensures
        r matches Ok(found) ==> found == regex_is_match(pattern@, haystack@),
{
    match regex::Regex::new(pattern) {
        Ok(re) => Ok(re.is_match(haystack)),
        Err(e) => Err(e),
    }
}

/// The message of a `regex::Error`, as its `Display` impl writes it.
#[verifier::external_body]
fn regex_error_text(e: &regex::Error) -> (text: String) {
    format!("{}", e)
}

/// The ASCII lower-case form of a byte.
pub fn lower_byte(b: u8) -> (out: u8)
    ensures
        out == lower(b),
{
    if 0x41 <= b && b <= 0x5a {
        b + 0x20
    } else {
        b
    }
}

/// A copy of `s` with every ASCII upper-case letter in lower case.
pub fn lower_bytes(s: &[u8]) -> (out: Vec<u8>)
    ensures
        out@ == fold(s@),
{
    let mut out: Vec<u8> = Vec::new();
    let mut i: usize = 0;
    while i < s.len()
        invariant
            i <= s.len(),
            out@.len() == i,
            forall|k: int| 0 <= k < i ==> out@[k] == lower(s@[k]),
        decreases s.len() - i,
    {
        out.push(lower_byte(s[i]));
        i += 1;
    }
    assert(out@ =~= fold(s@));
    out
}

/// Letter case plays no part in the substring test: the verdict on a text
/// and a pattern is the verdict on their lower-case forms.
pub proof fn lemma_case_is_ignored(hay: Seq<u8>, needle: Seq<u8>)
    ensures
        contains_folded(hay, needle) == contains_folded(fold(hay), fold(needle)),
{
    assert(fold(fold(hay)) =~= fold(hay));
    assert(fold(fold(needle)) =~= fold(needle));
}

/// The substring test: whether `pattern` stands somewhere in `chunk`,
/// ignoring ASCII letter case. A pattern of more than `MAX_LITERAL_LEN`
/// bytes is refused.
pub fn contains_ignore_case(chunk: &str, pattern: &str) -> (r: Result<bool, PatternError>)
    ensures
        encode_utf8(pattern@).len() <= MAX_LITERAL_LEN ==> r == Ok::<bool, PatternError>(
            contains_folded(encode_utf8(chunk@), encode_utf8(pattern@)),
        ),
        encode_utf8(pattern@).len() > MAX_LITERAL_LEN ==> r == Err::<bool, PatternError>(
            PatternError::TooLong,
        ),
{
    let needle = pattern.as_bytes();
    if needle.len() > MAX_LITERAL_LEN {
        return Err(PatternError::TooLong);
    }
    let folded_needle = lower_bytes(needle);
    let folded_hay = lower_bytes(chunk.as_bytes());
    Ok(automaton_finds(folded_needle.as_slice(), folded_hay.as_slice()))
}

/// The text of the regular expression that `pattern` stands for.
pub fn line_regex(pattern: &str) -> (out: String)
    ensures
        out@ == line_pattern(pattern@),
{
    let mut out = String::from_str("(?i).*");
    out.append(pattern);
    out.append(".*");
    out
}

/// Turns the regex engine's answer into the library's: a verdict stays, a
/// refused pattern becomes `Rejected` with the message given.
pub fn regex_verdict(answer: Result<bool, String>) -> (r: Result<bool, PatternError>)
    ensures
        match answer {
            Ok(found) => r == Ok::<bool, PatternError>(found),
            Err(detail) => r == Err::<bool, PatternError>(PatternError::Rejected { detail }),
        },
{
    match answer {
        Ok(found) => Ok(found),
        Err(detail) => Err(PatternError::Rejected { detail }),
    }
}

/// The regular-expression test: whether the expression that `pattern`
/// stands for matches anywhere in `chunk`. A pattern that the engine does
/// not accept is `Rejected`.
pub fn matches_regex(chunk: &str, pattern: &str) -> (r: Result<bool, PatternError>)
    ensures
        r matches Ok(found) ==> found == regex_is_match(line_pattern(pattern@), chunk@),
        r matches Err(e) ==> e is Rejected,
{
    let expression = line_regex(pattern);
    let answer = match regex_search(expression.as_str(), chunk) {
        Ok(found) => Ok(found),
        Err(e) => Err(regex_error_text(&e)),
    };
    regex_verdict(answer)
}

/// Which of the two pattern tests a monitor applies.
#[derive(Clone, Copy, Debug, PartialEq, Eq, Structural)]
pub enum Matcher {
    /// Case-insensitive substring containment.
    Substring,
    /// Case-insensitive regular-expression match.
    Regex,
}

impl Matcher {
    /// Whether `chunk` satisfies `pattern` under this test.
    pub open spec fn accepts(self, pattern: Seq<char>, chunk: Seq<char>) -> bool {
        match self {
            Matcher::Substring => contains_folded(encode_utf8(chunk), encode_utf8(pattern)),
            Matcher::Regex => regex_is_match(line_pattern(pattern), chunk),
        }
    }

    /// Whether this test is certain to give a verdict on `pattern`. The
    /// substring test does so up to `MAX_LITERAL_LEN` bytes; what the regex
    /// engine accepts is for the engine to say.
    pub open spec fn always_answers(self, pattern: Seq<char>) -> bool {
        self == Matcher::Substring && encode_utf8(pattern).len() <= MAX_LITERAL_LEN
    }

    /// What this test may answer for `pattern` on `chunk`: its verdict, or
    /// a refusal. The substring test refuses exactly the patterns that are
    /// too long; which patterns the regex engine refuses is its own affair.
    pub open spec fn may_answer(
        self,
        pattern: Seq<char>,
        chunk: Seq<char>,
        answer: Result<bool, PatternError>,
    ) -> bool {
        match answer {
            Ok(found) => found == self.accepts(pattern, chunk) && (self == Matcher::Substring
                ==> self.always_answers(pattern)),
            Err(e) => match self {
                Matcher::Substring => e == PatternError::TooLong && !self.always_answers(pattern),
                Matcher::Regex => e is Rejected,
            },
        }
    }

    /// Applies this test to `chunk`.
    pub fn test(self, pattern: &str, chunk: &str) -> (answer: Result<bool, PatternError>)
        ensures
            self.may_answer(pattern@, chunk@, answer),
    {
        match self {
            Matcher::Substring => contains_ignore_case(chunk, pattern),
            Matcher::Regex => matches_regex(chunk, pattern),
        }
    }
}

} // verus!
