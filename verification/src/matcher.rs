//! Finding an identifier in the text of a message.

use crate::text::text_of;
use vstd::prelude::*;
use vstd::string::*;

verus! {

/// Why a pattern could not be used.
#[verifier::external_type_specification]
#[verifier::external_body]
pub struct ExPatternFault(regex::Error);

/// What `regex::Regex::captures` finds for `pattern` in `haystack`: the text
/// of capture group `group` of the leftmost match, or nothing where there is
/// no match or the group took no part in it.
pub uninterp spec fn regex_capture(pattern: Seq<char>, haystack: Seq<char>, group: nat) -> Option<
    Seq<char>,
>;

/// Compiles `pattern` with `regex::Regex::new`, searches `haystack` with
/// `Regex::captures` and takes the text of group `group` with `Captures::get`
/// and `Match::as_str`. A pattern that does not compile gives the crate's
/// error. Otherwise the result is what the search finds; that this is a
/// function of pattern, haystack and group is all that is claimed of it.
///
/// Which patterns compile is not named: besides the syntax, the crate
/// refuses a pattern whose compiled form passes its size limit, and measures
/// that form in the machine's own sizes. Of the gift pattern it is claimed
/// that it compiles. It uses groups, alternation, `.`, a class, `*` and a
/// counted repetition as the crate documents them, and its compiled form is
/// a few hundred states where the limit is ten mebibytes.
#[verifier::external_body]
fn capture_group(pattern: &str, haystack: &str, group: usize) -> (found: Result<
    Option<String>,
    regex::Error,
>)
    ensures
        pattern@ == GIFT_PATTERN@ ==> found is Ok,
        found matches Ok(text) ==> text_of(text) == regex_capture(
            pattern@,
            haystack@,
            group as nat,
        ),
{
    let compiled = regex::Regex::new(pattern)?;
    Ok(
        compiled.captures(haystack).and_then(|groups| groups.get(group)).map(
            |hit| hit.as_str().to_string(),
        ),
    )
}

/// The words in which `regex::Error` describes itself.
#[verifier::external_body]
fn fault_text(fault: &regex::Error) -> (words: String) {
    fault.to_string()
}

/// The pattern could not be used; the reason is given in words.
#[derive(Debug, PartialEq, Eq)]
pub struct PatternError {
    pub reason: String,
}

/// An identifier follows one of the three gift addresses, after any number
/// of spaces, and is 16 to 24 letters and digits long.
pub const GIFT_PATTERN: &'static str =
    "(discord.com/gifts/|discordapp.com/gifts/|discord.gift/)[ ]*([a-zA-Z0-9]{16,24})";

/// The characters that markdown uses for emphasis, code and spoilers.
pub open spec fn is_markdown(c: char) -> bool {
    c == '*' || c == '_' || c == '`' || c == '~' || c == '|'
}

/// `text` without its markdown characters.
pub open spec fn sanitized(text: Seq<char>) -> Seq<char> {
    text.filter(|c: char| !is_markdown(c))
}

pub open spec fn is_digit(c: char) -> bool {
    '0' <= c <= '9'
}

pub open spec fn is_upper(c: char) -> bool {
    'A' <= c <= 'Z'
}

pub open spec fn is_lower(c: char) -> bool {
    'a' <= c <= 'z'
}

/// An identifier is 16 to 24 characters long, each an ASCII letter or digit.
pub open spec fn is_identifier(code: Seq<char>) -> bool {
    &&& 16 <= code.len() <= 24
    &&& forall|i: int|
        0 <= i < code.len() ==> is_digit(#[trigger] code[i]) || is_upper(code[i]) || is_lower(
            code[i],
        )
}

/// How many characters of `code` are digits.
pub open spec fn digits_in(code: Seq<char>) -> nat {
    code.filter(|c: char| is_digit(c)).len()
}

/// How many characters of `code` are upper-case letters.
pub open spec fn uppers_in(code: Seq<char>) -> nat {
    code.filter(|c: char| is_upper(c)).len()
}

/// How many characters of `code` are lower-case letters.
pub open spec fn lowers_in(code: Seq<char>) -> nat {
    code.filter(|c: char| is_lower(c)).len()
}

/// The distance between two numbers.
pub open spec fn distance(a: int, b: int) -> int {
    if a <= b {
        b - a
    } else {
        a - b
    }
}

/// How far the make-up of `code` is from that of a code drawn evenly from
/// the 62 letters and digits, which has 26 lower-case letters, 26 upper-case
/// letters and 10 digits in 62. The distances between the share found and
/// the share expected are summed over the three classes; the unit is one
/// part in 62 times the length.
pub open spec fn deviation(code: Seq<char>) -> int {
    let length = code.len() as int;
    distance(26 * length, 62 * (lowers_in(code) as int)) + distance(
        26 * length,
        62 * (uppers_in(code) as int),
    ) + distance(10 * length, 62 * (digits_in(code) as int))
}

/// A code is plausible when it is an identifier and its deviation stays
/// below 0.5121 of the whole. That is where the score
/// `1 / (1 + e^(25 d - 15))` of a deviation `d` passes 0.9.
pub open spec fn is_plausible(code: Seq<char>) -> bool {
    is_identifier(code) && deviation(code) * 100_000 < 3_175_088 * code.len()
}

/// What becomes of a captured text: it is the identifier found if it is
/// plausible, and dropped if not.
pub open spec fn selected(capture: Option<Seq<char>>) -> Option<Seq<char>> {
    match capture {
        Some(code) => if is_plausible(code) {
            Some(code)
        } else {
            None
        },
        None => None,
    }
}

/// Removes the markdown characters from a text.
pub fn sanitize_markdown(dirty_string: &str) -> (output: String)
    ensures
        output@ == sanitized(dirty_string@),
{
    let mut output = String::new();
    proof {
        reveal(Seq::filter);
    }
    for c in it: dirty_string.chars()
        invariant
            it.seq() == dirty_string@,
            output@ == sanitized(it.seq().take(it.index() as int)),
    {
        proof {
            reveal(Seq::filter);
            assert(it.seq().take(it.index() + 1).drop_last() =~= it.seq().take(
                it.index() as int,
            ));
        }
        if !(c == '*' || c == '_' || c == '`' || c == '~' || c == '|') {
            output.push(c);
        }
    }
    assert(dirty_string@.take(dirty_string@.len() as int) =~= dirty_string@);
    output
}

/// Whether `code` is a plausible identifier.
pub fn is_plausible_code(code: &str) -> (plausible: bool)
    ensures
        plausible == is_plausible(code@),
{
    let length: usize = code.unicode_len();
    if length < 16 || length > 24 {
        return false;
    }
    let mut lower: u64 = 0;
    let mut upper: u64 = 0;
    let mut numeric: u64 = 0;
    proof {
        reveal(Seq::filter);
    }
    for c in it: code.chars()
        invariant
            it.seq() == code@,
            code@.len() == length,
            length <= 24,
            lower == lowers_in(it.seq().take(it.index() as int)),
            upper == uppers_in(it.seq().take(it.index() as int)),
            numeric == digits_in(it.seq().take(it.index() as int)),
            lower + upper + numeric == it.index(),
            forall|i: int|
                0 <= i < it.index() ==> is_digit(#[trigger] code@[i]) || is_upper(code@[i])
                    || is_lower(code@[i]),
    {
        proof {
            reveal(Seq::filter);
            assert(it.seq().take(it.index() + 1).drop_last() =~= it.seq().take(
                it.index() as int,
            ));
        }
        if '0' <= c && c <= '9' {
            numeric = numeric + 1;
        } else if 'A' <= c && c <= 'Z' {
            upper = upper + 1;
        } else if 'a' <= c && c <= 'z' {
            lower = lower + 1;
        } else {
            assert(!(is_digit(code@[it.index() as int]) || is_upper(code@[it.index() as int])
                || is_lower(code@[it.index() as int])));
            return false;
        }
    }
    assert(code@.take(code@.len() as int) =~= code@);
    let size: u64 = length as u64;
    let total: u64 = span(26 * size, 62 * lower) + span(26 * size, 62 * upper) + span(
        10 * size,
        62 * numeric,
    );
    total * 100_000 < 3_175_088 * size
}

fn span(a: u64, b: u64) -> (d: u64)
    ensures
        d == distance(a as int, b as int),
{
    if a <= b {
        b - a
    } else {
        a - b
    }
}

/// Keeps a captured text if it is a plausible identifier.
pub fn select_code(capture: Option<String>) -> (code: Option<String>)
    ensures
        text_of(code) == selected(text_of(capture)),
{
    match capture {
        Some(code) => if is_plausible_code(code.as_str()) {
            Some(code)
        } else {
            None
        },
        None => None,
    }
}

/// Searches `haystack` for `pattern` and gives the text of capture group
/// `group` of the first match, if there is one. A pattern that cannot be
/// used gives the reason; the gift pattern can be used.
pub fn find_group(pattern: &str, haystack: &str, group: usize) -> (found: Result<
    Option<String>,
    PatternError,
>)
    ensures
        pattern@ == GIFT_PATTERN@ ==> found is Ok,
        found matches Ok(text) ==> text_of(text) == regex_capture(
            pattern@,
            haystack@,
            group as nat,
        ),
{
    match capture_group(pattern, haystack, group) {
        Ok(capture) => Ok(capture),
        Err(fault) => Err(PatternError { reason: fault_text(&fault) }),
    }
}

/// The identifier in a message, if it holds one: the text is cleared of
/// markdown, searched for a gift address, and what follows the address is
/// kept if it is plausible. The search is made on every text: the result is
/// never an error.
pub fn get_gift_code(content: &str) -> (found: Result<Option<String>, PatternError>)
    ensures
        found matches Ok(code) && text_of(code) == selected(
            regex_capture(GIFT_PATTERN@, sanitized(content@), 2),
        ),
{
    let cleaned_content = sanitize_markdown(content);
    match find_group(GIFT_PATTERN, cleaned_content.as_str(), 2) {
        Ok(capture) => Ok(select_code(capture)),
        Err(fault) => Err(fault),
    }
}

} // verus!
