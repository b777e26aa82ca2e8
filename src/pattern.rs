//! Extraction of fields from a listing's detail page by regular expression.
use vstd::prelude::*;

verus! {

#[verifier::external_type_specification]
#[verifier::external_body]
pub struct ExRegexError(regex::Error);

/// Group 1 of the leftmost-first match of `pattern` in `haystack`, when the
/// pattern matches and the group takes part in the match.
pub uninterp spec fn capture_of(pattern: Seq<char>, haystack: Seq<char>) -> Option<Seq<char>>;

/// `regex::Regex::new` accepts `pattern`.
pub uninterp spec fn compiles_of(pattern: Seq<char>) -> bool;

/// The pattern compiles and its group 1 is found in `haystack`.
pub open spec fn found_in(pattern: Seq<char>, haystack: Seq<char>) -> bool {
    compiles_of(pattern) && capture_of(pattern, haystack) is Some
}

/// Relies on `regex::Regex::new`, `Regex::captures` and `Captures::get`: the
/// text of group 1 of the first match of `pattern` in `haystack`, or the
/// error of a pattern that does not compile. Whether it compiles depends on
/// the pattern alone.
#[verifier::external_body]
fn first_capture(pattern: &str, haystack: &str) -> (r: Result<Option<String>, regex::Error>)
    ensures
        r is Ok <==> compiles_of(pattern@),
        r matches Ok(found) ==> match found {
            Some(s) => capture_of(pattern@, haystack@) == Some(s@),
            None => capture_of(pattern@, haystack@) is None,
        },
{
    let re = regex::Regex::new(pattern)?;
    match re.captures(haystack) {
        Some(captures) => match captures.get(1) {
            Some(m) => Ok(Some(m.as_str().to_string())),
            None => Ok(None),
        },
        None => Ok(None),
    }
}

/// Why a field could not be taken from a detail page.
#[derive(Debug)]
pub enum DetailError {
    /// A pattern did not compile.
    Pattern(regex::Error),
    /// The page holds no postal code.
    NoPostalCode,
    /// The page holds no free text.
    NoText,
    /// The floor count is not a single digit.
    BadFloors,
}

/// The pattern of the postal code.
pub const POSTAL_CODE_PATTERN: &'static str = "\"postCode\":\"([0-9]{5})\"";

/// The pattern of the floor count.
pub const FLOORS_PATTERN: &'static str = "\"floorCount\":([0-9]),";

/// The pattern of the free text.
pub const TEXT_PATTERN: &'static str = "\"text\":\"(.*?)\",";

/// Takes group 1 of `pattern`'s first match in `html`; a missing match is
/// `missing`.
fn required_capture(pattern: &str, html: &str, missing: DetailError) -> (r: Result<String, DetailError>)
    ensures
        r matches Ok(s) ==> capture_of(pattern@, html@) == Some(s@),
        r is Ok <==> found_in(pattern@, html@),
        r matches Err(e) ==> if compiles_of(pattern@) {
            e == missing
        } else {
            e is Pattern
        },
{
    match first_capture(pattern, html) {
        Ok(Some(s)) => Ok(s),
        Ok(None) => Err(missing),
        Err(e) => Err(DetailError::Pattern(e)),
    }
}

/// The postal code on a detail page.
pub fn postal_code(html: &str) -> (r: Result<String, DetailError>)
    ensures
        r matches Ok(s) ==> capture_of(POSTAL_CODE_PATTERN@, html@) == Some(s@),
        r is Ok <==> found_in(POSTAL_CODE_PATTERN@, html@),
        r matches Err(e) ==> if compiles_of(POSTAL_CODE_PATTERN@) {
            e is NoPostalCode
        } else {
            e is Pattern
        },
{
    required_capture(POSTAL_CODE_PATTERN, html, DetailError::NoPostalCode)
}

/// The free text on a detail page.
pub fn free_text(html: &str) -> (r: Result<String, DetailError>)
    ensures
        r matches Ok(s) ==> capture_of(TEXT_PATTERN@, html@) == Some(s@),
        r is Ok <==> found_in(TEXT_PATTERN@, html@),
        r matches Err(e) ==> if compiles_of(TEXT_PATTERN@) {
            e is NoText
        } else {
            e is Pattern
        },
{
    required_capture(TEXT_PATTERN, html, DetailError::NoText)
}

/// The value of `c` when it is a decimal digit.
pub open spec fn digit_value(c: char) -> Option<u8> {
    if '0' <= c && c <= '9' {
        Some((c as u32 - '0' as u32) as u8)
    } else {
        None
    }
}

/// The number of floors that a captured floor count stands for: its one
/// decimal digit.
pub open spec fn floors_of(captured: Seq<char>) -> Option<u8> {
    if captured.len() == 1 {
        digit_value(captured[0])
    } else {
        None
    }
}

/// Reads a floor count of one decimal digit.
pub fn parse_floors(captured: &str) -> (r: Option<u8>)
    ensures
        r == floors_of(captured@),
{
    if captured.unicode_len() != 1 {
        return None;
    }
    let c: char = captured.get_char(0);
    if '0' <= c && c <= '9' {
        Some((c as u32 - '0' as u32) as u8)
    } else {
        None
    }
}

/// The page's floor count is present but not a single digit.
pub open spec fn bad_floors(html: Seq<char>) -> bool {
    capture_of(FLOORS_PATTERN@, html) matches Some(c) && floors_of(c) is None
}

/// The number of floors on a detail page, `None` where the page gives none.
pub fn floors(html: &str) -> (r: Result<Option<u8>, DetailError>)
    ensures
        r matches Ok(f) ==> match capture_of(FLOORS_PATTERN@, html@) {
            Some(c) => floors_of(c) is Some && f == floors_of(c),
            None => f is None,
        },
        r is Ok <==> (compiles_of(FLOORS_PATTERN@) && !bad_floors(html@)),
        r matches Err(e) ==> if compiles_of(FLOORS_PATTERN@) {
            e is BadFloors
        } else {
            e is Pattern
        },
{
    match first_capture(FLOORS_PATTERN, html) {
        Ok(Some(s)) => match parse_floors(s.as_str()) {
            Some(n) => Ok(Some(n)),
            None => Err(DetailError::BadFloors),
        },
        Ok(None) => Ok(None),
        Err(e) => Err(DetailError::Pattern(e)),
    }
}

} // verus!
