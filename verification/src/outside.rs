//! Everything this library takes on trust from outside crates and std: the
//! outside types it carries, the names it gives to outside results, and the
//! wrappers that make the outside calls. Nothing here is proved; each item
//! says what it claims of the code it calls.

use vstd::prelude::*;
use vstd::string::StringSliceAdditionalSpecFns;

verus! {

/// `chrono::NaiveDate`, a calendar date. The library only carries it from a
/// reading-list entry to the book built from that entry.
#[verifier::external_type_specification]
#[verifier::external_body]
pub struct ExNaiveDate(chrono::NaiveDate);

/// Bytes that `urlencoding::encode` keeps as they are: ASCII letters, digits
/// and `-`, `.`, `_`, `~`.
pub open spec fn unreserved_byte(b: u8) -> bool {
    ||| 48 <= b <= 57
    ||| 65 <= b <= 90
    ||| 97 <= b <= 122
    ||| b == 45
    ||| b == 46
    ||| b == 95
    ||| b == 126
}

/// Upper-case hexadecimal digit for a value below 16.
pub open spec fn hex_digit(d: nat) -> char {
    if d < 10 {
        (48 + d) as char
    } else {
        (55 + d) as char
    }
}

/// Percent-encoding of a byte string: unreserved bytes stay as their ASCII
/// character, every other byte `b` becomes `%` and two upper-case hex digits.
pub open spec fn percent_encoded(bytes: Seq<u8>) -> Seq<char>
    decreases bytes.len(),
{
    if bytes.len() == 0 {
        seq![]
    } else {
        let b = bytes.last();
        let tail = if unreserved_byte(b) {
            seq![b as char]
        } else {
            seq!['%', hex_digit((b / 16) as nat), hex_digit((b % 16) as nat)]
        };
        percent_encoded(bytes.drop_last()) + tail
    }
}

/// Calls `urlencoding::encode`. Claimed: the result is the percent-encoding
/// of the UTF-8 bytes of `s`, as the crate's source does it byte by byte
/// (unreserved bytes kept, the others as `%XX` with upper-case hex digits).
#[verifier::external_body]
pub(crate) fn url_encode(s: &str) -> (r: String)
    ensures
        r@ == percent_encoded(s.spec_bytes()),
{
    urlencoding::encode(s).into_owned()
}

/// What `regex::Regex::new(pattern)` followed by `is_match(haystack)` gives:
/// `None` when the pattern does not compile, else whether the regex matches
/// anywhere in the haystack.
pub uninterp spec fn regex_search(pattern: Seq<char>, haystack: Seq<char>) -> Option<bool>;

/// Compiles `pattern` with `regex::Regex::new` and, when that succeeds, asks
/// `Regex::is_match` whether it matches anywhere in `haystack`. Claimed: the
/// outcome is `regex_search` of the two texts; nothing is said of which
/// texts match.
#[verifier::external_body]
pub(crate) fn pattern_found(pattern: &str, haystack: &str) -> (r: Option<bool>)
    ensures
        r == regex_search(pattern@, haystack@),
{
    match regex::Regex::new(pattern) {
        Ok(re) => Some(re.is_match(haystack)),
        Err(_) => None,
    }
}

/// What `validator::ValidateUrl::validate_url` answers for a text: whether
/// `url::Url::parse` accepts it.
pub uninterp spec fn url_accepted(s: Seq<char>) -> bool;

/// Calls `validator::ValidateUrl::validate_url` on a text. Claimed: the answer
/// is `url_accepted` of the text; nothing is said of which texts are URLs.
#[verifier::external_body]
pub(crate) fn is_url(s: &str) -> (r: bool)
    ensures
        r == url_accepted(s@),
{
    validator::ValidateUrl::validate_url(s)
}

/// The text that std's `Debug` gives for a string: the string in double
/// quotes, with quotes, backslashes and unprintable characters escaped.
pub uninterp spec fn debug_text_of(s: Seq<char>) -> Seq<char>;

/// Formats a string with std's `Debug` (`format!("{:?}", s)`). Claimed: the
/// result is `debug_text_of` the string; the escaping rules are not stated.
#[verifier::external_body]
pub(crate) fn debug_quoted(s: &str) -> (r: String)
    ensures
        r@ == debug_text_of(s@),
{
    format!("{:?}", s)
}

} // verus!
