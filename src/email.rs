//! The accepted shape of an email address, checked with a regular expression.

use vstd::prelude::*;

verus! {

/// The pattern of an accepted address; its dots are literal dots.
pub const EMAIL_PATTERN: &'static str = r"^[a-zA-Z0-9!#$%&'*+\-/=?^_`{|}~]+(\.[a-zA-Z0-9!#$%&'*+\-/=?^_`{|}~]+)?@[a-zA-Z0-9]+(-[a-zA-Z0-9]+)?\.[a-z]{2,3}$";

pub open spec fn is_ascii_alphanumeric(c: char) -> bool {
    ('a' <= c && c <= 'z') || ('A' <= c && c <= 'Z') || ('0' <= c && c <= '9')
}

/// A character allowed in a segment of the local part.
pub open spec fn is_local_char(c: char) -> bool {
    is_ascii_alphanumeric(c) || c == '!' || c == '#' || c == '$' || c == '%' || c == '&' || c
        == '\'' || c == '*' || c == '+' || c == '-' || c == '/' || c == '=' || c == '?' || c
        == '^' || c == '_' || c == '`' || c == '{' || c == '|' || c == '}' || c == '~'
}

/// One or more local-part characters.
pub open spec fn is_local_segment(s: Seq<char>) -> bool {
    s.len() > 0 && forall|i: int| 0 <= i < s.len() ==> is_local_char(#[trigger] s[i])
}

/// One segment, or two segments joined by a single dot.
pub open spec fn is_local_part(s: Seq<char>) -> bool {
    is_local_segment(s) || exists|k: int|
        0 <= k < s.len() && #[trigger] s[k] == '.' && is_local_segment(s.take(k))
            && is_local_segment(s.skip(k + 1))
}

/// One or more ASCII letters and digits.
pub open spec fn is_alphanumeric_run(s: Seq<char>) -> bool {
    s.len() > 0 && forall|i: int| 0 <= i < s.len() ==> is_ascii_alphanumeric(#[trigger] s[i])
}

/// One run of letters and digits, or two joined by a single hyphen.
pub open spec fn is_domain_label(s: Seq<char>) -> bool {
    is_alphanumeric_run(s) || exists|k: int|
        0 <= k < s.len() && #[trigger] s[k] == '-' && is_alphanumeric_run(s.take(k))
            && is_alphanumeric_run(s.skip(k + 1))
}

/// Two or three lower-case ASCII letters.
pub open spec fn is_top_level_suffix(s: Seq<char>) -> bool {
    2 <= s.len() <= 3 && forall|i: int| 0 <= i < s.len() ==> 'a' <= #[trigger] s[i] && s[i] <= 'z'
}

/// `local@label.suffix`, split at the `@` (index `at`) and at the dot
/// before the suffix (index `dot`).
pub open spec fn is_email_split(s: Seq<char>, at: int, dot: int) -> bool {
    &&& 0 <= at < dot < s.len()
    &&& s[at] == '@'
    &&& s[dot] == '.'
    &&& is_local_part(s.take(at))
    &&& is_domain_label(s.subrange(at + 1, dot))
    &&& is_top_level_suffix(s.skip(dot + 1))
}

/// The whole of `s` has the shape of an accepted address: the language of
/// `EMAIL_PATTERN`.
pub open spec fn is_email_shape(s: Seq<char>) -> bool {
    exists|at: int, dot: int| is_email_split(s, at, dot)
}

/// Relies on `regex::Regex::new`, which compiles this pattern, and on
/// `Regex::is_match`, which reports whether the text holds a match; the
/// anchors make that a match of the whole text.
#[verifier::external_body]
pub(crate) fn matches_email_pattern(pattern: &str, s: &str) -> (r: bool)
    requires
        pattern@ == EMAIL_PATTERN@,
    ensures
        r == is_email_shape(s@),
{
    match regex::Regex::new(pattern) {
        Ok(re) => re.is_match(s),
        Err(_) => false,
    }
}

/// Whether `s`, as it stands, has the shape of an accepted address.
pub fn is_email_address(s: &str) -> (r: bool)
    ensures
        r == is_email_shape(s@),
{
    matches_email_pattern(EMAIL_PATTERN, s)
}

} // verus!
