use vstd::prelude::*;
use vstd::string::StrSliceExecFns;

verus! {

/// Longest accepted resource locator, in characters.
pub const MAX_URL_LEN: usize = 200;

/// Longest accepted domain name, in characters.
pub const MAX_DOMAIN_LEN: usize = 100;

/// Longest accepted description, in characters.
pub const MAX_DESCRIPTION_LEN: usize = 500;

/// The lowercase form of `s` under Unicode case mapping.
pub uninterp spec fn lower_of(s: Seq<char>) -> Seq<char>;

/// Whether `c` is alphabetic or numeric under Unicode's classification.
pub uninterp spec fn alphanumeric(c: char) -> bool;

/// Relies on `str::to_lowercase`: the result depends on the characters alone,
/// and the empty string stays empty.
#[verifier::external_body]
pub(crate) fn fold_case(s: &str) -> (r: String)
    ensures
        r@ == lower_of(s@),
        s@.len() == 0 ==> r@.len() == 0,
{
    s.to_lowercase()
}

/// Relies on `char::is_alphanumeric`; among ASCII characters exactly the
/// letters and digits are alphanumeric.
#[verifier::external_body]
pub(crate) fn is_alphanumeric(c: char) -> (r: bool)
    ensures
        r == alphanumeric(c),
        (c as u32) < 128 ==> (r <==> (('a' <= c && c <= 'z') || ('A' <= c && c <= 'Z') || ('0' <= c
            && c <= '9'))),
{
    c.is_alphanumeric()
}

/// Characters allowed in a domain name.
pub open spec fn name_char_ok(c: char) -> bool {
    alphanumeric(c) || c == '.' || c == '-' || c == '_'
}

pub open spec fn name_chars_ok(s: Seq<char>) -> bool {
    forall|i: int| 0 <= i < s.len() ==> name_char_ok(#[trigger] s[i])
}

/// Whether every character of `s` is alphanumeric, `.`, `-` or `_`.
pub fn valid_name_chars(s: &str) -> (r: bool)
    ensures
        r == name_chars_ok(s@),
{
    let n = s.unicode_len();
    let mut i: usize = 0;
    while i < n
        invariant
            n == s@.len(),
            0 <= i <= n,
            forall|k: int| 0 <= k < i ==> name_char_ok(#[trigger] s@[k]),
        decreases n - i,
    {
        let c = s.get_char(i);
        if !(is_alphanumeric(c) || c == '.' || c == '-' || c == '_') {
            return false;
        }
        i = i + 1;
    }
    true
}

/// Length of `s` in characters.
pub fn char_len(s: &str) -> (r: usize)
    ensures
        r == s@.len(),
{
    s.unicode_len()
}

/// Views an optional text field.
pub open spec fn text_of(o: Option<String>) -> Option<Seq<char>> {
    match o {
        Some(s) => Some(s@),
        None => None,
    }
}

} // verus!
