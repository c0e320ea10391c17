//! Small string helpers.
use vstd::prelude::*;

verus! {

/// `==` on string slices holds exactly where both have the same characters.
pub assume_specification[ <str as PartialEq>::eq ](a: &str, b: &str) -> (r: bool)
    ensures
        r == (a@ == b@),
;

/// What [`safe_truncate`] returns: the text itself when it has at most
/// `max_chars` characters, else its first `max_chars` characters and an ellipsis.
pub open spec fn truncated(s: Seq<char>, max_chars: nat) -> Seq<char> {
    if s.len() <= max_chars {
        s
    } else {
        s.subrange(0, max_chars as int) + "..."@
    }
}

/// Shortens a text to `max_chars` characters, cutting between characters and
/// never inside one.
pub fn safe_truncate(s: &str, max_chars: usize) -> (r: String)
    ensures
        r@ == truncated(s@, max_chars as nat),
{
    if s.unicode_len() <= max_chars {
        s.to_owned()
    } else {
        s.substring_char(0, max_chars).to_owned().concat("...")
    }
}

/// A text after every leading copy of `prefix` is taken off, one after the
/// other.
pub open spec fn without_prefixes(s: Seq<char>, prefix: Seq<char>) -> Seq<char>
    decreases s.len(),
{
    if prefix.len() > 0 && prefix.is_prefix_of(s) {
        without_prefixes(s.skip(prefix.len() as int), prefix)
    } else {
        s
    }
}

/// `str::trim_start_matches` with a string pattern: removes the pattern from
/// the front of the text for as long as the text starts with it.
#[verifier::external_body]
pub(crate) fn trim_start_matches<'a>(s: &'a str, prefix: &str) -> (r: &'a str)
    requires
        prefix@.len() > 0,
    ensures
        r@ == without_prefixes(s@, prefix@),
{
    s.trim_start_matches(prefix)
}

/// The authority of a base URL: the URL without a leading `http://` or
/// `https://`.
pub open spec fn authority_of(base_url: Seq<char>) -> Seq<char> {
    without_prefixes(without_prefixes(base_url, "http://"@), "https://"@)
}

/// The authority of a base URL, for the `:authority` header of a call.
pub fn strip_scheme(base_url: &str) -> (r: String)
    ensures
        r@ == authority_of(base_url@),
{
    proof {
        reveal_strlit("http://");
        reveal_strlit("https://");
    }
    trim_start_matches(trim_start_matches(base_url, "http://"), "https://").to_owned()
}

/// Whether a status line of an HTTP answer reports success: three characters,
/// the first a `2`, the others digits.
pub open spec fn is_success(status: Seq<char>) -> bool {
    &&& status.len() == 3
    &&& status[0] == '2'
    &&& '0' <= status[1] <= '9'
    &&& '0' <= status[2] <= '9'
}

/// Whether the `:status` of an answer reports success.
pub fn is_success_status(status: &str) -> (r: bool)
    ensures
        r == is_success(status@),
{
    if status.unicode_len() != 3 {
        return false;
    }
    let a = status.get_char(0);
    let b = status.get_char(1);
    let c = status.get_char(2);
    a == '2' && '0' <= b && b <= '9' && '0' <= c && c <= '9'
}

} // verus!
