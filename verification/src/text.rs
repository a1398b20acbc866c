//! Text primitives shared by the codec-name logic: exact string comparison
//! and Unicode lower-casing.

use vstd::prelude::*;
use vstd::utf8::{encode_utf8, encode_utf8_decode_utf8, is_ascii_chars};

verus! {

/// The Unicode lower-case form of a string, as `str::to_lowercase` computes it.
pub uninterp spec fn lowercase(s: Seq<char>) -> Seq<char>;

/// ASCII lower-casing of one character: `'A'..='Z'` become `'a'..='z'`,
/// every other character is kept.
pub open spec fn ascii_lower_char(c: char) -> char {
    if 'A' <= c && c <= 'Z' {
        ((c as u32) + 32) as char
    } else {
        c
    }
}

/// ASCII lower-casing of a whole string, character by character.
pub open spec fn ascii_lowercase(s: Seq<char>) -> Seq<char> {
    Seq::new(s.len(), |i: int| ascii_lower_char(s[i]))
}

/// A string without ASCII upper-case letters.
pub open spec fn has_no_ascii_upper(s: Seq<char>) -> bool {
    forall|i: int| 0 <= i < s.len() ==> !('A' <= #[trigger] s[i] && s[i] <= 'Z')
}

/// Calls `str::to_lowercase`.
///
/// Claims that the result is the Unicode lower-case form of `s` (named by
/// `lowercase`, not written out here), and that on input made of ASCII
/// characters only, that form maps `'A'..='Z'` to `'a'..='z'` one for one
/// and keeps every other character. What the form is on other input is left
/// unsaid.
#[verifier::external_body]
pub(crate) fn str_to_lowercase(s: &str) -> (r: String)
    ensures
        r@ == lowercase(s@),
        is_ascii_chars(s@) ==> r@ == ascii_lowercase(s@),
{
    s.to_lowercase()
}

/// Exact comparison of two string slices by their characters.
pub fn str_eq(a: &str, b: &str) -> (r: bool)
    ensures
        r == (a@ == b@),
{
    let x = a.as_bytes();
    let y = b.as_bytes();
    proof {
        encode_utf8_decode_utf8(a@);
        encode_utf8_decode_utf8(b@);
    }
    if x.len() != y.len() {
        return false;
    }
    let n = x.len();
    let mut i: usize = 0;
    while i < n
        invariant
            n == x@.len(),
            n == y@.len(),
            x@ == encode_utf8(a@),
            y@ == encode_utf8(b@),
            i <= n,
            forall|j: int| 0 <= j < i ==> x@[j] == y@[j],
        decreases n - i,
    {
        if x[i] != y[i] {
            return false;
        }
        i = i + 1;
    }
    proof {
        assert(x@ =~= y@);
    }
    true
}

/// Lower-casing ASCII text twice is lower-casing it once.
pub proof fn lemma_ascii_lowercase_idempotent(s: Seq<char>)
    ensures
        ascii_lowercase(ascii_lowercase(s)) == ascii_lowercase(s),
        has_no_ascii_upper(ascii_lowercase(s)),
        is_ascii_chars(s) ==> is_ascii_chars(ascii_lowercase(s)),
{
    assert forall|i: int| 0 <= i < s.len() implies #[trigger] ascii_lower_char(ascii_lower_char(s[i]))
        == ascii_lower_char(s[i]) && !('A' <= ascii_lower_char(s[i]) && ascii_lower_char(s[i]) <= 'Z')
    by {
        vstd::utf8::char_u32_cast(s[i], s[i] as u32);
    }
    assert(ascii_lowercase(ascii_lowercase(s)) =~= ascii_lowercase(s));
}

/// ASCII text with no upper-case letter is its own lower-case form.
pub proof fn lemma_ascii_lowercase_fixed(s: Seq<char>)
    requires
        has_no_ascii_upper(s),
    ensures
        ascii_lowercase(s) == s,
{
    assert(ascii_lowercase(s) =~= s);
}

} // verus!
