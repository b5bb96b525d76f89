//! Text helpers.

use vstd::prelude::*;

verus! {

/// What `str::to_lowercase` returns for a text: the Unicode lower-case
/// mapping of each character.
pub uninterp spec fn spec_lowercase(s: Seq<char>) -> Seq<char>;

/// Whether every character of `s` is ASCII.
pub open spec fn is_ascii_text(s: Seq<char>) -> bool {
    forall|i: int| 0 <= i < s.len() ==> (#[trigger] s[i] as u32) < 128
}

/// `s` with the ASCII capitals `A` to `Z` turned into `a` to `z` and every
/// other character kept.
pub open spec fn ascii_lowercase(s: Seq<char>) -> Seq<char> {
    Seq::new(s.len(), |i: int| if 'A' <= s[i] && s[i] <= 'Z' { ((s[i] as u32) + 32) as char } else { s[i] })
}

/// Lower-cases a text with `str::to_lowercase`: the result named by
/// `spec_lowercase`; on ASCII text, whose Unicode lower-case mapping is
/// the ASCII one, each capital letter becomes its small letter and nothing
/// else changes.
#[verifier::external_body]
pub fn lowercase(s: &str) -> (r: String)
    ensures
        r@ == spec_lowercase(s@),
        is_ascii_text(s@) ==> r@ == ascii_lowercase(s@),
{
    s.to_lowercase()
}

/// `prefix`, `value` and `suffix` written one after the other.
pub fn describe(prefix: &str, value: &str, suffix: &str) -> (r: String)
    ensures
        r@ == prefix@ + value@ + suffix@,
{
    let mut out = prefix.to_owned();
    out.append(value);
    out.append(suffix);
    out
}

/// Whether two texts hold the same characters.
pub fn str_equal(a: &str, b: &str) -> (r: bool)
    ensures
        r == (a@ == b@),
{
    let n = a.unicode_len();
    if n != b.unicode_len() {
        return false;
    }
    let mut i: usize = 0;
    while i < n
        invariant
            n == a@.len(),
            n == b@.len(),
            i <= n,
            forall|j: int| 0 <= j < i ==> a@[j] == b@[j],
        decreases n - i,
    {
        if a.get_char(i) != b.get_char(i) {
            return false;
        }
        i = i + 1;
    }
    assert(a@ =~= b@);
    true
}

} // verus!
