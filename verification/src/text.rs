//! The string operations that the dispatcher leans on, each with the
//! contract that the rest of the crate is proved against.

use vstd::prelude::*;
use vstd::string::StrSliceExecFns;

verus! {

/// Whether a character is white space: whether it has the property
/// `White_Space` of Unicode.
pub open spec fn is_white_space(c: char) -> bool {
    let code = c as u32;
    ||| 0x0009 <= code <= 0x000D
    ||| code == 0x0020
    ||| code == 0x0085
    ||| code == 0x00A0
    ||| code == 0x1680
    ||| 0x2000 <= code <= 0x200A
    ||| code == 0x2028
    ||| code == 0x2029
    ||| code == 0x202F
    ||| code == 0x205F
    ||| code == 0x3000
}

/// A text without the white space it begins with.
pub open spec fn trimmed_start(s: Seq<char>) -> Seq<char>
    decreases s.len(),
{
    if s.len() > 0 && is_white_space(s.first()) {
        trimmed_start(s.drop_first())
    } else {
        s
    }
}

/// A text without the white space it ends with.
pub open spec fn trimmed_end(s: Seq<char>) -> Seq<char>
    decreases s.len(),
{
    if s.len() > 0 && is_white_space(s.last()) {
        trimmed_end(s.drop_last())
    } else {
        s
    }
}

/// A text without the white space around it.
pub open spec fn trimmed(s: Seq<char>) -> Seq<char> {
    trimmed_end(trimmed_start(s))
}

/// Trimming leaves a text alone that neither begins nor ends with white
/// space.
pub proof fn lemma_trimmed_unchanged(s: Seq<char>)
    requires
        s.len() > 0 ==> !is_white_space(s.first()) && !is_white_space(s.last()),
    ensures
        trimmed(s) == s,
{
}

/// Trimming a text that is white space throughout leaves nothing.
pub proof fn lemma_trimmed_blank(s: Seq<char>)
    requires
        forall|i: int| 0 <= i < s.len() ==> is_white_space(#[trigger] s[i]),
    ensures
        trimmed(s) == Seq::<char>::empty(),
    decreases s.len(),
{
    if s.len() > 0 {
        let rest = s.drop_first();
        assert forall|i: int| 0 <= i < rest.len() implies is_white_space(#[trigger] rest[i]) by {
            assert(rest[i] == s[i + 1]);
        }
        lemma_trimmed_blank(rest);
    }
}

/// Calls `str::trim`, which the standard library documents as returning the
/// text without its leading and trailing white space, white space being the
/// characters with Unicode's property `White_Space`. Nothing is proved of it:
/// the contract claims that the result is [`trimmed`] of the text.
#[verifier::external_body]
pub(crate) fn trim(s: &str) -> (r: &str)
    ensures
        r@ == trimmed(s@),
{
    s.trim()
}

/// Whether two texts hold the same characters in the same order.
pub(crate) fn same_text(a: &str, b: &str) -> (same: bool)
    ensures
        same == (a@ == b@),
{
    let left: String = a.to_owned();
    let right: String = b.to_owned();
    left == right
}

/// Whether the character `c` occurs in the text.
pub(crate) fn contains_char(s: &str, c: char) -> (found: bool)
    ensures
        found == s@.contains(c),
{
    let len: usize = s.unicode_len();
    let mut i: usize = 0;
    while i < len
        invariant
            i <= len,
            len == s@.len(),
            forall|k: int| 0 <= k < i ==> s@[k] != c,
        decreases len - i,
    {
        if s.get_char(i) == c {
            return true;
        }
        i += 1;
    }
    false
}

} // verus!
