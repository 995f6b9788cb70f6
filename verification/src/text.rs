//! Text helpers shared by the server and the client.

use vstd::prelude::*;

verus! {

/// Whether `c` has the Unicode `White_Space` property, the test that
/// `char::is_whitespace` and `str::trim` apply: tab, line feed, vertical
/// tab, form feed, carriage return, space, next line, no-break space,
/// ogham space mark, the spaces from en quad to hair space, line separator,
/// paragraph separator, narrow no-break space, medium mathematical space and
/// ideographic space.
pub open spec fn is_white_space(c: char) -> bool {
    ||| '\u{9}' <= c <= '\u{d}'
    ||| c == ' '
    ||| c == '\u{85}'
    ||| c == '\u{a0}'
    ||| c == '\u{1680}'
    ||| '\u{2000}' <= c <= '\u{200a}'
    ||| c == '\u{2028}'
    ||| c == '\u{2029}'
    ||| c == '\u{202f}'
    ||| c == '\u{205f}'
    ||| c == '\u{3000}'
}

/// `s` without its leading white space.
pub open spec fn trim_start_spec(s: Seq<char>) -> Seq<char>
    decreases s.len(),
{
    if s.len() > 0 && is_white_space(s[0]) {
        trim_start_spec(s.drop_first())
    } else {
        s
    }
}

/// `s` without its trailing white space.
pub open spec fn trim_end_spec(s: Seq<char>) -> Seq<char>
    decreases s.len(),
{
    if s.len() > 0 && is_white_space(s.last()) {
        trim_end_spec(s.drop_last())
    } else {
        s
    }
}

/// `s` without leading and trailing white space.
pub open spec fn trimmed(s: Seq<char>) -> Seq<char> {
    trim_end_spec(trim_start_spec(s))
}

/// The number of bytes of the UTF-8 encoding of `s`.
pub open spec fn utf8_len(s: Seq<char>) -> nat {
    vstd::utf8::encode_utf8(s).len()
}

/// Calls `str::trim`, which returns the slice of `s` without leading and
/// trailing characters that have the Unicode `White_Space` property.
#[verifier::external_body]
pub(crate) fn trim(s: &str) -> (r: &str)
    ensures
        r@ == trimmed(s@),
        r@.len() > 0 ==> !is_white_space(r@[0]) && !is_white_space(r@.last()),
{
    s.trim()
}

/// An owned copy of `s` without leading and trailing white space.
pub fn trimmed_owned(s: &str) -> (r: String)
    ensures
        r@ == trimmed(s@),
{
    trim(s).to_owned()
}

/// Whether `s` holds nothing but white space.
pub fn is_blank(s: &str) -> (b: bool)
    ensures
        b == (trimmed(s@).len() == 0),
{
    trim(s).is_empty()
}

/// Whether `s` spells exactly the characters of `t`.
pub fn same_text(s: &String, t: &str) -> (b: bool)
    ensures
        b == (s@ == t@),
{
    let u = t.to_owned();
    *s == u
}

} // verus!
