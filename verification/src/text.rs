//! Text helpers: whitespace, UTF-8 conversion and string building.

use vstd::prelude::*;
use vstd::utf8::*;

verus! {

/// Whether `c` has the Unicode property `White_Space`.
pub open spec fn is_whitespace(c: char) -> bool {
    let u = c as u32;
    ||| 0x09 <= u <= 0x0D
    ||| u == 0x20
    ||| u == 0x85
    ||| u == 0xA0
    ||| u == 0x1680
    ||| 0x2000 <= u <= 0x200A
    ||| u == 0x2028
    ||| u == 0x2029
    ||| u == 0x202F
    ||| u == 0x205F
    ||| u == 0x3000
}

/// Whether nothing is left of `text` once the whitespace at both ends is
/// removed: every character of it is whitespace.
pub open spec fn is_blank(text: Seq<char>) -> bool {
    forall|i: int| 0 <= i < text.len() ==> is_whitespace(#[trigger] text[i])
}

/// Whether `c` is a whitespace character.
pub fn char_is_whitespace(c: char) -> (b: bool)
    ensures
        b == is_whitespace(c),
{
    let u: u32 = c as u32;
    (0x09 <= u && u <= 0x0D) || u == 0x20 || u == 0x85 || u == 0xA0 || u == 0x1680 || (0x2000 <= u
        && u <= 0x200A) || u == 0x2028 || u == 0x2029 || u == 0x202F || u == 0x205F || u == 0x3000
}

/// Whether `text` is empty or holds whitespace only.
pub fn str_is_blank(text: &str) -> (b: bool)
    ensures
        b == is_blank(text@),
{
    let mut blank = true;
    for c in it: text.chars()
        invariant
            it.seq() == text@,
            blank == is_blank(text@.take(it.index() as int)),
    {
        proof {
            let n = it.index() as int;
            assert(text@.take(n + 1) =~= text@.take(n).push(c));
            if is_blank(text@.take(n + 1)) {
                assert forall|i: int| 0 <= i < n implies is_whitespace(
                    #[trigger] text@.take(n)[i],
                ) by {
                    assert(text@.take(n + 1)[i] == text@.take(n)[i]);
                }
                assert(text@.take(n + 1)[n] == c);
            }
        }
        if !char_is_whitespace(c) {
            blank = false;
        }
    }
    proof {
        assert(text@.take(text@.len() as int) =~= text@);
    }
    blank
}

/// `prefix` followed by `rest`.
pub fn concat_str(prefix: &str, rest: &str) -> (joined: String)
    ensures
        joined@ == prefix@ + rest@,
{
    let mut joined = prefix.to_owned();
    joined.append(rest);
    joined
}

/// `String::push`: the string grows by the one character `c`, at its end.
#[verifier::external_body]
pub(crate) fn push_char(text: &mut String, c: char)
    ensures
        final(text)@ == old(text)@.push(c),
{
    text.push(c);
}

/// What `String::from_utf8` says of bytes that are not UTF-8, as text.
pub uninterp spec fn utf8_fault(bytes: Seq<u8>) -> Seq<char>;

/// `String::from_utf8`: bytes that are valid UTF-8 become the string that
/// they encode; any others are refused, and the error is handed on as the
/// text that its `Display` writes, which depends on the bytes alone.
#[verifier::external_body]
pub(crate) fn string_from_utf8(bytes: Vec<u8>) -> (r: Result<String, String>)
    ensures
        (match r {
            Ok(text) => valid_utf8(bytes@) && text@ == decode_utf8(bytes@),
            Err(cause) => !valid_utf8(bytes@) && cause@ == utf8_fault(bytes@),
        }),
{
    match String::from_utf8(bytes) {
        Ok(text) => Ok(text),
        Err(e) => Err(format!("{}", e)),
    }
}

/// The text that `String::from_utf8_lossy` makes of `bytes`.
pub uninterp spec fn lossy_text(bytes: Seq<u8>) -> Seq<char>;

/// `String::from_utf8_lossy`: bytes that are valid UTF-8 become the string
/// that they encode. Of other bytes nothing is claimed but that the text
/// depends on them alone.
#[verifier::external_body]
pub(crate) fn string_from_utf8_lossy(bytes: &[u8]) -> (text: String)
    ensures
        text@ == lossy_text(bytes@),
        valid_utf8(bytes@) ==> text@ == decode_utf8(bytes@),
{
    String::from_utf8_lossy(bytes).into_owned()
}

} // verus!
