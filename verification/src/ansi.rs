//! ANSI escape sequences in process output.

use vstd::prelude::*;
use vstd::utf8::{decode_utf8, valid_utf8};
use crate::parse::{contains, contains_text};

verus! {

/// The bytes `strip_ansi_escapes::strip` leaves of the UTF-8 text of
/// `text`.
pub uninterp spec fn ansi_stripped(text: Seq<char>) -> Seq<u8>;

/// `strip_ansi_escapes::strip`: the bytes of `text` without its escape
/// sequences, [`ansi_stripped`] of it; the crate also promises (in its
/// `strip_str`) that UTF-8 text stays UTF-8.
#[verifier::external_body]
fn strip_escapes(text: &str) -> (r: Vec<u8>)
    ensures
        r@ == ansi_stripped(text@),
        valid_utf8(r@),
{
    strip_ansi_escapes::strip(text)
}

/// std `String::from_utf8_lossy`: valid UTF-8 is decoded as it is.
#[verifier::external_body]
fn utf8_lossy(bytes: &[u8]) -> (r: String)
    ensures
        valid_utf8(bytes@) ==> r@ == decode_utf8(bytes@),
{
    String::from_utf8_lossy(bytes).into_owned()
}

/// `text` without its ANSI escape sequences.
pub open spec fn without_escapes(text: Seq<char>) -> Seq<char> {
    decode_utf8(ansi_stripped(text))
}

/// `text` with its ANSI escape sequences removed.
pub fn strip_ansi_escapes_str(text: &str) -> (r: String)
    ensures
        r@ == without_escapes(text@),
{
    let bytes = strip_escapes(text);
    utf8_lossy(bytes.as_slice())
}

/// Whether `text` holds the start of an ANSI escape sequence (`ESC [`).
pub fn contains_ansi_escape(text: &str) -> (r: bool)
    ensures
        r == contains_text(text@, seq!['\x1b', '[']),
{
    let r = contains(text, "\x1b[");
    proof {
        reveal_strlit("\x1b[");
        assert("\x1b["@ =~= seq!['\x1b', '[']);
    }
    r
}

} // verus!
