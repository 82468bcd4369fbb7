//! Text on the wire: what a peer sent, read as text, and the greeting.

use vstd::prelude::*;
use vstd::utf8::{decode_utf8, valid_utf8};

verus! {

/// What every greeting starts with; the room's name follows.
pub const GREETING: &'static str = "Hello welcome to the Room: ";

/// The text of the greeting of a room called `name`.
pub open spec fn greeting_of(name: Seq<char>) -> Seq<char> {
    GREETING@ + name
}

/// The text that lossy UTF-8 decoding makes of `bytes`: the text they
/// encode, with every invalid sequence replaced by U+FFFD.
pub uninterp spec fn lossy_text(bytes: Seq<u8>) -> Seq<char>;

/// `String::from_utf8_lossy`, with the result as an owned `String`.
///
/// Taken on trust: the result is a function of the bytes alone, named
/// [`lossy_text`], and bytes that are valid UTF-8 decode to the text they
/// encode, with nothing replaced.
#[verifier::external_body]
pub(crate) fn decode_lossy(bytes: &[u8]) -> (text: String)
    ensures
        text@ == lossy_text(bytes@),
        valid_utf8(bytes@) ==> text@ == decode_utf8(bytes@),
{
    String::from_utf8_lossy(bytes).into_owned()
}

/// The greeting for a newcomer to the room called `name`.
pub fn greeting(name: &str) -> (text: String)
    ensures
        text@ == greeting_of(name@),
{
    let mut text = String::from_str(GREETING);
    text.append(name);
    text
}

} // verus!
