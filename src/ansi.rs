//! Removing terminal escape sequences from command output before it is
//! shown as plain text.

use vstd::prelude::*;
use vstd::string::StringSliceAdditionalSpecFns;

verus! {

/// What `strip_ansi_escapes::strip` makes of a byte string.
pub uninterp spec fn ansi_stripped(b: Seq<u8>) -> Seq<u8>;

/// What `String::from_utf8_lossy` makes of a byte string.
pub uninterp spec fn lossy_text(b: Seq<u8>) -> Seq<char>;

/// Relies on strip_ansi_escapes::strip: runs the bytes through a terminal
/// parser and keeps the printed characters and the newlines, dropping escape
/// sequences and other control bytes. Nothing comes out of nothing.
#[verifier::external_body]
fn strip(b: &[u8]) -> (r: Vec<u8>)
    ensures
        r@ == ansi_stripped(b@),
        b@.len() == 0 ==> r@.len() == 0,
{
    strip_ansi_escapes::strip(b)
}

/// Relies on String::from_utf8_lossy: decodes UTF-8, replacing invalid
/// sequences with U+FFFD. Nothing comes out of nothing.
#[verifier::external_body]
fn utf8_lossy(b: &[u8]) -> (r: String)
    ensures
        r@ == lossy_text(b@),
        b@.len() == 0 ==> r@.len() == 0,
{
    String::from_utf8_lossy(b).into_owned()
}

/// `text` without terminal escape sequences (colours, cursor movement and
/// other control sequences).
pub fn strip_ansi_codes(text: &str) -> (r: String)
    ensures
        r@ == lossy_text(ansi_stripped(text.spec_bytes())),
        text@.len() == 0 ==> r@.len() == 0,
{
    let stripped = strip(text.as_bytes());
    proof {
        if text@.len() == 0 {
            assert(text.spec_bytes() == Seq::<u8>::empty());
        }
    }
    utf8_lossy(stripped.as_slice())
}

} // verus!
