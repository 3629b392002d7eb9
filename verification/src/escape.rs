//! Escaping of text content.

use vstd::prelude::*;

verus! {

/// What one character of text content becomes: `&`, `<` and `>` turn into
/// their entities, every other character stays as it is.
pub open spec fn escaped_char(c: char) -> Seq<char> {
    if c == '&' {
        "&amp;"@
    } else if c == '<' {
        "&lt;"@
    } else if c == '>' {
        "&gt;"@
    } else {
        seq![c]
    }
}

/// Text content as it appears in a document: each character escaped in turn.
pub open spec fn escaped(raw: Seq<char>) -> Seq<char>
    decreases raw.len(),
{
    if raw.len() == 0 {
        Seq::empty()
    } else {
        escaped(raw.drop_last()) + escaped_char(raw.last())
    }
}

/// Calls `html_escape::encode_text`.
///
/// Trusted: that function replaces every `&` by `&amp;`, every `<` by `&lt;`
/// and every `>` by `&gt;`, and copies everything else unchanged.
#[verifier::external_body]
pub(crate) fn encode_text(raw: &str) -> (text: String)
    ensures
        text@ == escaped(raw@),
{
    html_escape::encode_text(raw).into_owned()
}

} // verus!
