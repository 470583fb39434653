//! What the gateway asks of the HTTP library: whether a text is accepted as a
//! request target, and whether as a header value. Nothing here is proved: the
//! contracts restate what that library does.

use vstd::prelude::*;
use vstd::utf8::encode_utf8;

verus! {

/// Whether `hyper::Uri`'s parser accepts `text`. The grammar is the parser's
/// own and is not restated here.
pub uninterp spec fn uri_accepts(text: Seq<char>) -> bool;

/// A text that can be the address of a downstream service: it is not empty
/// and the URI parser accepts it.
pub open spec fn is_target_address(text: Seq<char>) -> bool {
    text.len() > 0 && uri_accepts(text)
}

/// A byte that may stand in a header value: a tab, or anything from the space
/// upwards but DEL.
pub open spec fn is_header_value_byte(b: u8) -> bool {
    (b >= 32 && b != 127) || b == 9
}

/// A text whose every byte may stand in a header value.
pub open spec fn is_header_value(text: Seq<char>) -> bool {
    forall|i: int|
        0 <= i < encode_utf8(text).len() ==> is_header_value_byte(#[trigger] encode_utf8(text)[i])
}

/// Runs `<hyper::Uri as FromStr>::from_str` on `text` and reports whether it
/// returned a URI. The verdict depends on the text alone; the parser rejects
/// the empty text before it looks at anything else.
#[verifier::external_body]
pub(crate) fn parse_uri(text: &str) -> (accepted: bool)
    ensures
        accepted == uri_accepts(text@),
        text@.len() == 0 ==> !accepted,
{
    match text.parse::<hyper::Uri>() {
        Ok(_) => true,
        Err(_) => false,
    }
}

/// Runs `hyper::header::HeaderValue::from_str` on `text` and reports whether
/// it returned a value. That function walks the bytes of the text and fails on
/// the first control byte that is no tab, DEL included; it accepts every
/// other byte, those above ASCII too.
#[verifier::external_body]
pub(crate) fn parse_header_value(text: &str) -> (accepted: bool)
    ensures
        accepted == is_header_value(text@),
{
    match hyper::header::HeaderValue::from_str(text) {
        Ok(_) => true,
        Err(_) => false,
    }
}

} // verus!
