//! Who may call.

use vstd::prelude::*;
use vstd::string::StringSliceAdditionalSpecFns;
use vstd::utf8::{encode_utf8, encode_utf8_decode_utf8, is_ascii_chars, is_ascii_chars_encode_utf8};

use crate::config::Config;
use crate::reply::{unauthorized, unauthorized_reply, Response};
use crate::text::same_bytes;

verus! {

/// Whether `b` may stand in a header value that is read as text: a printable ASCII character
/// or a tab.
pub open spec fn is_visible(b: u8) -> bool {
    32 <= b < 127 || b == 9
}

/// What a bearer of `token` puts into the `Authorization` header.
pub open spec fn bearer(token: Seq<char>) -> Seq<char> {
    "Bearer "@ + token
}

/// Whether an `Authorization` header with the bytes `header` presents `token`: it is readable
/// as text, and that text is the bearer's, to the letter.
pub open spec fn presents(header: Option<Seq<u8>>, token: Seq<char>) -> bool {
    match header {
        Some(bytes) => {
            &&& forall|i: int| 0 <= i < bytes.len() ==> is_visible(#[trigger] bytes[i])
            &&& bytes == encode_utf8(bearer(token))
        },
        None => false,
    }
}

/// The bytes of an optional header.
pub open spec fn header_bytes(header: Option<&[u8]>) -> Option<Seq<u8>> {
    match header {
        Some(bytes) => Some(bytes@),
        None => None,
    }
}

/// Whether all bytes may stand in a header value that is read as text.
fn all_visible(bytes: &[u8]) -> (visible: bool)
    ensures
        visible == forall|i: int| 0 <= i < bytes@.len() ==> is_visible(#[trigger] bytes@[i]),
{
    let mut i: usize = 0;
    while i < bytes.len()
        invariant
            i <= bytes.len(),
            forall|j: int| 0 <= j < i ==> is_visible(#[trigger] bytes@[j]),
        decreases bytes.len() - i,
    {
        let b: u8 = bytes[i];
        if !((32 <= b && b < 127) || b == 9) {
            assert(!is_visible(bytes@[i as int]));
            return false;
        }
        i += 1;
    }
    true
}

/// The `Authorization` header of a bearer of `token`.
pub fn bearer_header(token: &str) -> (header: String)
    ensures
        header@ == bearer(token@),
{
    "Bearer ".to_string().concat(token)
}

/// Lets a caller pass that presents the token, and answers any other.
pub fn auth_middleware(cfg: &Config, header: Option<&[u8]>) -> (pass: Result<(), Response>)
    ensures
        pass is Ok <==> presents(header_bytes(header), cfg@.token),
        pass matches Err(response) ==> response@ == unauthorized_reply(),
{
    match header {
        Some(bytes) => {
            let expected: String = bearer_header(cfg.api.token.as_str());
            if all_visible(bytes) && same_bytes(bytes, expected.as_str().as_bytes()) {
                Ok(())
            } else {
                Err(unauthorized())
            }
        },
        None => Err(unauthorized()),
    }
}

/// A caller that sends the word `Bearer`, a space and the token passes, where the token holds
/// only printable ASCII characters and tabs. (A header with others is not readable as text.)
pub proof fn bearer_of_the_token_passes(token: Seq<char>)
    requires
        forall|i: int|
            0 <= i < token.len() ==> ' ' <= #[trigger] token[i] <= '~' || token[i] == '\t',
    ensures
        presents(Some(encode_utf8(bearer(token))), token),
{
    let text = bearer(token);
    reveal_strlit("Bearer ");
    assert forall|i: int| 0 <= i < text.len() implies ' ' <= #[trigger] text[i] <= '~' || text[i]
        == '\t' by {
        if i >= 7 {
            assert(text[i] == token[i - 7]);
        }
    }
    assert(is_ascii_chars(text));
    is_ascii_chars_encode_utf8(text);
    assert forall|i: int| 0 <= i < encode_utf8(text).len() implies is_visible(
        #[trigger] encode_utf8(text)[i],
    ) by {
        assert(' ' <= text[i] <= '~' || text[i] == '\t');
    }
}

/// No header presents two different tokens.
pub proof fn one_token_per_header(header: Option<Seq<u8>>, one: Seq<char>, other: Seq<char>)
    requires
        presents(header, one),
        presents(header, other),
    ensures
        one == other,
{
    encode_utf8_decode_utf8(bearer(one));
    encode_utf8_decode_utf8(bearer(other));
    assert(bearer(one).skip("Bearer "@.len() as int) == one);
    assert(bearer(other).skip("Bearer "@.len() as int) == other);
}

/// Whoever passes has sent a header, and its bytes are those of `Bearer `, with its space, and
/// the token; a header with these bytes passes exactly where each of them is printable ASCII (32
/// to 126) or a tab (9).
pub proof fn only_a_bearer_of_the_token_passes(header: Option<Seq<u8>>, token: Seq<char>)
    ensures
        presents(header, token) <==> {
            &&& header is Some
            &&& header->0 == encode_utf8("Bearer "@ + token)
            &&& forall|i: int|
                0 <= i < header->0.len() ==> 32 <= #[trigger] header->0[i] <= 126 || header->0[i]
                    == 9
        },
        bearer(token) == "Bearer "@ + token,
{
    if header is Some {
        let bytes = header->0;
        if forall|i: int| 0 <= i < bytes.len() ==> 32 <= #[trigger] bytes[i] <= 126 || bytes[i]
            == 9 {
            assert forall|i: int| 0 <= i < bytes.len() implies is_visible(#[trigger] bytes[i]) by {
                assert(32 <= bytes[i] <= 126 || bytes[i] == 9);
            }
        }
        if forall|i: int| 0 <= i < bytes.len() ==> is_visible(#[trigger] bytes[i]) {
            assert forall|i: int| 0 <= i < bytes.len() implies 32 <= #[trigger] bytes[i] <= 126
                || bytes[i] == 9 by {
                assert(is_visible(bytes[i]));
            }
        }
    }
}

/// The bytes of a header are those that were sent.
pub proof fn header_bytes_are_what_was_sent(header: Option<&[u8]>)
    ensures
        header_bytes(header) is Some <==> header is Some,
        header matches Some(bytes) ==> header_bytes(header) == Some(bytes@),
{
}

} // verus!
