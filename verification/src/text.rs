//! The two texts of the exchange: the request that goes out and the reply that comes
//! back.

use vstd::prelude::*;
use vstd::string::*;
use vstd::utf8::*;

verus! {

/// The only reply that lets the upload go on.
pub open spec fn agreement() -> Seq<char> {
    "OK"@
}

/// What stands for a reply that is no text at all.
pub open spec fn unreadable_reply() -> Seq<char> {
    "Error Parsing Response"@
}

/// The request for leave to upload, made with `token`.
pub open spec fn request_text(token: Seq<char>) -> Seq<char> {
    "put model "@ + token + " "@ + "stub"@
}

/// The bytes of the request, as they fill its frame.
pub open spec fn request_payload(token: Seq<char>) -> Seq<u8> {
    encode_utf8(request_text(token))
}

/// The text of a reply: what its bytes spell in UTF-8, or the stand-in where they
/// spell nothing.
pub open spec fn reply_text(payload: Seq<u8>) -> Seq<char> {
    if valid_utf8(payload) {
        decode_utf8(payload)
    } else {
        unreadable_reply()
    }
}

/// Whether a reply grants the upload.
pub open spec fn grants(payload: Seq<u8>) -> bool {
    reply_text(payload) == agreement()
}

/// Builds the request for `auth_token`.
///
/// The token is not looked at. The last word is a fixed filler that the server
/// expects in that place.
pub fn build_request(auth_token: &str) -> (payload: Vec<u8>)
    ensures
        payload@ == request_payload(auth_token@),
{
    let mut text = String::from_str("put model ");
    text.append(auth_token);
    text.append(" ");
    text.append("stub");
    assert(text@ =~= request_text(auth_token@));
    text.as_str().as_bytes_vec()
}

/// What `std::str::from_utf8` makes of `bytes`: a text with exactly these bytes as its
/// UTF-8 form, and none where they are no UTF-8.
#[verifier::external_body]
fn utf8_text(bytes: &[u8]) -> (text: Option<String>)
    ensures
        text is Some <==> valid_utf8(bytes@),
        text matches Some(s) ==> encode_utf8(s@) == bytes@,
{
    match std::str::from_utf8(bytes) {
        Ok(s) => Some(s.to_owned()),
        Err(_) => None,
    }
}

/// Reads a reply as text. Bytes that are no UTF-8 are no reason to fail: they read as
/// a fixed text that is not the agreement.
pub fn read_reply(payload: &[u8]) -> (text: String)
    ensures
        text@ == reply_text(payload@),
{
    match utf8_text(payload) {
        Some(text) => {
            proof {
                encode_utf8_decode_utf8(text@);
            }
            text
        },
        None => String::from_str("Error Parsing Response"),
    }
}

/// Whether `text` is the agreement.
pub fn is_agreement(text: &String) -> (yes: bool)
    ensures
        yes == (text@ == agreement()),
{
    let expected = String::from_str("OK");
    *text == expected
}

/// The agreement is two letters, and the stand-in for an unreadable reply is not it.
pub proof fn lemma_agreement_spelled()
    ensures
        agreement() == seq!['O', 'K'],
        unreadable_reply() != agreement(),
{
    reveal_strlit("OK");
    reveal_strlit("Error Parsing Response");
    assert(agreement() =~= seq!['O', 'K']);
    assert(unreadable_reply().len() != agreement().len());
}

/// A reply grants the upload exactly if it is the two bytes of `OK`.
pub proof fn lemma_grants_exactly(payload: Seq<u8>)
    ensures
        grants(payload) <==> payload == seq![0x4fu8, 0x4bu8],
{
    lemma_agreement_spelled();
    let ok = seq!['O', 'K'];
    assert(is_ascii_chars(ok));
    is_ascii_chars_encode_utf8(ok);
    assert(encode_utf8(ok) =~= seq![0x4fu8, 0x4bu8]) by {
        assert('O' as u8 == 0x4fu8);
        assert('K' as u8 == 0x4bu8);
        assert(ok[0] == 'O' && ok[1] == 'K');
    }
    if grants(payload) {
        assert(valid_utf8(payload));
        decode_utf8_encode_utf8(payload);
    }
    if payload == seq![0x4fu8, 0x4bu8] {
        encode_utf8_valid_utf8(ok);
        encode_utf8_decode_utf8(ok);
    }
}

} // verus!
