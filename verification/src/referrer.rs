//! The tracking value a notification link carries: a fixed magic prefix,
//! the thread id, a colon, and the decimal user id, base64-encoded without
//! padding in the URL-safe alphabet, behind the literal `NT_`.

use vstd::prelude::*;
use vstd::string::StringSliceAdditionalSpecFns;
use vstd::utf8::encode_utf8;

use crate::text::dec_signed;

verus! {

/// What the URL-safe no-padding base64 of a byte string is, as the `base64`
/// crate's `URL_SAFE_NO_PAD` engine computes it.
pub uninterp spec fn b64url_of(bytes: Seq<u8>) -> Seq<char>;

/// Relies on the `base64` crate's `URL_SAFE_NO_PAD` engine: it encodes with
/// the URL-safe alphabet and no padding, so the output holds one character
/// per six bits, `ceil(4 n / 3)` in all.
#[verifier::external_body]
fn b64url_raw(bytes: &Vec<u8>) -> (r: String)
    ensures
        r@ == b64url_of(bytes@),
        r@.len() == (4 * bytes@.len() + 2) / 3,
{
    base64::Engine::encode(&base64::engine::general_purpose::URL_SAFE_NO_PAD, bytes)
}

/// The fixed eight magic bytes every tracking value starts with.
pub open spec fn referrer_magic() -> Seq<u8> {
    seq![0x93u8, 0x00u8, 0xCEu8, 0x00u8, 0x2Bu8, 0x69u8, 0x90u8, 0xB3u8]
}

/// The bytes inside a tracking value: the magic prefix, the thread id's
/// UTF-8 bytes, one colon, and the decimal user id's bytes.
pub open spec fn referrer_payload(notification_id: Seq<char>, user_id: int) -> Seq<u8> {
    referrer_magic() + encode_utf8(notification_id) + seq![58u8] + encode_utf8(
        dec_signed(user_id),
    )
}

/// The whole tracking value: `NT_` before the encoded payload.
pub open spec fn referrer_id_chars(notification_id: Seq<char>, user_id: int) -> Seq<char> {
    "NT_"@ + b64url_of(referrer_payload(notification_id, user_id))
}

/// Renders the tracking value for one notification thread and one user,
/// exactly as `referrer_id_chars` describes.
pub fn generate_notification_referrer_id(notification_id: &str, user_id: i32) -> (r: String)
    ensures
        r@ == referrer_id_chars(notification_id@, user_id as int),
{
    let mut payload: Vec<u8> = Vec::new();
    payload.push(0x93u8);
    payload.push(0x00u8);
    payload.push(0xCEu8);
    payload.push(0x00u8);
    payload.push(0x2Bu8);
    payload.push(0x69u8);
    payload.push(0x90u8);
    payload.push(0xB3u8);
    proof {
        assert(payload@ =~= referrer_magic());
    }
    let mut id_bytes = notification_id.as_bytes_vec();
    payload.append(&mut id_bytes);
    payload.push(58u8);
    let decimal = crate::text::i32_to_string(user_id);
    let mut decimal_bytes = decimal.as_str().as_bytes_vec();
    payload.append(&mut decimal_bytes);
    proof {
        assert(payload@ =~= referrer_payload(notification_id@, user_id as int));
    }
    let encoded = b64url_raw(&payload);
    let mut r = String::from_str("NT_");
    r.append(encoded.as_str());
    r
}

} // verus!
