//! Whether a request carries the signature that Slack puts on what it sends.

use axum::http::{HeaderMap, HeaderValue};
use hmac::{Hmac, Mac};
use sha2::Sha256;
use vstd::prelude::*;
use vstd::utf8::encode_utf8;

use crate::text::{hex_digit, outcome, same, text_outcome};

verus! {

/// The headers of a request.
#[verifier::external_type_specification]
#[verifier::external_body]
#[verifier::reject_recursive_types(T)]
pub struct ExHeaderMap<T>(axum::http::HeaderMap<T>);

/// The value of a header.
#[verifier::external_type_specification]
#[verifier::external_body]
pub struct ExHeaderValue(axum::http::HeaderValue);

/// The header that carries the time at which Slack sent the request.
pub const TIMESTAMP_HEADER: &'static str = "x-slack-request-timestamp";

/// The header that carries the signature.
pub const SIGNATURE_HEADER: &'static str = "x-slack-signature";

/// What a header map holds: under each key, the bytes of the value that a look-up of that
/// key finds.
pub uninterp spec fn header_entries(headers: HeaderMap) -> Map<Seq<char>, Seq<u8>>;

/// The bytes of the value of a header.
pub uninterp spec fn header_bytes(value: HeaderValue) -> Seq<u8>;

/// The message authentication code HMAC-SHA-256.
pub uninterp spec fn hmac_sha256(key: Seq<u8>, message: Seq<u8>) -> Seq<u8>;

/// `axum::http::HeaderMap::get`: the first value under a key, if there is one.
#[verifier::external_body]
fn get_header<'a>(headers: &'a HeaderMap, key: &str) -> (r: Option<&'a HeaderValue>)
    ensures
        match r {
            Some(value) => header_entries(*headers).contains_key(key@) && header_bytes(*value)
                == header_entries(*headers)[key@],
            None => !header_entries(*headers).contains_key(key@),
        },
{
    headers.get(key)
}

/// `axum::http::HeaderValue::to_str`: the bytes of a value as a text, if each of them is
/// visible ASCII, a space or a tab; else the one message that its error has.
#[verifier::external_body]
fn header_to_str(value: &HeaderValue) -> (r: Result<String, String>)
    ensures
        text_outcome(r) == decoded(header_bytes(*value)),
{
    match value.to_str() {
        Ok(text) => Ok(text.to_string()),
        Err(error) => Err(error.to_string()),
    }
}

/// `hmac::Hmac<sha2::Sha256>`: `new_from_slice`, which takes a key of any length, then
/// `update`, then `finalize`.
#[verifier::external_body]
fn compute_mac(key: &[u8], message: &[u8]) -> (r: Result<Vec<u8>, String>)
    ensures
        r is Ok,
        r->Ok_0@ == hmac_sha256(key@, message@),
{
    let mut mac = Hmac::<Sha256>::new_from_slice(key).map_err(|error| error.to_string())?;
    mac.update(message);
    Ok(mac.finalize().into_bytes().to_vec())
}

/// `hex::encode`: two lower-case hexadecimal digits for each byte.
#[verifier::external_body]
fn encode_hex(data: &[u8]) -> (r: String)
    ensures
        r@ == hex_lower(data@),
{
    hex::encode(data)
}

/// The bytes of a header value as a text, or the message that says there is none.
pub open spec fn decoded(bytes: Seq<u8>) -> Result<Seq<char>, Seq<char>> {
    if forall|i: int| 0 <= i < bytes.len() ==> 32 <= #[trigger] bytes[i] < 127 || bytes[i] == 9 {
        Ok(bytes.map_values(|b: u8| b as char))
    } else {
        Err("failed to convert header to a str"@)
    }
}

/// Each byte as two hexadecimal digits, in lower case.
pub open spec fn hex_lower(data: Seq<u8>) -> Seq<char> {
    Seq::new(
        2 * data.len(),
        |i: int|
            {
                let byte = data[i / 2] as int;
                hex_digit(if i % 2 == 0 { byte / 16 } else { byte % 16 })
            },
    )
}

/// The text of the header under a key, or why there is none.
pub open spec fn header_outcome(headers: HeaderMap, key: Seq<char>) -> Result<
    Seq<char>,
    Seq<char>,
> {
    if header_entries(headers).contains_key(key) {
        decoded(header_entries(headers)[key])
    } else {
        Err("missing header: "@ + key)
    }
}

/// What Slack signs: the time and the body of the request.
pub open spec fn signed_payload(timestamp: Seq<char>, body: Seq<char>) -> Seq<char> {
    "v0:"@ + timestamp + ":"@ + body
}

/// A signature as the header writes it, for a message authentication code.
pub open spec fn signature_text(tag: Seq<u8>) -> Seq<char> {
    "v0="@ + hex_lower(tag)
}

/// The signature of a request.
pub open spec fn slack_signature(secret: Seq<char>, timestamp: Seq<char>, body: Seq<char>) -> Seq<
    char,
> {
    signature_text(hmac_sha256(encode_utf8(secret), encode_utf8(signed_payload(timestamp, body))))
}

/// Whether a signature is the expected one.
pub open spec fn signature_outcome(expected: Seq<char>, signature: Seq<char>) -> Result<
    (),
    Seq<char>,
> {
    if expected == signature {
        Ok(())
    } else {
        Err("invalid Slack signature"@)
    }
}

/// Whether a request is from Slack, given the texts of its two headers: it is if the
/// signature is that of the time and the body.
pub open spec fn request_outcome(
    secret: Seq<char>,
    timestamp: Result<Seq<char>, Seq<char>>,
    signature: Result<Seq<char>, Seq<char>>,
    body: Seq<char>,
) -> Result<(), Seq<char>> {
    match timestamp {
        Err(message) => Err(message),
        Ok(timestamp) => match signature {
            Err(message) => Err(message),
            Ok(signature) => signature_outcome(
                slack_signature(secret, timestamp, body),
                signature,
            ),
        },
    }
}

/// The text of the header under a key, or why there is none.
pub fn header_value(headers: &HeaderMap, key: &str) -> (r: Result<String, String>)
    ensures
        text_outcome(r) == header_outcome(*headers, key@),
{
    match get_header(headers, key) {
        Some(value) => header_to_str(value),
        None => Err("missing header: ".to_string().concat(key)),
    }
}

/// What Slack signs: the time and the body of the request.
pub fn signature_payload(timestamp: &str, body: &str) -> (r: String)
    ensures
        r@ == signed_payload(timestamp@, body@),
{
    "v0:".to_string().concat(timestamp).concat(":").concat(body)
}

/// Whether a signature is the one that belongs to a message authentication code.
pub fn check_signature(tag: &[u8], signature: &str) -> (r: Result<(), String>)
    ensures
        outcome(r) == signature_outcome(signature_text(tag@), signature@),
{
    let expected = "v0=".to_string().concat(encode_hex(tag).as_str());
    if same(expected.as_str(), signature) {
        Ok(())
    } else {
        Err("invalid Slack signature".to_string())
    }
}

/// Whether a request is from Slack: its signature must be that of its time and its body.
pub fn verify_slack_signature(signing_secret: &str, headers: &HeaderMap, body: &str) -> (r: Result<
    (),
    String,
>)
    ensures
        outcome(r) == request_outcome(
            signing_secret@,
            header_outcome(*headers, TIMESTAMP_HEADER@),
            header_outcome(*headers, SIGNATURE_HEADER@),
            body@,
        ),
{
    let timestamp = match header_value(headers, TIMESTAMP_HEADER) {
        Ok(timestamp) => timestamp,
        Err(message) => return Err(message),
    };
    let signature = match header_value(headers, SIGNATURE_HEADER) {
        Ok(signature) => signature,
        Err(message) => return Err(message),
    };
    let payload = signature_payload(timestamp.as_str(), body);
    match compute_mac(signing_secret.as_bytes(), payload.as_str().as_bytes()) {
        Ok(tag) => check_signature(tag.as_slice(), signature.as_str()),
        Err(message) => Err(message),
    }
}

/// A request passes if and only if it carries a time and, with it, the signature that the
/// secret gives to that time and to the body.
pub proof fn law_only_signed_requests_pass(
    secret: Seq<char>,
    timestamp: Result<Seq<char>, Seq<char>>,
    signature: Result<Seq<char>, Seq<char>>,
    body: Seq<char>,
)
    ensures
        request_outcome(secret, timestamp, signature, body) is Ok <==> timestamp is Ok
            && signature == Ok::<Seq<char>, Seq<char>>(
            slack_signature(secret, timestamp->Ok_0, body),
        ),
{
}

/// A request passes if and only if it has the two headers and the second of them reads `v0=`
/// and, in hexadecimal digits, the code that the secret gives to `v0:`, the time, a colon
/// and the body. A header that is wrong is reported, the time first; any other signature is
/// reported as invalid.
pub proof fn law_requests_are_checked_against_time_and_body(
    secret: Seq<char>,
    timestamp: Result<Seq<char>, Seq<char>>,
    signature: Result<Seq<char>, Seq<char>>,
    body: Seq<char>,
)
    ensures
        timestamp matches Err(message) ==> request_outcome(secret, timestamp, signature, body)
            == Err::<(), Seq<char>>(message),
        timestamp is Ok ==> (signature matches Err(message) ==> request_outcome(
            secret,
            timestamp,
            signature,
            body,
        ) == Err::<(), Seq<char>>(message)),
        timestamp matches Ok(time) ==> (signature matches Ok(given) ==> {
            let checked = request_outcome(secret, timestamp, signature, body);
            let code = hmac_sha256(
                encode_utf8(secret),
                encode_utf8(seq!['v', '0', ':'] + time + seq![':'] + body),
            );
            &&& checked is Ok <==> given == seq!['v', '0', '='] + hex_lower(code)
            &&& checked is Err ==> checked->Err_0 == "invalid Slack signature"@
        }),
{
    reveal_strlit("v0:");
    reveal_strlit("v0=");
    reveal_strlit(":");
    assert("v0:"@ =~= seq!['v', '0', ':']);
    assert("v0="@ =~= seq!['v', '0', '=']);
    assert(":"@ =~= seq![':']);
}

/// Each byte is written as two digits, the greater first: `0` to `9`, then `a` to `f`.
pub proof fn law_bytes_are_written_as_two_digits(data: Seq<u8>)
    ensures
        hex_lower(data).len() == 2 * data.len(),
        forall|i: int|
            0 <= i < data.len() ==> {
                let high = (#[trigger] data[i]) as int / 16;
                let low = data[i] as int % 16;
                &&& hex_lower(data)[2 * i] as int == (if high < 10 { 48 + high } else { 87 + high })
                &&& hex_lower(data)[2 * i + 1] as int == (if low < 10 { 48 + low } else {
                    87 + low
                })
            },
{
}

/// A header is read as the text that its bytes are, if each of them is visible, a space or a
/// tab. Else that is reported, and so is that it is not there.
pub proof fn law_headers_are_read_or_reported(headers: HeaderMap, key: Seq<char>)
    ensures
        ({
            let bytes = header_entries(headers)[key];
            let read = header_outcome(headers, key);
            if !header_entries(headers).contains_key(key) {
                read == Err::<Seq<char>, Seq<char>>("missing header: "@ + key)
            } else if exists|i: int|
                0 <= i < bytes.len() && ((#[trigger] bytes[i]) < 32 && bytes[i] != 9 || bytes[i]
                    > 126) {
                read == Err::<Seq<char>, Seq<char>>("failed to convert header to a str"@)
            } else {
                &&& read is Ok
                &&& read->Ok_0.len() == bytes.len()
                &&& forall|i: int|
                    0 <= i < bytes.len() ==> #[trigger] read->Ok_0[i] as int == bytes[i] as int
            }
        }),
{
}

/// The time and the signature of a request stand in the headers that Slack puts them in.
pub proof fn law_headers_of_a_request()
    ensures
        TIMESTAMP_HEADER@ == "x-slack-request-timestamp"@,
        SIGNATURE_HEADER@ == "x-slack-signature"@,
{
}

/// What is signed is `v0:`, the time, a colon and the body, one behind the other. A
/// signature is right if and only if it reads `v0=` and the digits of the code.
pub proof fn law_what_is_signed(
    timestamp: Seq<char>,
    body: Seq<char>,
    tag: Seq<u8>,
    signature: Seq<char>,
)
    ensures
        signed_payload(timestamp, body) == seq!['v', '0', ':'] + timestamp + seq![':'] + body,
        signature_outcome(signature_text(tag), signature) is Ok <==> signature == seq![
            'v',
            '0',
            '=',
        ] + hex_lower(tag),
        signature_outcome(signature_text(tag), signature) is Err ==> signature_outcome(
            signature_text(tag),
            signature,
        )->Err_0 == "invalid Slack signature"@,
{
    reveal_strlit("v0:");
    reveal_strlit("v0=");
    reveal_strlit(":");
    assert("v0:"@ =~= seq!['v', '0', ':']);
    assert("v0="@ =~= seq!['v', '0', '=']);
    assert(":"@ =~= seq![':']);
}

} // verus!
