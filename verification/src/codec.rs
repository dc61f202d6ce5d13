use vstd::prelude::*;

use crate::errors::StoreError;

verus! {

/// The transport encoding of a byte payload. What the encoding looks like is
/// the base64 crate's business; the library only names it.
pub uninterp spec fn b64_encoding_of(bytes: Seq<u8>) -> Seq<char>;

/// The bytes a transport payload decodes to, or `None` if it is malformed.
pub uninterp spec fn b64_decoding_of(payload: Seq<char>) -> Option<Seq<u8>>;

/// Relies on the base64 crate's `STANDARD` engine `encode`: the result is a
/// function of the input bytes alone, and `decode` of the result returns
/// exactly the input bytes. The length bound keeps `encode` from its one
/// panic, an arithmetic overflow sizing the output buffer.
#[verifier::external_body]
fn b64_encode(bytes: &[u8]) -> (r: String)
    requires
        bytes@.len() <= usize::MAX / 4,
    ensures
        r@ == b64_encoding_of(bytes@),
        b64_decoding_of(r@) == Some(bytes@),
{
    base64::Engine::encode(&base64::engine::general_purpose::STANDARD, bytes)
}

/// Relies on the base64 crate's `STANDARD` engine `decode`: the result is a
/// function of the payload alone, `Err` exactly on malformed base64. The
/// error's detail is dropped; only that decoding failed comes back.
#[verifier::external_body]
fn b64_decode(payload: &str) -> (r: Option<Vec<u8>>)
    ensures
        match r {
            Some(v) => b64_decoding_of(payload@) == Some(v@),
            None => b64_decoding_of(payload@) is None,
        },
{
    match base64::Engine::decode(&base64::engine::general_purpose::STANDARD, payload.as_bytes()) {
        Ok(v) => Some(v),
        Err(_) => None,
    }
}

/// Decodes an inline payload from its transport encoding into raw bytes.
pub fn decode_inline_payload(payload: &str) -> (r: Result<Vec<u8>, StoreError>)
    ensures
        r is Ok <==> b64_decoding_of(payload@) is Some,
        r matches Ok(v) ==> b64_decoding_of(payload@) == Some(v@),
        r is Err ==> r == Err::<Vec<u8>, StoreError>(StoreError::MalformedPayload),
{
    match b64_decode(payload) {
        Some(v) => Ok(v),
        None => Err(StoreError::MalformedPayload),
    }
}

/// Encodes file content into the transport encoding, so that a read hands
/// back exactly what decoding its result would yield: the file's bytes.
pub fn encode_file_payload(bytes: &[u8]) -> (r: String)
    requires
        bytes@.len() <= usize::MAX / 4,
    ensures
        r@ == b64_encoding_of(bytes@),
        b64_decoding_of(r@) == Some(bytes@),
{
    b64_encode(bytes)
}

} // verus!
