use vstd::prelude::*;
use vstd::string::StringSliceAdditionalSpecFns;
use jsonwebtoken::errors::Error as JwtError;
use jsonwebtoken::{DecodingKey, EncodingKey};
use crate::error::SessionError;

verus! {

/// A PEM's bytes with each `_` turned back into the line break it stands for
/// (keys passed through the environment are written on one line that way).
pub open spec fn pem_bytes(text: Seq<u8>) -> Seq<u8> {
    text.map_values(|b: u8| if b == 95 { 10u8 } else { b })
}

/// The PEM text of a key written on one line, `_` for each line break.
pub fn pem_from_line(rsa_pem: &str) -> (r: Vec<u8>)
    ensures
        r@ == pem_bytes(rsa_pem.spec_bytes()),
{
    let bytes = rsa_pem.as_bytes();
    let mut out: Vec<u8> = Vec::new();
    let mut i: usize = 0;
    while i < bytes.len()
        invariant
            i <= bytes@.len(),
            bytes@ == rsa_pem.spec_bytes(),
            out@ == pem_bytes(bytes@.subrange(0, i as int)),
        decreases bytes@.len() - i,
    {
        let b = bytes[i];
        out.push(if b == 95 { 10u8 } else { b });
        proof {
            assert(bytes@.subrange(0, i + 1) =~= bytes@.subrange(0, i as int).push(b));
            assert(pem_bytes(bytes@.subrange(0, i + 1)) =~= pem_bytes(bytes@.subrange(0, i as int)).push(
                if b == 95 { 10u8 } else { b },
            ));
        }
        i = i + 1;
    }
    assert(bytes@.subrange(0, bytes@.len() as int) =~= bytes@);
    out
}

/// Relies on `jsonwebtoken::EncodingKey::from_rsa_pem`: an RSA private key
/// read from PEM, or the reason it could not be read.
#[verifier::external_body]
fn encoding_key_from_rsa_pem(pem: &[u8]) -> Result<EncodingKey, JwtError> {
    EncodingKey::from_rsa_pem(pem)
}

/// Relies on `jsonwebtoken::DecodingKey::from_rsa_pem`: an RSA public key
/// read from PEM, or the reason it could not be read.
#[verifier::external_body]
fn decoding_key_from_rsa_pem(pem: &[u8]) -> Result<DecodingKey, JwtError> {
    DecodingKey::from_rsa_pem(pem)
}

/// The RSA signing key that a one-line PEM holds.
pub fn parse_encoding_key(rsa_pem: &str) -> (r: Result<EncodingKey, SessionError>)
    ensures
        r matches Err(e) ==> e == SessionError::InvalidKey,
{
    let pem = pem_from_line(rsa_pem);
    match encoding_key_from_rsa_pem(pem.as_slice()) {
        Ok(k) => Ok(k),
        Err(_) => Err(SessionError::InvalidKey),
    }
}

/// The RSA verification key that a one-line PEM holds.
pub fn parse_decoding_key(rsa_pem: &str) -> (r: Result<DecodingKey, SessionError>)
    ensures
        r matches Err(e) ==> e == SessionError::InvalidKey,
{
    let pem = pem_from_line(rsa_pem);
    match decoding_key_from_rsa_pem(pem.as_slice()) {
        Ok(k) => Ok(k),
        Err(_) => Err(SessionError::InvalidKey),
    }
}

} // verus!
