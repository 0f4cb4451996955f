use vstd::prelude::*;
use openssl::error::ErrorStack;
use openssl::hash::MessageDigest;
use openssl::pkey::PKey;
use openssl::pkey::Private;
use openssl::rsa::Rsa;
use openssl::sign::Signer;
use crate::error::ProtocolError;

verus! {

/// Size in bits of the key pair made for each handshake.
pub const KEY_BITS: u32 = 2048;

/// openssl's `ErrorStack`, the error of every call below, carried opaquely.
#[verifier::external_type_specification]
#[verifier::external_body]
pub struct ExErrorStack(ErrorStack);

/// openssl's `Private` marker: key material that includes the private half.
#[verifier::external_type_specification]
#[verifier::external_body]
pub struct ExPrivate(Private);

/// openssl's `Rsa` key, carried opaquely.
#[verifier::external_type_specification]
#[verifier::external_body]
#[verifier::reject_recursive_types(T)]
pub struct ExRsa<T>(Rsa<T>);

/// openssl's `PKey` generic key, carried opaquely.
#[verifier::external_type_specification]
#[verifier::external_body]
#[verifier::reject_recursive_types(T)]
pub struct ExPKey<T>(PKey<T>);

/// openssl's `MessageDigest`, the choice of hash for signing.
#[verifier::external_type_specification]
#[verifier::external_body]
pub struct ExMessageDigest(MessageDigest);

/// openssl's `Signer`, which accumulates data and signs it.
#[verifier::external_type_specification]
#[verifier::external_body]
pub struct ExSigner<'a>(Signer<'a>);

/// Relies on openssl's `Rsa::generate`: a fresh random RSA key pair.
#[verifier::external_body]
fn rsa_generate(bits: u32) -> (r: Result<Rsa<Private>, ErrorStack>) {
    Rsa::generate(bits)
}

/// Relies on openssl's `PKey::from_rsa`: wraps an RSA key as a generic key.
#[verifier::external_body]
fn pkey_from_rsa(rsa: Rsa<Private>) -> (r: Result<PKey<Private>, ErrorStack>) {
    PKey::from_rsa(rsa)
}

/// Relies on openssl's `MessageDigest::sha1`: the SHA-1 digest.
#[verifier::external_body]
fn sha1() -> (r: MessageDigest) {
    MessageDigest::sha1()
}

/// Relies on openssl's `Signer::new`: a signer over `key` with digest `md`.
#[verifier::external_body]
fn signer_new<'a>(md: MessageDigest, key: &'a PKey<Private>) -> (r: Result<
    Signer<'a>,
    ErrorStack,
>) {
    Signer::new(md, key)
}

/// Relies on openssl's `Signer::update`: feeds `data` to the signer.
#[verifier::external_body]
fn signer_update(signer: &mut Signer, data: &[u8]) -> (r: Result<(), ErrorStack>) {
    signer.update(data)
}

/// Relies on openssl's `Signer::sign_to_vec`: the signature over what was fed.
#[verifier::external_body]
fn signer_sign_to_vec(signer: &Signer) -> (r: Result<Vec<u8>, ErrorStack>) {
    signer.sign_to_vec()
}

/// Relies on openssl's `PKeyRef::public_key_to_der`: the DER form of the
/// public half of `key`.
#[verifier::external_body]
fn public_key_to_der(key: &PKey<Private>) -> (r: Result<Vec<u8>, ErrorStack>) {
    key.public_key_to_der()
}

/// Makes a fresh key pair, signs `data` with it using SHA-1, and returns the
/// signature and the DER-encoded public key. Any failure of the key library is
/// reported as `SigningError`.
pub fn sign_data(data: &[u8]) -> (r: Result<(Vec<u8>, Vec<u8>), ProtocolError>)
    ensures
        r is Err ==> r == Err::<(Vec<u8>, Vec<u8>), ProtocolError>(ProtocolError::SigningError),
{
    let rsa = match rsa_generate(KEY_BITS) {
        Ok(k) => k,
        Err(_) => return Err(ProtocolError::SigningError),
    };
    let keypair = match pkey_from_rsa(rsa) {
        Ok(k) => k,
        Err(_) => return Err(ProtocolError::SigningError),
    };
    let mut signer = match signer_new(sha1(), &keypair) {
        Ok(s) => s,
        Err(_) => return Err(ProtocolError::SigningError),
    };
    if signer_update(&mut signer, data).is_err() {
        return Err(ProtocolError::SigningError);
    }
    let signature = match signer_sign_to_vec(&signer) {
        Ok(s) => s,
        Err(_) => return Err(ProtocolError::SigningError),
    };
    let public_key = match public_key_to_der(&keypair) {
        Ok(p) => p,
        Err(_) => return Err(ProtocolError::SigningError),
    };
    Ok((signature, public_key))
}

} // verus!
