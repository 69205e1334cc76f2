//! The trusted boundary around the signature primitive.
//!
//! Everything the library knows about Ed25519 is stated here, as contracts
//! on thin wrappers over `monosodium`.  The signatures themselves are not
//! modelled: `sig_of` names the bytes the primitive produces and
//! `sig_valid` names its verification verdict, and the one fact relating
//! them — a signature made with the secret half of a generated keypair
//! verifies under its public half — is stated where the keypair is made.
//!
//! The primitive needs one-time, process-wide initialization before any
//! keypair is generated, and `monosodium::init_sodium` aborts the process
//! when invoked a second time, so no verified function performs it: the
//! embedding application does, exactly once, behind its own guard, before
//! it first asks the library for a keypair.

use vstd::prelude::*;

verus! {

/// Length in bytes of a detached signature (`crypto_sign_BYTES`).
pub const SIGN_LEN: usize = 64;

/// Length in bytes of a public signing key (`crypto_sign_PUBLICKEYBYTES`).
pub const PUBLIC_KEY_LEN: usize = 32;

/// Length in bytes of a secret signing key (`crypto_sign_SECRETKEYBYTES`).
pub const SECRET_KEY_LEN: usize = 64;

/// The signature the primitive produces over `msg` with the secret key
/// `secret`.  Detached Ed25519 signing is deterministic, so this is a
/// function of its arguments alone; nothing more is assumed of its value.
pub uninterp spec fn sig_of(msg: Seq<u8>, secret: Seq<u8>) -> Seq<u8>;

/// The primitive's verdict on `word` as a signature over `msg` under the
/// public key `public`.
pub uninterp spec fn sig_valid(word: Seq<u8>, msg: Seq<u8>, public: Seq<u8>) -> bool;

/// The standard (padded) base64 encoding of `bytes`.
pub uninterp spec fn b64_of(bytes: Seq<u8>) -> Seq<u8>;

/// What it means for `public` and `secret` to be the two halves of one
/// generated signing keypair: they have the primitive's key lengths, and a
/// signature made with `secret` over any message verifies under `public`.
pub open spec fn keypair_valid(public: Seq<u8>, secret: Seq<u8>) -> bool {
    &&& public.len() == PUBLIC_KEY_LEN
    &&& secret.len() == SECRET_KEY_LEN
    &&& forall|msg: Seq<u8>| sig_valid(sig_of(msg, secret), msg, public)
}

/// Relies on `monosodium::sign_buflen`: the primitive's fixed detached
/// signature length, `crypto_sign_BYTES`, which is 64.
#[verifier::external_body]
pub(crate) fn sign_length() -> (r: usize)
    ensures
        r == SIGN_LEN,
{
    monosodium::sign_buflen()
}

/// Relies on `monosodium::gen_sign_keypair`: a freshly generated keypair
/// has the fixed key lengths, and what its secret half signs, its public
/// half affirms.  The pair is random, so nothing relates two calls.
#[verifier::external_body]
pub(crate) fn gen_keypair() -> (r: Option<(Vec<u8>, Vec<u8>)>)
    ensures
        r matches Some(kp) ==> keypair_valid(kp.0@, kp.1@),
{
    match monosodium::gen_sign_keypair() {
        Ok(kp) => Some((kp.public.to_vec(), kp.secret.to_vec())),
        Err(_) => None,
    }
}

/// Relies on `monosodium::sign`: detached signing writes exactly
/// `sign_buflen` bytes, a pure function of message and secret key.  A
/// report of failure from the primitive on well-sized buffers signals
/// state corruption, not bad input, and aborts the process rather than
/// returning.
#[verifier::external_body]
pub(crate) fn sign_detached(msg: &[u8], secret: &Vec<u8>) -> (r: Vec<u8>)
    requires
        secret@.len() == SECRET_KEY_LEN,
    ensures
        r@ == sig_of(msg@, secret@),
        r@.len() == SIGN_LEN,
{
    let mut sig = vec![0u8; monosodium::sign_buflen()];
    monosodium::sign(&mut sig, msg, secret).unwrap();
    sig
}

/// Relies on `monosodium::sign_verify`: the verdict is a pure function of
/// signature, message and public key.  The primitive aborts on buffers of
/// the wrong length, so those are excluded here.
#[verifier::external_body]
pub(crate) fn verify_detached(word: &[u8], msg: &[u8], public: &[u8]) -> (r: bool)
    requires
        word@.len() == SIGN_LEN,
        public@.len() == PUBLIC_KEY_LEN,
    ensures
        r == sig_valid(word@, msg@, public@),
{
    monosodium::sign_verify(word, msg, public).is_ok()
}

/// Relies on `monosodium::util::CryptoBuf::encode_base64_config` with the
/// standard variant: the returned text is the standard padded base64
/// encoding of the input bytes, a pure function of them.
#[verifier::external_body]
pub(crate) fn base64_standard(bytes: &Vec<u8>) -> (r: Vec<u8>)
    ensures
        r@ == b64_of(bytes@),
{
    let buf = monosodium::util::CryptoBuf::from_vec(bytes.len(), bytes.clone());
    buf.encode_base64_config(monosodium::util::base64::Base64Config::Standard).into_bytes()
}

} // verus!
