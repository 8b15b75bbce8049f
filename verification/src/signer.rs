//! Signing with an RSA key: PKCS#1 v1.5 over SHA-256.

use crate::error::Error;
use crate::types::SecretString;
use ring::error::{KeyRejected, Unspecified};
use ring::rand::SystemRandom;
use ring::signature::{RsaKeyPair, RSA_PKCS1_SHA256};
use vstd::prelude::*;

verus! {

/// `ring`'s RSA key pair. Nothing of what it holds is visible here.
#[verifier::external_type_specification]
#[verifier::external_body]
pub struct ExRsaKeyPair(RsaKeyPair);

/// `ring`'s handle on the system's source of random numbers.
#[verifier::external_type_specification]
#[verifier::external_body]
pub struct ExSystemRandom(SystemRandom);

/// `ring`'s reason for turning a key down.
#[verifier::external_type_specification]
#[verifier::external_body]
pub struct ExKeyRejected(KeyRejected);

/// `ring`'s error without detail.
#[verifier::external_type_specification]
#[verifier::external_body]
pub struct ExUnspecified(Unspecified);

/// The error of std's input and output.
#[verifier::external_type_specification]
#[verifier::external_body]
pub struct ExIoError(std::io::Error);

/// What `rustls_pemfile::pkcs8_private_keys` finds in the text `pem`: the
/// contents of its `PRIVATE KEY` sections in the order in which they stand,
/// or `None` where the text is malformed.
pub uninterp spec fn pem_pkcs8_keys(pem: Seq<char>) -> Option<Seq<Seq<u8>>>;

/// The key that `ring::signature::RsaKeyPair::from_pkcs8` makes of the bytes
/// `pkcs8`, or `None` where it turns them down.
pub uninterp spec fn rsa_key_of(pkcs8: Seq<u8>) -> Option<RsaKeyPair>;

/// What `RsaKeyPair::public_modulus_len` gives for `key`: the length in bytes
/// of its public modulus.
pub uninterp spec fn rsa_public_modulus_len(key: RsaKeyPair) -> nat;

/// What `RsaKeyPair::sign` with `RSA_PKCS1_SHA256` writes for `message` under
/// `key` into a buffer as long as the key's modulus: the PKCS#1 v1.5 signature
/// over the SHA-256 digest of `message`, or `None` where `ring` fails. That
/// padding takes no random numbers, so the key and the message decide.
pub uninterp spec fn rsa_pkcs1_sha256_signature(key: RsaKeyPair, message: Seq<u8>) -> Option<
    Seq<u8>,
>;

/// The key that a signer is made of, given what was found in a PEM text: the
/// first of the keys. No key, or a malformed text, gives none.
pub open spec fn first_key(found: Option<Seq<Seq<u8>>>) -> Option<Seq<u8>> {
    match found {
        Some(keys) => if keys.len() > 0 {
            Some(keys[0])
        } else {
            None
        },
        None => None,
    }
}

/// The key that a signer made of the PEM text `pem` signs with: the one that
/// `ring` makes of the first PKCS#8 section. A text without such a section,
/// or whose first one `ring` turns down, gives none.
pub open spec fn signing_key_in(pem: Seq<char>) -> Option<RsaKeyPair> {
    match first_key(pem_pkcs8_keys(pem)) {
        Some(pkcs8) => rsa_key_of(pkcs8),
        None => None,
    }
}

/// Only the first key of a PEM text counts: two texts whose first PKCS#8
/// sections hold the same bytes give the same signing key, whatever follows
/// in either.
pub proof fn first_key_alone_decides(pem: Seq<char>, other: Seq<char>)
    requires
        first_key(pem_pkcs8_keys(pem)) == first_key(pem_pkcs8_keys(other)),
    ensures
        signing_key_in(pem) == signing_key_in(other),
{
}

/// Signers with the same key owe the same signature for the same input, of
/// the same length.
pub proof fn same_key_signs_alike(signer: Signer, other: Signer, input: Seq<u8>)
    requires
        signer.spec_key() == other.spec_key(),
    ensures
        signer.owed(input) == other.owed(input),
        signer.spec_signature_len() == other.spec_signature_len(),
{
}

/// An RSA PKCS#1 SHA-256 signer.
pub struct Signer {
    key: RsaKeyPair,
    rng: SystemRandom,
    modulus_len: usize,
}

impl Signer {
    #[verifier::type_invariant]
    spec fn knows_modulus_len(self) -> bool {
        self.modulus_len == rsa_public_modulus_len(self.key)
    }

    /// The key that the signer signs with.
    pub closed spec fn spec_key(&self) -> RsaKeyPair {
        self.key
    }

    /// The length in bytes of every signature of this signer: that of the
    /// key's public modulus.
    pub open spec fn spec_signature_len(&self) -> nat {
        rsa_public_modulus_len(self.spec_key())
    }

    /// What the signer owes for `input`: the signature under its key, or
    /// nothing where signing fails.
    pub open spec fn owed(&self, input: Seq<u8>) -> Option<Seq<u8>> {
        rsa_pkcs1_sha256_signature(self.spec_key(), input)
    }

    /// Picks the key to sign with from what a PEM text held: the first key.
    /// Any further keys are passed over.
    pub fn pick_key(found: Option<Vec<Vec<u8>>>) -> (picked: Result<Vec<u8>, Error>)
        ensures
            match picked {
                Ok(key) => first_key(found.deep_view()) == Some(key@),
                Err(error) => error == Error::SignerInit && first_key(found.deep_view()).is_none(),
            },
    {
        match found {
            Some(mut keys) => {
                if keys.len() > 0 {
                    Ok(keys.remove(0))
                } else {
                    Err(Error::SignerInit)
                }
            },
            None => Err(Error::SignerInit),
        }
    }

    /// Makes a signer of the first PKCS#8 key in the PEM text `pem_pkcs8`.
    /// Any further keys play no part.
    ///
    /// Fails with `SignerInit` where the text is malformed, holds no such
    /// key, or the first one is not an RSA key that `ring` takes.
    pub fn new(pem_pkcs8: &SecretString) -> (made: Result<Signer, Error>)
        ensures
            match signing_key_in(pem_pkcs8@) {
                Some(key) => made matches Ok(signer) && signer.spec_key() == key,
                None => made matches Err(error) && error == Error::SignerInit,
            },
    {
        let found = match read_pkcs8_keys(pem_pkcs8.secret()) {
            Ok(keys) => Some(keys),
            Err(_) => None,
        };
        let der = match Signer::pick_key(found) {
            Ok(der) => der,
            Err(error) => {
                return Err(error);
            },
        };
        match rsa_key_from_pkcs8(der.as_slice()) {
            Ok(key) => {
                let modulus_len: usize = rsa_modulus_len(&key);
                Ok(Signer { key, rng: system_random(), modulus_len })
            },
            Err(_) => Err(Error::SignerInit),
        }
    }

    /// The length in bytes of every signature of this signer.
    pub fn signature_len(&self) -> (len: usize)
        ensures
            len == self.spec_signature_len(),
    {
        proof {
            use_type_invariant(self);
        }
        self.modulus_len
    }

    /// Signs `input` and returns the signature.
    ///
    /// The signature is the one that the key and `input` decide, as long as
    /// the key's modulus. Where `ring` fails there is none, and the failure is
    /// reported as `SignerFailed`, without detail.
    pub fn sign(&self, input: &[u8]) -> (signed: Result<Vec<u8>, Error>)
        ensures
            match self.owed(input@) {
                Some(owed) => signed matches Ok(signature) && signature@ == owed,
                None => signed matches Err(error) && error == Error::SignerFailed,
            },
            signed matches Ok(signature) ==> signature@.len() == self.spec_signature_len(),
    {
        proof {
            use_type_invariant(self);
        }
        let mut signature: Vec<u8> = vec![0u8; self.modulus_len];
        match rsa_sign(&self.key, &self.rng, input, &mut signature) {
            Ok(_) => Ok(signature),
            Err(_) => Err(Error::SignerFailed),
        }
    }

    /// The diagnostic rendering: the type's name, and nothing of the key.
    pub fn debug_string(&self) -> (shown: String)
        ensures
            shown@ == "Signer"@,
    {
        "Signer".to_owned()
    }
}

/// Calls `rustls_pemfile::pkcs8_private_keys` on the bytes of `pem`. The
/// crate reads the text section by section and decodes the base64 of each
/// `PRIVATE KEY` section; it fails where a section is not closed or its
/// base64 is bad. The outcome depends on the text alone.
#[verifier::external_body]
fn read_pkcs8_keys(pem: &str) -> (found: Result<Vec<Vec<u8>>, std::io::Error>)
    ensures
        found matches Ok(keys) ==> pem_pkcs8_keys(pem@) == Some(keys.deep_view()),
        found is Err ==> pem_pkcs8_keys(pem@).is_none(),
{
    rustls_pemfile::pkcs8_private_keys(&mut pem.as_bytes())
}

/// Calls `ring::signature::RsaKeyPair::from_pkcs8`, which parses and checks
/// the key. Whether it takes the bytes, and the key it makes of them, depend
/// on the bytes alone.
#[verifier::external_body]
fn rsa_key_from_pkcs8(pkcs8: &[u8]) -> (parsed: Result<RsaKeyPair, KeyRejected>)
    ensures
        match rsa_key_of(pkcs8@) {
            Some(key) => parsed matches Ok(made) && made == key,
            None => parsed is Err,
        },
{
    RsaKeyPair::from_pkcs8(pkcs8)
}

/// Calls `RsaKeyPair::public_modulus_len`: the length in bytes of the key's
/// public modulus.
#[verifier::external_body]
fn rsa_modulus_len(key: &RsaKeyPair) -> (len: usize)
    ensures
        len == rsa_public_modulus_len(*key),
{
    key.public_modulus_len()
}

/// Calls `ring::rand::SystemRandom::new`.
#[verifier::external_body]
fn system_random() -> (rng: SystemRandom) {
    SystemRandom::new()
}

/// Calls `RsaKeyPair::sign` with `RSA_PKCS1_SHA256`, which writes the
/// signature of `message` into `signature`. `ring` fails, and does not
/// panic, where the buffer is not as long as the modulus. The buffer keeps
/// its length. Into a buffer of the right length `ring` writes the whole
/// signature, whatever the buffer held; this padding leaves the random
/// source unused, so the key and the message decide what is written and
/// whether the call fails.
#[verifier::external_body]
fn rsa_sign(key: &RsaKeyPair, rng: &SystemRandom, message: &[u8], signature: &mut Vec<u8>) -> (done:
    Result<(), Unspecified>)
    ensures
        final(signature)@.len() == old(signature)@.len(),
        old(signature)@.len() == rsa_public_modulus_len(*key) ==> match rsa_pkcs1_sha256_signature(
            *key,
            message@,
        ) {
            Some(owed) => done is Ok && final(signature)@ == owed,
            None => done is Err,
        },
{
    key.sign(&RSA_PKCS1_SHA256, rng, message, signature)
}

} // verus!
