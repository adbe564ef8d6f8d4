//! The cryptographic primitives that the key hierarchy builds on.
//!
//! The primitives come from an engine that the caller supplies. The
//! library promises nothing of an engine's answers. It states which
//! answers an engine can give to a request (`may_...`), so that the
//! contracts of the functions that use an engine say exactly which request
//! was made and what became of the answer.

use vstd::prelude::*;
use crate::error::Error;
use crate::key_material::KeyMaterial;

verus! {

/// Length in bytes of an AES-256 key.
pub const AES_256_KEY_LENGTH: usize = 32;

/// The engine that supplies the primitives: random salts and keys,
/// password-based key derivation, and authenticated encryption. Every
/// method may fail, and the engine decides what it returns.
pub trait Crypto {
    /// A fresh random salt.
    fn generate_salt(&self) -> Result<Vec<u8>, Error>;

    /// A fresh random AES-256 key.
    fn generate_aes256_key(&self) -> Result<Vec<u8>, Error>;

    /// Derives a key of `key_length` bytes from a password and a salt.
    fn derive_key_from_password(
        &self,
        pw: &[u8],
        salt: Option<&[u8]>,
        key_length: usize,
    ) -> Result<Vec<u8>, Error>;

    /// Encrypts under `key`; returns ciphertext, initialization vector and
    /// authentication tag.
    fn aes_gcm_encrypt(&self, plaintext: &[u8], key: &[u8]) -> Result<
        (Vec<u8>, Vec<u8>, Vec<u8>),
        Error,
    >;

    /// Decrypts under `key`; fails when the tag does not authenticate the
    /// ciphertext.
    fn aes_gcm_decrypt(&self, data: &[u8], iv: &[u8], tag: &[u8], key: &[u8]) -> Result<
        Vec<u8>,
        Error,
    >;
}

/// Bytes, or the failure to produce them.
pub type Bytes = Result<Seq<u8>, Error>;

/// Ciphertext, initialization vector and tag, or the failure to encrypt.
pub type Sealed = Result<(Seq<u8>, Seq<u8>, Seq<u8>), Error>;

/// The view of bytes that an engine returned.
pub open spec fn bytes_result_view(r: Result<Vec<u8>, Error>) -> Bytes {
    match r {
        Ok(bytes) => Ok(bytes@),
        Err(e) => Err(e),
    }
}

/// The view of key material that came out of an answer of the engine.
pub open spec fn material_result_view(r: Result<KeyMaterial, Error>) -> Bytes {
    match r {
        Ok(material) => Ok(material@),
        Err(e) => Err(e),
    }
}

/// The answer of an engine as key material: the bytes are taken over, so
/// that they are overwritten when the material is dropped.
pub fn into_material(answer: Result<Vec<u8>, Error>) -> (r: Result<KeyMaterial, Error>)
    ensures
        material_result_view(r) == bytes_result_view(answer),
{
    match answer {
        Ok(bytes) => Ok(KeyMaterial::new(bytes)),
        Err(e) => Err(e),
    }
}

/// The view of what an encryption returned.
pub open spec fn sealed_result_view(r: Result<(Vec<u8>, Vec<u8>, Vec<u8>), Error>) -> Sealed {
    match r {
        Ok((ciphertext, iv, tag)) => Ok((ciphertext@, iv@, tag@)),
        Err(e) => Err(e),
    }
}

/// The view of an optional salt.
pub open spec fn salt_view(salt: Option<&[u8]>) -> Option<Seq<u8>> {
    match salt {
        Some(s) => Some(s@),
        None => None,
    }
}

/// The engine can answer a request for a salt with `answer`.
pub open spec fn may_generate_salt<C: Crypto>(crypto: &C, answer: Bytes) -> bool {
    exists|out: Result<Vec<u8>, Error>|
        #[trigger] call_ensures(C::generate_salt, (crypto,), out) && bytes_result_view(out)
            == answer
}

/// The engine can answer a request for a new key with `answer`.
pub open spec fn may_generate_aes256_key<C: Crypto>(crypto: &C, answer: Bytes) -> bool {
    exists|out: Result<Vec<u8>, Error>|
        #[trigger] call_ensures(C::generate_aes256_key, (crypto,), out) && bytes_result_view(out)
            == answer
}

/// The engine can answer the derivation of a key of `key_length` bytes
/// from `pw` and `salt` with `answer`.
pub open spec fn may_derive_key_from_password<C: Crypto>(
    crypto: &C,
    pw: Seq<u8>,
    salt: Option<Seq<u8>>,
    key_length: usize,
    answer: Bytes,
) -> bool {
    exists|pw_bytes: &[u8], salt_bytes: Option<&[u8]>, out: Result<Vec<u8>, Error>|
        #[trigger] call_ensures(
            C::derive_key_from_password,
            (crypto, pw_bytes, salt_bytes, key_length),
            out,
        ) && pw_bytes@ == pw && salt_view(salt_bytes) == salt && bytes_result_view(out) == answer
}

/// The engine can answer the encryption of `plaintext` under `key` with
/// `answer`.
pub open spec fn may_aes_gcm_encrypt<C: Crypto>(
    crypto: &C,
    plaintext: Seq<u8>,
    key: Seq<u8>,
    answer: Sealed,
) -> bool {
    exists|plaintext_bytes: &[u8], key_bytes: &[u8], out: Result<(Vec<u8>, Vec<u8>, Vec<u8>), Error>|
        #[trigger] call_ensures(C::aes_gcm_encrypt, (crypto, plaintext_bytes, key_bytes), out)
            && plaintext_bytes@ == plaintext && key_bytes@ == key && sealed_result_view(out)
            == answer
}

/// The engine can answer the decryption of `data` with `iv` and `tag` under
/// `key` with `answer`.
pub open spec fn may_aes_gcm_decrypt<C: Crypto>(
    crypto: &C,
    data: Seq<u8>,
    iv: Seq<u8>,
    tag: Seq<u8>,
    key: Seq<u8>,
    answer: Bytes,
) -> bool {
    exists|
        data_bytes: &[u8],
        iv_bytes: &[u8],
        tag_bytes: &[u8],
        key_bytes: &[u8],
        out: Result<Vec<u8>, Error>,
    |
        #[trigger] call_ensures(
            C::aes_gcm_decrypt,
            (crypto, data_bytes, iv_bytes, tag_bytes, key_bytes),
            out,
        ) && data_bytes@ == data && iv_bytes@ == iv && tag_bytes@ == tag && key_bytes@ == key
            && bytes_result_view(out) == answer
}

/// The engine's decryption inverts its encryption: what it sealed under a
/// key, it opens under that key to the plaintext, and never fails to.
pub open spec fn decryption_inverts_encryption<C: Crypto>(crypto: &C) -> bool {
    forall|
        plaintext: Seq<u8>,
        key: Seq<u8>,
        ciphertext: Seq<u8>,
        iv: Seq<u8>,
        tag: Seq<u8>,
        opened: Bytes,
    |
        #![trigger
            may_aes_gcm_encrypt(crypto, plaintext, key, Ok((ciphertext, iv, tag))),
            may_aes_gcm_decrypt(crypto, ciphertext, iv, tag, key, opened)
        ]
        may_aes_gcm_encrypt(crypto, plaintext, key, Ok((ciphertext, iv, tag)))
            && may_aes_gcm_decrypt(crypto, ciphertext, iv, tag, key, opened) ==> opened == Ok::<
            Seq<u8>,
            Error,
        >(plaintext)
}

/// The engine's key derivation is a function of password, salt and
/// length: it gives one answer to one request.
pub open spec fn derivation_is_a_function<C: Crypto>(crypto: &C) -> bool {
    forall|pw: Seq<u8>, salt: Option<Seq<u8>>, key_length: usize, first: Bytes, second: Bytes|
        #![trigger
            may_derive_key_from_password(crypto, pw, salt, key_length, first),
            may_derive_key_from_password(crypto, pw, salt, key_length, second)
        ]
        may_derive_key_from_password(crypto, pw, salt, key_length, first)
            && may_derive_key_from_password(crypto, pw, salt, key_length, second) ==> first
            == second
}

} // verus!
