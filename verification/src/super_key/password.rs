//! The wrapping of a master key itself, with a key derived from the user's
//! password.

use vstd::prelude::*;
use crate::crypto::{
    bytes_result_view, decryption_inverts_encryption, derivation_is_a_function, into_material,
    material_result_view, may_aes_gcm_decrypt, may_aes_gcm_encrypt,
    may_derive_key_from_password, may_generate_salt, sealed_result_view, Bytes, Crypto, Sealed,
    AES_256_KEY_LENGTH,
};
use crate::database::{BlobMetaData, BlobMetaDataView, KeyEntry, KeyEntryView};
use crate::error::{Error, ResponseCode};
use crate::super_key::key_blob::{wrapped_result_view, Wrapped};
use crate::super_key::{CacheView, SuperKey, SuperKeyManager, SuperKeyView};

verus! {

/// A master key, or the failure to obtain it.
pub type SuperKeyAnswer = Result<SuperKeyView, Error>;

/// The view of a master key that a function returned.
pub open spec fn super_key_result_view(r: Result<SuperKey, Error>) -> SuperKeyAnswer {
    match r {
        Ok(super_key) => Ok(super_key@),
        Err(e) => Err(e),
    }
}

/// What the password wrap gives for each answer of the engine: the
/// ciphertext with metadata that names the password as the mechanism and
/// carries the salt, the initialization vector and the tag.
pub open spec fn wrapped_with_password(sealed: Sealed, salt: Seq<u8>) -> Wrapped {
    match sealed {
        Ok((ciphertext, iv, tag)) => Ok(
            (ciphertext, BlobMetaDataView::password_wrap(salt, iv, tag)),
        ),
        Err(e) => Err(e),
    }
}

/// `answer` is a possible outcome of encrypting `plaintext` under the key
/// that the engine derives from `pw` and `salt`.
pub open spec fn may_seal_with_password<C: Crypto>(
    crypto: &C,
    plaintext: Seq<u8>,
    pw: Seq<u8>,
    salt: Seq<u8>,
    answer: Sealed,
) -> bool {
    exists|derived: Bytes| #[trigger]
        may_derive_key_from_password(crypto, pw, Some(salt), AES_256_KEY_LENGTH, derived)
            && match derived {
            Ok(key) => may_aes_gcm_encrypt(crypto, plaintext, key, answer),
            Err(e) => answer == Err::<(Seq<u8>, Seq<u8>, Seq<u8>), Error>(e),
        }
}

/// `answer` is a possible outcome of decrypting `blob` under the key that
/// the engine derives from `pw` and `salt`.
pub open spec fn may_open_with_password<C: Crypto>(
    crypto: &C,
    blob: Seq<u8>,
    salt: Seq<u8>,
    iv: Seq<u8>,
    tag: Seq<u8>,
    pw: Seq<u8>,
    answer: Bytes,
) -> bool {
    exists|derived: Bytes| #[trigger]
        may_derive_key_from_password(crypto, pw, Some(salt), AES_256_KEY_LENGTH, derived)
            && match derived {
            Ok(key) => may_aes_gcm_decrypt(crypto, blob, iv, tag, key, answer),
            Err(e) => answer == Err::<Seq<u8>, Error>(e),
        }
}

/// `answer` is a possible outcome of wrapping the material of a master key
/// with the password and the given salt: the material is encrypted under
/// the key derived from both, and the metadata carries the salt.
pub open spec fn may_encrypt_with_salted_password<C: Crypto>(
    crypto: &C,
    super_key: Seq<u8>,
    pw: Seq<u8>,
    salt: Seq<u8>,
    answer: Wrapped,
) -> bool {
    exists|sealed: Sealed| #[trigger]
        may_seal_with_password(crypto, super_key, pw, salt, sealed) && answer
            == wrapped_with_password(sealed, salt)
}

/// `answer` is a possible outcome of wrapping the material of a master key
/// with the password: the engine gives a fresh salt, derives a key from
/// the password and that salt, and encrypts the material under it.
pub open spec fn may_encrypt_with_password<C: Crypto>(
    crypto: &C,
    super_key: Seq<u8>,
    pw: Seq<u8>,
    answer: Wrapped,
) -> bool {
    exists|salt: Bytes| #[trigger]
        may_generate_salt(crypto, salt) && match salt {
            Ok(salt) => may_encrypt_with_salted_password(crypto, super_key, pw, salt, answer),
            Err(e) => answer == Err::<(Seq<u8>, BlobMetaDataView), Error>(e),
        }
}

/// What extraction gives for each outcome of the decryption.
pub open spec fn extracted_super_key(opened: Bytes, id: i64) -> SuperKeyAnswer {
    match opened {
        Ok(material) => Ok(SuperKeyView { key: material, id }),
        Err(e) => Err(e),
    }
}

/// `answer` is a possible outcome of decrypting `blob` with the password
/// into the master key with the identifier `id`.
pub open spec fn may_open_super_key<C: Crypto>(
    crypto: &C,
    blob: Seq<u8>,
    salt: Seq<u8>,
    iv: Seq<u8>,
    tag: Seq<u8>,
    id: i64,
    pw: Seq<u8>,
    answer: SuperKeyAnswer,
) -> bool {
    exists|opened: Bytes| #[trigger]
        may_open_with_password(crypto, blob, salt, iv, tag, pw, opened) && answer
            == extracted_super_key(opened, id)
}

/// `answer` is a possible outcome of extracting the master key from a
/// stored entry with the password: an entry without a blob, or whose
/// metadata is not a complete password wrap, is corrupted; otherwise the
/// blob is decrypted under the key derived from the password and the
/// stored salt, and the key has the identifier of the entry.
pub open spec fn may_extract_super_key<C: Crypto>(
    crypto: &C,
    entry: KeyEntryView,
    pw: Seq<u8>,
    answer: SuperKeyAnswer,
) -> bool {
    match entry.key_blob_info {
        Some((blob, metadata)) => match metadata.password_parameters() {
            Ok((salt, iv, tag)) => may_open_super_key(
                crypto,
                blob,
                salt,
                iv,
                tag,
                entry.id,
                pw,
                answer,
            ),
            Err(e) => answer == Err::<SuperKeyView, Error>(e),
        },
        None => answer == Err::<SuperKeyView, Error>(Error::Rc(ResponseCode::ValueCorrupted)),
    }
}

/// The cache after an attempt to install the master key of a user: with a
/// key, the key is the user's per-boot key; with a failure, the cache is
/// as it was.
pub open spec fn cache_after_install(
    cache: CacheView,
    user_id: u32,
    super_key: SuperKeyAnswer,
) -> CacheView {
    match super_key {
        Ok(key) => cache.install_per_boot_key(user_id, key),
        Err(_) => cache,
    }
}

impl SuperKeyManager {
    /// Extracts the master key from an entry of the store, with the
    /// password that wrapped it.
    pub fn extract_super_key_from_key_entry<C: Crypto>(
        entry: KeyEntry,
        pw: &[u8],
        crypto: &C,
    ) -> (r: Result<SuperKey, Error>)
        ensures
            may_extract_super_key(crypto, entry@, pw@, super_key_result_view(r)),
    {
        match entry.key_blob_info() {
            Some((blob, metadata)) => match metadata.password_parameters() {
                Ok((salt, iv, tag)) => {
                    let derived = crypto.derive_key_from_password(
                        pw,
                        Some(salt.as_slice()),
                        AES_256_KEY_LENGTH,
                    );
                    assert(may_derive_key_from_password(
                        crypto,
                        pw@,
                        Some(salt@),
                        AES_256_KEY_LENGTH,
                        bytes_result_view(derived),
                    ));
                    let opened = match into_material(derived) {
                        Ok(key) => into_material(
                            crypto.aes_gcm_decrypt(
                                blob.as_slice(),
                                iv.as_slice(),
                                tag.as_slice(),
                                key.as_slice(),
                            ),
                        ),
                        Err(e) => Err(e),
                    };
                    assert(may_open_with_password(
                        crypto,
                        blob@,
                        salt@,
                        iv@,
                        tag@,
                        pw@,
                        material_result_view(opened),
                    ));
                    match opened {
                        Ok(key) => Ok(SuperKey::new(key, entry.id())),
                        Err(e) => Err(e),
                    }
                },
                Err(e) => Err(e),
            },
            None => Err(Error::Rc(ResponseCode::ValueCorrupted)),
        }
    }

    /// Wraps the material of a master key with a key derived from the
    /// password and a fresh salt, for the store.
    pub fn encrypt_with_password<C: Crypto>(super_key: &[u8], pw: &[u8], crypto: &C) -> (r: Result<
        (Vec<u8>, BlobMetaData),
        Error,
    >)
        ensures
            may_encrypt_with_password(crypto, super_key@, pw@, wrapped_result_view(r)),
    {
        let generated = crypto.generate_salt();
        assert(may_generate_salt(crypto, bytes_result_view(generated)));
        match generated {
            Ok(salt) => {
                let derived = crypto.derive_key_from_password(
                    pw,
                    Some(salt.as_slice()),
                    AES_256_KEY_LENGTH,
                );
                assert(may_derive_key_from_password(
                    crypto,
                    pw@,
                    Some(salt@),
                    AES_256_KEY_LENGTH,
                    bytes_result_view(derived),
                ));
                let sealed = match into_material(derived) {
                    Ok(derived_key) => crypto.aes_gcm_encrypt(super_key, derived_key.as_slice()),
                    Err(e) => Err(e),
                };
                assert(may_seal_with_password(
                    crypto,
                    super_key@,
                    pw@,
                    salt@,
                    sealed_result_view(sealed),
                ));
                match sealed {
                    Ok((encrypted_key, iv, tag)) => {
                        let metadata = BlobMetaData::password_wrap(salt, iv, tag);
                        Ok((encrypted_key, metadata))
                    },
                    Err(e) => Err(e),
                }
            },
            Err(e) => Err(e),
        }
    }

    /// Extracts the master key from an entry of the store and, where that
    /// succeeds, makes it the per-boot key of the user.
    pub fn populate_cache_from_super_key_blob<C: Crypto>(
        &mut self,
        user_id: u32,
        entry: KeyEntry,
        pw: &[u8],
        crypto: &C,
    ) -> (r: Result<SuperKey, Error>)
        ensures
            may_extract_super_key(crypto, entry@, pw@, super_key_result_view(r)),
            final(self)@ == cache_after_install(old(self)@, user_id, super_key_result_view(r)),
    {
        match Self::extract_super_key_from_key_entry(entry, pw, crypto) {
            Ok(super_key) => {
                self.install_per_boot_key_for_user(user_id, super_key.clone());
                Ok(super_key)
            },
            Err(e) => Err(e),
        }
    }
}

/// A password wrap is complete: the metadata of a master key that was
/// wrapped with a password names the password as the mechanism, and holds
/// the salt, the initialization vector and the tag.
pub proof fn lemma_password_wrap_is_complete<C: Crypto>(
    crypto: &C,
    super_key: Seq<u8>,
    pw: Seq<u8>,
    blob: Seq<u8>,
    metadata: BlobMetaDataView,
)
    requires
        may_encrypt_with_password(crypto, super_key, pw, Ok((blob, metadata))),
    ensures
        metadata.is_password_wrap(),
        metadata.is_mechanism_complete(),
        metadata.password_parameters() is Ok,
{
    let wrapped: Wrapped = Ok((blob, metadata));
    let salt_answer = choose|salt: Bytes| #[trigger]
        may_generate_salt(crypto, salt) && match salt {
            Ok(salt) => may_encrypt_with_salted_password(crypto, super_key, pw, salt, wrapped),
            Err(e) => wrapped == Err::<(Seq<u8>, BlobMetaDataView), Error>(e),
        };
    let salt = salt_answer->Ok_0;
    let sealed = choose|sealed: Sealed| #[trigger]
        may_seal_with_password(crypto, super_key, pw, salt, sealed) && wrapped
            == wrapped_with_password(sealed, salt);
    assert(sealed is Ok);
}

/// A password wrap opens under its password: with an engine whose
/// decryption inverts its encryption and whose key derivation is a
/// function, every outcome of extracting the master key from an entry that
/// holds what a password wrap returned, with the same password, is the
/// material that was wrapped.
pub proof fn lemma_password_wrap_round_trip<C: Crypto>(
    crypto: &C,
    super_key: Seq<u8>,
    pw: Seq<u8>,
    entry: KeyEntryView,
    extracted: SuperKeyAnswer,
)
    requires
        decryption_inverts_encryption(crypto),
        derivation_is_a_function(crypto),
        entry.key_blob_info matches Some((blob, metadata)) && may_encrypt_with_password(
            crypto,
            super_key,
            pw,
            Ok((blob, metadata)),
        ),
        may_extract_super_key(crypto, entry, pw, extracted),
    ensures
        extracted == Ok::<SuperKeyView, Error>(SuperKeyView { key: super_key, id: entry.id }),
{
    let (blob, metadata) = entry.key_blob_info->0;
    let wrapped: Wrapped = Ok((blob, metadata));
    let salt_answer = choose|salt: Bytes| #[trigger]
        may_generate_salt(crypto, salt) && match salt {
            Ok(salt) => may_encrypt_with_salted_password(crypto, super_key, pw, salt, wrapped),
            Err(e) => wrapped == Err::<(Seq<u8>, BlobMetaDataView), Error>(e),
        };
    let salt = salt_answer->Ok_0;
    let sealed = choose|sealed: Sealed| #[trigger]
        may_seal_with_password(crypto, super_key, pw, salt, sealed) && wrapped
            == wrapped_with_password(sealed, salt);
    let (ciphertext, iv, tag) = sealed->Ok_0;
    assert(metadata == BlobMetaDataView::password_wrap(salt, iv, tag));
    let sealing_key = choose|derived: Bytes| #[trigger]
        may_derive_key_from_password(crypto, pw, Some(salt), AES_256_KEY_LENGTH, derived)
            && match derived {
            Ok(key) => may_aes_gcm_encrypt(crypto, super_key, key, sealed),
            Err(e) => sealed == Err::<(Seq<u8>, Seq<u8>, Seq<u8>), Error>(e),
        };
    assert(may_open_super_key(crypto, blob, salt, iv, tag, entry.id, pw, extracted));
    let opened = choose|opened: Bytes| #[trigger]
        may_open_with_password(crypto, blob, salt, iv, tag, pw, opened) && extracted
            == extracted_super_key(opened, entry.id);
    let opening_key = choose|derived: Bytes| #[trigger]
        may_derive_key_from_password(crypto, pw, Some(salt), AES_256_KEY_LENGTH, derived)
            && match derived {
            Ok(key) => may_aes_gcm_decrypt(crypto, blob, iv, tag, key, opened),
            Err(e) => opened == Err::<Seq<u8>, Error>(e),
        };
    assert(sealing_key == opening_key);
    assert(may_aes_gcm_encrypt(crypto, super_key, sealing_key->Ok_0, Ok((ciphertext, iv, tag))));
    assert(may_aes_gcm_decrypt(crypto, ciphertext, iv, tag, sealing_key->Ok_0, opened));
}

/// A password that the engine does not accept unlocks nothing: where
/// every decryption of the stored blob under a key derived from the
/// password fails, every outcome of extracting the master key is a
/// failure, and an attempt to install the key leaves the cache as it was.
pub proof fn lemma_rejected_password_unlocks_nothing<C: Crypto>(
    crypto: &C,
    cache: CacheView,
    user_id: u32,
    entry: KeyEntryView,
    pw: Seq<u8>,
    extracted: SuperKeyAnswer,
)
    requires
        entry.key_blob_info matches Some((blob, metadata)) && metadata.password_parameters()
            matches Ok((salt, iv, tag)) && forall|opened: Bytes| #[trigger]
            may_open_with_password(crypto, blob, salt, iv, tag, pw, opened) ==> opened is Err,
        may_extract_super_key(crypto, entry, pw, extracted),
    ensures
        extracted is Err,
        cache_after_install(cache, user_id, extracted) == cache,
{
}

} // verus!
