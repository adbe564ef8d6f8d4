//! Wrapping and unwrapping of ordinary keys with a master key, and the
//! protection of a key's payload across an upgrade.

use vstd::prelude::*;
use std::ops::Deref;
use crate::crypto::{
    bytes_result_view, decryption_inverts_encryption, into_material, material_result_view,
    may_aes_gcm_decrypt, may_aes_gcm_encrypt, sealed_result_view, Bytes, Crypto, Sealed,
};
use crate::database::{BlobMetaData, BlobMetaDataView};
use crate::error::{Error, ResponseCode};
use crate::key_material::KeyMaterial;
use crate::super_key::{CacheView, SuperKey, SuperKeyManager, SuperKeyView};

verus! {

/// A key payload in the course of one operation, with respect to wrapping.
pub enum KeyBlob<'a> {
    /// Plaintext material, and the master key that wraps it at rest.
    Sensitive(KeyMaterial, SuperKey),
    /// Owned bytes that need no protection in memory: the material of a
    /// key that is never wrapped, or a blob that is wrapped already.
    NonSensitive(Vec<u8>),
    /// Borrowed bytes that need no change.
    Ref(&'a [u8]),
}

/// The mathematical value of a `KeyBlob`.
pub enum KeyBlobView {
    Sensitive(Seq<u8>, SuperKeyView),
    NonSensitive(Seq<u8>),
    Ref(Seq<u8>),
}

impl KeyBlobView {
    /// The key material, whatever the variant.
    pub open spec fn material(self) -> Seq<u8> {
        match self {
            KeyBlobView::Sensitive(material, _) => material,
            KeyBlobView::NonSensitive(material) => material,
            KeyBlobView::Ref(material) => material,
        }
    }
}

impl<'a> View for KeyBlob<'a> {
    type V = KeyBlobView;

    open spec fn view(&self) -> KeyBlobView {
        match self {
            KeyBlob::Sensitive(material, super_key) => KeyBlobView::Sensitive(
                material@,
                super_key@,
            ),
            KeyBlob::NonSensitive(material) => KeyBlobView::NonSensitive(material@),
            KeyBlob::Ref(material) => KeyBlobView::Ref(material@),
        }
    }
}

/// Dereferencing gives the key material of any variant.
impl<'a> Deref for KeyBlob<'a> {
    type Target = [u8];

    fn deref(&self) -> (material: &[u8])
        ensures
            material@ == self@.material(),
    {
        match self {
            KeyBlob::Sensitive(key, _) => key.as_slice(),
            KeyBlob::NonSensitive(key) => key.as_slice(),
            KeyBlob::Ref(key) => key,
        }
    }
}

/// A wrapped blob with its metadata, or the failure to wrap.
pub type Wrapped = Result<(Seq<u8>, BlobMetaDataView), Error>;

/// An unwrapped key payload, or the failure to unwrap.
pub type Unwrapped = Result<KeyBlobView, Error>;

/// A key payload after an upgrade, with new metadata where it was wrapped
/// again, or the failure to wrap it.
pub type Reencrypted = Result<(KeyBlobView, Option<BlobMetaDataView>), Error>;

/// The view of a wrapped blob that a function returned.
pub open spec fn wrapped_result_view(r: Result<(Vec<u8>, BlobMetaData), Error>) -> Wrapped {
    match r {
        Ok((blob, metadata)) => Ok((blob@, metadata@)),
        Err(e) => Err(e),
    }
}

/// The view of a key payload that a function returned.
pub open spec fn key_blob_result_view(r: Result<KeyBlob<'_>, Error>) -> Unwrapped {
    match r {
        Ok(key_blob) => Ok(key_blob@),
        Err(e) => Err(e),
    }
}

/// The view of what the re-encryption after an upgrade returned.
pub open spec fn reencrypted_result_view(
    r: Result<(KeyBlob<'_>, Option<BlobMetaData>), Error>,
) -> Reencrypted {
    match r {
        Ok((key_blob, Some(metadata))) => Ok((key_blob@, Some(metadata@))),
        Ok((key_blob, None)) => Ok((key_blob@, None)),
        Err(e) => Err(e),
    }
}

/// What wrapping gives for each answer of the engine: the ciphertext with
/// metadata that names the master key and carries the initialization
/// vector and the tag of the encryption.
pub open spec fn wrapped_with_super_key(sealed: Sealed, key_id: i64) -> Wrapped {
    match sealed {
        Ok((ciphertext, iv, tag)) => Ok(
            (ciphertext, BlobMetaDataView::super_key_wrap(iv, tag, key_id)),
        ),
        Err(e) => Err(e),
    }
}

/// `answer` is a possible outcome of wrapping `key_blob` with `super_key`:
/// the engine was asked once, to encrypt `key_blob` under the material of
/// the key.
pub open spec fn may_encrypt_with_super_key<C: Crypto>(
    crypto: &C,
    key_blob: Seq<u8>,
    super_key: SuperKeyView,
    answer: Wrapped,
) -> bool {
    exists|sealed: Sealed| #[trigger]
        may_aes_gcm_encrypt(crypto, key_blob, super_key.key, sealed) && answer
            == wrapped_with_super_key(sealed, super_key.id)
}

/// `answer` is a possible outcome of unwrapping `blob` with the key
/// material `key`: incomplete metadata is corrupted; otherwise the engine
/// was asked once, to decrypt `blob` with the initialization vector and
/// the tag of the metadata.
pub open spec fn may_unwrap_key_with_key<C: Crypto>(
    crypto: &C,
    blob: Seq<u8>,
    metadata: BlobMetaDataView,
    key: Seq<u8>,
    answer: Bytes,
) -> bool {
    match metadata.aead_parameters() {
        Ok((iv, tag)) => may_aes_gcm_decrypt(crypto, blob, iv, tag, key, answer),
        Err(e) => answer == Err::<Seq<u8>, Error>(e),
    }
}

/// What unwrapping gives for each outcome of the decryption.
pub open spec fn unwrapped_with_super_key(opened: Bytes, super_key: SuperKeyView) -> Unwrapped {
    match opened {
        Ok(material) => Ok(KeyBlobView::Sensitive(material, super_key)),
        Err(e) => Err(e),
    }
}

/// `answer` is a possible outcome of unwrapping `blob` with the master
/// key `super_key`: the material that the decryption gives is sensitive,
/// and stays with the key that wraps it.
pub open spec fn may_unwrap_with_super_key<C: Crypto>(
    crypto: &C,
    blob: Seq<u8>,
    metadata: BlobMetaDataView,
    super_key: SuperKeyView,
    answer: Unwrapped,
) -> bool {
    exists|opened: Bytes| #[trigger]
        may_unwrap_key_with_key(crypto, blob, metadata, super_key.key, opened) && answer
            == unwrapped_with_super_key(opened, super_key)
}

/// `answer` is a possible outcome of unwrapping `blob` by its metadata:
/// metadata that names no master key is corrupted; a master key that the
/// cache does not resolve means locked; otherwise the blob is unwrapped
/// with the resolved key.
pub open spec fn may_unwrap_key<C: Crypto>(
    crypto: &C,
    cache: CacheView,
    blob: Seq<u8>,
    metadata: BlobMetaDataView,
    answer: Unwrapped,
) -> bool {
    match metadata.super_key_id() {
        Some(key_id) => match cache.resolve(key_id) {
            Some(key) => may_unwrap_with_super_key(
                crypto,
                blob,
                metadata,
                SuperKeyView { key, id: key_id },
                answer,
            ),
            None => answer == Err::<KeyBlobView, Error>(Error::Rc(ResponseCode::Locked)),
        },
        None => answer == Err::<KeyBlobView, Error>(Error::Rc(ResponseCode::ValueCorrupted)),
    }
}

/// `answer` is a possible outcome of unwrapping `key_blob` where its
/// metadata asks for it: a blob whose metadata names no master key is
/// handed back as it is.
pub open spec fn may_unwrap_key_if_required<C: Crypto>(
    crypto: &C,
    cache: CacheView,
    metadata: BlobMetaDataView,
    key_blob: Seq<u8>,
    answer: Unwrapped,
) -> bool {
    if metadata.names_super_key() {
        may_unwrap_key(crypto, cache, key_blob, metadata, answer)
    } else {
        answer == Ok::<KeyBlobView, Error>(KeyBlobView::Ref(key_blob))
    }
}

/// What the re-encryption gives for each outcome of the wrapping.
pub open spec fn reencrypted_with_super_key(wrapped: Wrapped) -> Reencrypted {
    match wrapped {
        Ok((blob, metadata)) => Ok((KeyBlobView::NonSensitive(blob), Some(metadata))),
        Err(e) => Err(e),
    }
}

/// `answer` is a possible outcome of wrapping the payload of an upgraded
/// key with the master key that had unwrapped the payload before.
pub open spec fn may_reencrypt_with_super_key<C: Crypto>(
    crypto: &C,
    key_after_upgrade: Seq<u8>,
    super_key: SuperKeyView,
    answer: Reencrypted,
) -> bool {
    exists|wrapped: Wrapped| #[trigger]
        may_encrypt_with_super_key(crypto, key_after_upgrade, super_key, wrapped) && answer
            == reencrypted_with_super_key(wrapped)
}

/// `answer` is a possible outcome of protecting the payload of an upgraded
/// key as the key was protected before: a payload that had been unwrapped
/// with a master key is wrapped with that same key; any other is handed
/// back as it is, without metadata.
pub open spec fn may_reencrypt_on_upgrade<C: Crypto>(
    crypto: &C,
    key_blob_before_upgrade: KeyBlobView,
    key_after_upgrade: Seq<u8>,
    answer: Reencrypted,
) -> bool {
    match key_blob_before_upgrade {
        KeyBlobView::Sensitive(_, super_key) => may_reencrypt_with_super_key(
            crypto,
            key_after_upgrade,
            super_key,
            answer,
        ),
        _ => answer == Ok::<(KeyBlobView, Option<BlobMetaDataView>), Error>(
            (KeyBlobView::Ref(key_after_upgrade), None),
        ),
    }
}

impl SuperKeyManager {
    /// Unwraps a blob with the given key material. The metadata must hold
    /// the initialization vector and the tag.
    pub fn unwrap_key_with_key<C: Crypto>(
        blob: &[u8],
        metadata: &BlobMetaData,
        key: &[u8],
        crypto: &C,
    ) -> (r: Result<KeyMaterial, Error>)
        ensures
            may_unwrap_key_with_key(crypto, blob@, metadata@, key@, material_result_view(r)),
    {
        match metadata.aead_parameters() {
            Ok((iv, tag)) => {
                let opened = crypto.aes_gcm_decrypt(blob, iv.as_slice(), tag.as_slice(), key);
                assert(may_aes_gcm_decrypt(
                    crypto,
                    blob@,
                    iv@,
                    tag@,
                    key@,
                    bytes_result_view(opened),
                ));
                into_material(opened)
            },
            Err(e) => Err(e),
        }
    }

    /// Unwraps a blob whose metadata names the master key that wrapped it.
    /// The key must be in the cache.
    pub fn unwrap_key<'a, C: Crypto>(
        &self,
        blob: &'a [u8],
        metadata: &BlobMetaData,
        crypto: &C,
    ) -> (r: Result<KeyBlob<'a>, Error>)
        ensures
            may_unwrap_key(crypto, self@, blob@, metadata@, key_blob_result_view(r)),
    {
        match metadata.super_key_id() {
            Some(key_id) => match self.get_key(&key_id) {
                Some(key) => {
                    let opened = Self::unwrap_key_with_key(blob, metadata, key.as_slice(), crypto);
                    match opened {
                        Ok(material) => Ok(KeyBlob::Sensitive(material, SuperKey::new(key, key_id))),
                        Err(e) => Err(e),
                    }
                },
                None => Err(Error::Rc(ResponseCode::Locked)),
            },
            None => Err(Error::Rc(ResponseCode::ValueCorrupted)),
        }
    }

    /// Wraps a blob with the given master key. The metadata names the key
    /// and carries the initialization vector and the tag.
    pub fn encrypt_with_super_key<C: Crypto>(
        key_blob: &[u8],
        super_key: &SuperKey,
        crypto: &C,
    ) -> (r: Result<(Vec<u8>, BlobMetaData), Error>)
        ensures
            may_encrypt_with_super_key(crypto, key_blob@, super_key@, wrapped_result_view(r)),
    {
        let sealed = crypto.aes_gcm_encrypt(key_blob, super_key.get_key().as_slice());
        assert(may_aes_gcm_encrypt(
            crypto,
            key_blob@,
            super_key@.key,
            sealed_result_view(sealed),
        ));
        match sealed {
            Ok((encrypted_key, iv, tag)) => {
                let metadata = BlobMetaData::super_key_wrap(iv, tag, super_key.get_id());
                Ok((encrypted_key, metadata))
            },
            Err(e) => Err(e),
        }
    }

    /// Unwraps the blob if its metadata names a master key; hands it back
    /// as it is otherwise.
    pub fn unwrap_key_if_required<'a, C: Crypto>(
        &self,
        metadata: &BlobMetaData,
        key_blob: &'a [u8],
        crypto: &C,
    ) -> (r: Result<KeyBlob<'a>, Error>)
        ensures
            may_unwrap_key_if_required(
                crypto,
                self@,
                metadata@,
                key_blob@,
                key_blob_result_view(r),
            ),
    {
        if Self::key_super_encrypted(metadata) {
            self.unwrap_key(key_blob, metadata, crypto)
        } else {
            Ok(KeyBlob::Ref(key_blob))
        }
    }

    /// Protects the payload of an upgraded key as the key was protected
    /// before the upgrade: where the old payload had been unwrapped with a
    /// master key, the new one is wrapped with that same key and comes with
    /// new metadata.
    pub fn reencrypt_on_upgrade_if_required<'a, C: Crypto>(
        key_blob_before_upgrade: &KeyBlob,
        key_after_upgrade: &'a [u8],
        crypto: &C,
    ) -> (r: Result<(KeyBlob<'a>, Option<BlobMetaData>), Error>)
        ensures
            may_reencrypt_on_upgrade(
                crypto,
                key_blob_before_upgrade@,
                key_after_upgrade@,
                reencrypted_result_view(r),
            ),
    {
        match key_blob_before_upgrade {
            KeyBlob::Sensitive(_, super_key) => {
                let wrapped = Self::encrypt_with_super_key(key_after_upgrade, super_key, crypto);
                match wrapped {
                    Ok((key, metadata)) => Ok((KeyBlob::NonSensitive(key), Some(metadata))),
                    Err(e) => Err(e),
                }
            },
            _ => Ok((KeyBlob::Ref(key_after_upgrade), None)),
        }
    }

    /// Whether the metadata names a master key as the wrapping mechanism.
    pub fn key_super_encrypted(metadata: &BlobMetaData) -> (b: bool)
        ensures
            b == metadata@.names_super_key(),
    {
        metadata.super_key_id().is_some()
    }
}

/// A wrap names its key: the metadata of a blob that was wrapped with a
/// master key is a complete master-key wrap, and names that key.
pub proof fn lemma_wrap_names_its_key<C: Crypto>(
    crypto: &C,
    key_blob: Seq<u8>,
    super_key: SuperKeyView,
    blob: Seq<u8>,
    metadata: BlobMetaDataView,
)
    requires
        may_encrypt_with_super_key(crypto, key_blob, super_key, Ok((blob, metadata))),
    ensures
        metadata.is_super_key_wrap(),
        metadata.is_mechanism_complete(),
        metadata.super_key_id() == Some(super_key.id),
        metadata.salt is None,
{
    let sealed = choose|sealed: Sealed| #[trigger]
        may_aes_gcm_encrypt(crypto, key_blob, super_key.key, sealed) && Ok::<
            (Seq<u8>, BlobMetaDataView),
            Error,
        >((blob, metadata)) == wrapped_with_super_key(sealed, super_key.id);
    assert(sealed is Ok);
}

/// Unwrapping inverts wrapping: with an engine whose decryption inverts
/// its encryption, and a master key that the cache resolves, every outcome
/// of unwrapping what a wrap returned is the payload that was wrapped,
/// together with the key.
pub proof fn lemma_unwrap_inverts_wrap<C: Crypto>(
    crypto: &C,
    cache: CacheView,
    super_key: SuperKeyView,
    payload: Seq<u8>,
    blob: Seq<u8>,
    metadata: BlobMetaDataView,
    unwrapped: Unwrapped,
)
    requires
        decryption_inverts_encryption(crypto),
        cache.resolve(super_key.id) == Some(super_key.key),
        may_encrypt_with_super_key(crypto, payload, super_key, Ok((blob, metadata))),
        may_unwrap_key(crypto, cache, blob, metadata, unwrapped),
    ensures
        unwrapped == Ok::<KeyBlobView, Error>(KeyBlobView::Sensitive(payload, super_key)),
{
    let sealed = choose|sealed: Sealed| #[trigger]
        may_aes_gcm_encrypt(crypto, payload, super_key.key, sealed) && Ok::<
            (Seq<u8>, BlobMetaDataView),
            Error,
        >((blob, metadata)) == wrapped_with_super_key(sealed, super_key.id);
    let (ciphertext, iv, tag) = sealed->Ok_0;
    assert(metadata == BlobMetaDataView::super_key_wrap(iv, tag, super_key.id));
    assert(may_unwrap_with_super_key(crypto, blob, metadata, super_key, unwrapped));
    let opened = choose|opened: Bytes| #[trigger]
        may_unwrap_key_with_key(crypto, blob, metadata, super_key.key, opened) && unwrapped
            == unwrapped_with_super_key(opened, super_key);
    assert(may_aes_gcm_decrypt(crypto, ciphertext, iv, tag, super_key.key, opened));
}

/// An upgrade keeps the wrapping key: where the payload before the
/// upgrade had been unwrapped with a master key, the new payload comes
/// back wrapped, with complete metadata that names that same key.
pub proof fn lemma_upgrade_keeps_super_key<C: Crypto>(
    crypto: &C,
    plain: Seq<u8>,
    super_key: SuperKeyView,
    key_after_upgrade: Seq<u8>,
    blob: KeyBlobView,
    metadata: Option<BlobMetaDataView>,
)
    requires
        may_reencrypt_on_upgrade(
            crypto,
            KeyBlobView::Sensitive(plain, super_key),
            key_after_upgrade,
            Ok((blob, metadata)),
        ),
    ensures
        blob is NonSensitive,
        metadata is Some,
        metadata->0.is_super_key_wrap(),
        metadata->0.super_key_id() == Some(super_key.id),
        may_encrypt_with_super_key(
            crypto,
            key_after_upgrade,
            super_key,
            Ok((blob.material(), metadata->0)),
        ),
{
    let wrapped = choose|wrapped: Wrapped| #[trigger]
        may_encrypt_with_super_key(crypto, key_after_upgrade, super_key, wrapped) && Ok::<
            (KeyBlobView, Option<BlobMetaDataView>),
            Error,
        >((blob, metadata)) == reencrypted_with_super_key(wrapped);
    let sealed = choose|sealed: Sealed| #[trigger]
        may_aes_gcm_encrypt(crypto, key_after_upgrade, super_key.key, sealed) && wrapped
            == wrapped_with_super_key(sealed, super_key.id);
    assert(sealed is Ok);
}

/// An upgrade preserves sensitivity: with an engine whose decryption
/// inverts its encryption, and while the cache resolves the master key
/// that had unwrapped the payload before the upgrade, every outcome of
/// unwrapping what the re-encryption returned is the new payload, together
/// with that key.
pub proof fn lemma_upgrade_preserves_sensitivity<C: Crypto>(
    crypto: &C,
    cache: CacheView,
    plain: Seq<u8>,
    super_key: SuperKeyView,
    key_after_upgrade: Seq<u8>,
    blob: KeyBlobView,
    metadata: BlobMetaDataView,
    unwrapped: Unwrapped,
)
    requires
        decryption_inverts_encryption(crypto),
        cache.resolve(super_key.id) == Some(super_key.key),
        may_reencrypt_on_upgrade(
            crypto,
            KeyBlobView::Sensitive(plain, super_key),
            key_after_upgrade,
            Ok((blob, Some(metadata))),
        ),
        may_unwrap_key(crypto, cache, blob.material(), metadata, unwrapped),
    ensures
        unwrapped == Ok::<KeyBlobView, Error>(
            KeyBlobView::Sensitive(key_after_upgrade, super_key),
        ),
{
    lemma_upgrade_keeps_super_key(
        crypto,
        plain,
        super_key,
        key_after_upgrade,
        blob,
        Some(metadata),
    );
    lemma_unwrap_inverts_wrap(
        crypto,
        cache,
        super_key,
        key_after_upgrade,
        blob.material(),
        metadata,
        unwrapped,
    );
}

} // verus!
