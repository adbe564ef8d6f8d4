//! What the key hierarchy reads and writes in the persistent store: the
//! wrap metadata of a blob, a stored key entry, and the store's interface.

use vstd::prelude::*;
use crate::error::{Error, ResponseCode};

verus! {

/// The namespaces in which a key can be addressed.
#[derive(Clone, Copy, Debug, PartialEq, Eq, Structural)]
pub enum Domain {
    App,
    Grant,
    Selinux,
    Blob,
    KeyId,
}

/// The kinds of key entries in the store.
#[derive(Clone, Copy, Debug, PartialEq, Eq, Structural)]
pub enum KeyType {
    /// A key of a client.
    Client,
    /// A master key of a user.
    Super,
}

/// The alias under which the master key of a user is stored.
pub const USER_SUPER_KEY_ALIAS: &'static str = "USER_SUPER_KEY";

/// The mechanism that wrapped a blob.
#[derive(Clone, Copy, Debug, PartialEq, Eq, Structural)]
pub enum EncryptedBy {
    /// A key derived from the user's password.
    Password,
    /// The master key with this persistent identifier.
    KeyId(i64),
}

/// One field of the wrap metadata.
#[derive(Debug)]
pub enum BlobMetaEntry {
    EncryptedBy(EncryptedBy),
    Salt(Vec<u8>),
    Iv(Vec<u8>),
    AeadTag(Vec<u8>),
}

/// The mathematical value of a `BlobMetaEntry`.
pub enum BlobMetaEntryView {
    EncryptedBy(EncryptedBy),
    Salt(Seq<u8>),
    Iv(Seq<u8>),
    AeadTag(Seq<u8>),
}

impl View for BlobMetaEntry {
    type V = BlobMetaEntryView;

    open spec fn view(&self) -> BlobMetaEntryView {
        match self {
            BlobMetaEntry::EncryptedBy(e) => BlobMetaEntryView::EncryptedBy(*e),
            BlobMetaEntry::Salt(s) => BlobMetaEntryView::Salt(s@),
            BlobMetaEntry::Iv(iv) => BlobMetaEntryView::Iv(iv@),
            BlobMetaEntry::AeadTag(tag) => BlobMetaEntryView::AeadTag(tag@),
        }
    }
}

impl Clone for BlobMetaEntry {
    fn clone(&self) -> (copy: Self)
        ensures
            copy@ == self@,
    {
        match self {
            BlobMetaEntry::EncryptedBy(e) => BlobMetaEntry::EncryptedBy(*e),
            BlobMetaEntry::Salt(s) => BlobMetaEntry::Salt(s.clone()),
            BlobMetaEntry::Iv(iv) => BlobMetaEntry::Iv(iv.clone()),
            BlobMetaEntry::AeadTag(tag) => BlobMetaEntry::AeadTag(tag.clone()),
        }
    }
}

/// The wrap metadata of a blob: which mechanism wrapped it, and the salt,
/// initialization vector and authentication tag as far as they are present.
#[derive(Debug)]
pub struct BlobMetaData {
    encrypted_by: Option<EncryptedBy>,
    salt: Option<Vec<u8>>,
    iv: Option<Vec<u8>>,
    aead_tag: Option<Vec<u8>>,
}

/// The mathematical value of a `BlobMetaData`.
pub struct BlobMetaDataView {
    pub encrypted_by: Option<EncryptedBy>,
    pub salt: Option<Seq<u8>>,
    pub iv: Option<Seq<u8>>,
    pub aead_tag: Option<Seq<u8>>,
}

/// The view of an optional byte vector.
pub open spec fn bytes_view(bytes: Option<Vec<u8>>) -> Option<Seq<u8>> {
    match bytes {
        Some(b) => Some(b@),
        None => None,
    }
}

/// The view of an optional borrowed byte vector.
pub open spec fn borrowed_bytes_view(bytes: Option<&Vec<u8>>) -> Option<Seq<u8>> {
    match bytes {
        Some(b) => Some(b@),
        None => None,
    }
}

impl BlobMetaDataView {
    /// Metadata without any field: that of a blob that is not wrapped.
    pub open spec fn empty() -> BlobMetaDataView {
        BlobMetaDataView { encrypted_by: None, salt: None, iv: None, aead_tag: None }
    }

    /// The metadata with one field set, replacing what that field held.
    pub open spec fn with(self, entry: BlobMetaEntryView) -> BlobMetaDataView {
        match entry {
            BlobMetaEntryView::EncryptedBy(e) => BlobMetaDataView { encrypted_by: Some(e), ..self },
            BlobMetaEntryView::Salt(s) => BlobMetaDataView { salt: Some(s), ..self },
            BlobMetaEntryView::Iv(iv) => BlobMetaDataView { iv: Some(iv), ..self },
            BlobMetaEntryView::AeadTag(tag) => BlobMetaDataView { aead_tag: Some(tag), ..self },
        }
    }

    /// The metadata of a blob wrapped with a key derived from a password.
    pub open spec fn password_wrap(salt: Seq<u8>, iv: Seq<u8>, tag: Seq<u8>) -> BlobMetaDataView {
        BlobMetaDataView {
            encrypted_by: Some(EncryptedBy::Password),
            salt: Some(salt),
            iv: Some(iv),
            aead_tag: Some(tag),
        }
    }

    /// The metadata of a blob wrapped with the master key `key_id`.
    pub open spec fn super_key_wrap(iv: Seq<u8>, tag: Seq<u8>, key_id: i64) -> BlobMetaDataView {
        BlobMetaDataView {
            encrypted_by: Some(EncryptedBy::KeyId(key_id)),
            salt: None,
            iv: Some(iv),
            aead_tag: Some(tag),
        }
    }

    /// Salt, initialization vector and tag of a complete password wrap;
    /// anything else is corrupted.
    pub open spec fn password_parameters(self) -> Result<(Seq<u8>, Seq<u8>, Seq<u8>), Error> {
        if self.is_password_wrap() {
            Ok((self.salt->0, self.iv->0, self.aead_tag->0))
        } else {
            Err(Error::Rc(ResponseCode::ValueCorrupted))
        }
    }

    /// Initialization vector and tag, where both are present; metadata
    /// that lacks one of them is corrupted.
    pub open spec fn aead_parameters(self) -> Result<(Seq<u8>, Seq<u8>), Error> {
        if self.iv is Some && self.aead_tag is Some {
            Ok((self.iv->0, self.aead_tag->0))
        } else {
            Err(Error::Rc(ResponseCode::ValueCorrupted))
        }
    }

    /// The identifier of the master key that the metadata names, if it
    /// names one.
    pub open spec fn super_key_id(self) -> Option<i64> {
        match self.encrypted_by {
            Some(EncryptedBy::KeyId(key_id)) => Some(key_id),
            _ => None,
        }
    }

    /// A complete password wrap: the mechanism is the password, and salt,
    /// initialization vector and tag are all present.
    pub open spec fn is_password_wrap(self) -> bool {
        &&& self.encrypted_by == Some(EncryptedBy::Password)
        &&& self.salt is Some
        &&& self.iv is Some
        &&& self.aead_tag is Some
    }

    /// A complete master-key wrap: the mechanism names a master key, and
    /// initialization vector and tag are both present.
    pub open spec fn is_super_key_wrap(self) -> bool {
        &&& self.encrypted_by matches Some(EncryptedBy::KeyId(_))
        &&& self.iv is Some
        &&& self.aead_tag is Some
    }

    /// Whether the metadata names a master key as the wrapping mechanism.
    pub open spec fn names_super_key(self) -> bool {
        self.encrypted_by matches Some(EncryptedBy::KeyId(_))
    }

    /// Mechanism-completeness: the fields that the named mechanism needs
    /// are all present.
    pub open spec fn is_mechanism_complete(self) -> bool {
        match self.encrypted_by {
            Some(EncryptedBy::Password) => self.is_password_wrap(),
            Some(EncryptedBy::KeyId(_)) => self.is_super_key_wrap(),
            None => true,
        }
    }
}

impl View for BlobMetaData {
    type V = BlobMetaDataView;

    closed spec fn view(&self) -> BlobMetaDataView {
        BlobMetaDataView {
            encrypted_by: self.encrypted_by,
            salt: bytes_view(self.salt),
            iv: bytes_view(self.iv),
            aead_tag: bytes_view(self.aead_tag),
        }
    }
}

/// A copy of optional bytes.
fn clone_bytes(bytes: &Option<Vec<u8>>) -> (copy: Option<Vec<u8>>)
    ensures
        bytes_view(copy) == bytes_view(*bytes),
{
    match bytes {
        Some(b) => Some(b.clone()),
        None => None,
    }
}

impl Clone for BlobMetaData {
    fn clone(&self) -> (copy: Self)
        ensures
            copy@ == self@,
    {
        BlobMetaData {
            encrypted_by: self.encrypted_by,
            salt: clone_bytes(&self.salt),
            iv: clone_bytes(&self.iv),
            aead_tag: clone_bytes(&self.aead_tag),
        }
    }
}

impl BlobMetaData {
    /// Metadata without any field.
    pub fn new() -> (metadata: Self)
        ensures
            metadata@ == BlobMetaDataView::empty(),
    {
        BlobMetaData { encrypted_by: None, salt: None, iv: None, aead_tag: None }
    }

    /// Sets one field, replacing what it held.
    pub fn add(&mut self, entry: BlobMetaEntry)
        ensures
            final(self)@ == old(self)@.with(entry@),
    {
        match entry {
            BlobMetaEntry::EncryptedBy(e) => {
                self.encrypted_by = Some(e);
            },
            BlobMetaEntry::Salt(s) => {
                self.salt = Some(s);
            },
            BlobMetaEntry::Iv(iv) => {
                self.iv = Some(iv);
            },
            BlobMetaEntry::AeadTag(tag) => {
                self.aead_tag = Some(tag);
            },
        }
    }

    /// The metadata of a blob wrapped with a key derived from a password.
    pub fn password_wrap(salt: Vec<u8>, iv: Vec<u8>, tag: Vec<u8>) -> (metadata: Self)
        ensures
            metadata@ == BlobMetaDataView::password_wrap(salt@, iv@, tag@),
    {
        let mut metadata = BlobMetaData::new();
        metadata.add(BlobMetaEntry::EncryptedBy(EncryptedBy::Password));
        metadata.add(BlobMetaEntry::Salt(salt));
        metadata.add(BlobMetaEntry::Iv(iv));
        metadata.add(BlobMetaEntry::AeadTag(tag));
        metadata
    }

    /// The metadata of a blob wrapped with the master key `key_id`.
    pub fn super_key_wrap(iv: Vec<u8>, tag: Vec<u8>, key_id: i64) -> (metadata: Self)
        ensures
            metadata@ == BlobMetaDataView::super_key_wrap(iv@, tag@, key_id),
    {
        let mut metadata = BlobMetaData::new();
        metadata.add(BlobMetaEntry::Iv(iv));
        metadata.add(BlobMetaEntry::AeadTag(tag));
        metadata.add(BlobMetaEntry::EncryptedBy(EncryptedBy::KeyId(key_id)));
        metadata
    }

    /// Salt, initialization vector and tag of a complete password wrap.
    /// Metadata that names another mechanism, or lacks one of the three, is
    /// corrupted.
    pub fn password_parameters(&self) -> (r: Result<(&Vec<u8>, &Vec<u8>, &Vec<u8>), Error>)
        ensures
            match self@.password_parameters() {
                Ok((salt, iv, tag)) => r matches Ok((s, i, t)) && s@ == salt && i@ == iv && t@
                    == tag,
                Err(e) => r matches Err(f) && f == e,
            },
    {
        match (self.encrypted_by(), self.salt(), self.iv(), self.aead_tag()) {
            (Some(EncryptedBy::Password), Some(salt), Some(iv), Some(tag)) => Ok((salt, iv, tag)),
            _ => Err(Error::Rc(ResponseCode::ValueCorrupted)),
        }
    }

    /// Initialization vector and tag, where both are present. Metadata
    /// that lacks one of them is corrupted.
    pub fn aead_parameters(&self) -> (r: Result<(&Vec<u8>, &Vec<u8>), Error>)
        ensures
            match self@.aead_parameters() {
                Ok((iv, tag)) => r matches Ok((i, t)) && i@ == iv && t@ == tag,
                Err(e) => r matches Err(f) && f == e,
            },
    {
        match (self.iv(), self.aead_tag()) {
            (Some(iv), Some(tag)) => Ok((iv, tag)),
            _ => Err(Error::Rc(ResponseCode::ValueCorrupted)),
        }
    }

    /// The identifier of the master key that the metadata names, if it
    /// names one.
    pub fn super_key_id(&self) -> (key_id: Option<i64>)
        ensures
            key_id == self@.super_key_id(),
    {
        match self.encrypted_by() {
            Some(EncryptedBy::KeyId(key_id)) => Some(*key_id),
            _ => None,
        }
    }

    /// The mechanism that wrapped the blob, if the metadata names one.
    pub fn encrypted_by(&self) -> (e: Option<&EncryptedBy>)
        ensures
            e matches Some(by) ==> self@.encrypted_by == Some(*by),
            e is None ==> self@.encrypted_by is None,
    {
        self.encrypted_by.as_ref()
    }

    /// The salt of the key derivation, if present.
    pub fn salt(&self) -> (s: Option<&Vec<u8>>)
        ensures
            borrowed_bytes_view(s) == self@.salt,
    {
        self.salt.as_ref()
    }

    /// The initialization vector, if present.
    pub fn iv(&self) -> (iv: Option<&Vec<u8>>)
        ensures
            borrowed_bytes_view(iv) == self@.iv,
    {
        self.iv.as_ref()
    }

    /// The authentication tag, if present.
    pub fn aead_tag(&self) -> (tag: Option<&Vec<u8>>)
        ensures
            borrowed_bytes_view(tag) == self@.aead_tag,
    {
        self.aead_tag.as_ref()
    }
}

/// A key entry as the store hands it out: its persistent identifier and,
/// where the entry holds one, the blob with its wrap metadata.
#[derive(Debug)]
pub struct KeyEntry {
    id: i64,
    key_blob_info: Option<(Vec<u8>, BlobMetaData)>,
}

/// The mathematical value of a `KeyEntry`.
pub struct KeyEntryView {
    pub id: i64,
    pub key_blob_info: Option<(Seq<u8>, BlobMetaDataView)>,
}

impl View for KeyEntry {
    type V = KeyEntryView;

    closed spec fn view(&self) -> KeyEntryView {
        KeyEntryView {
            id: self.id,
            key_blob_info: match self.key_blob_info {
                Some((blob, metadata)) => Some((blob@, metadata@)),
                None => None,
            },
        }
    }
}

impl Clone for KeyEntry {
    fn clone(&self) -> (copy: Self)
        ensures
            copy@ == self@,
    {
        KeyEntry {
            id: self.id,
            key_blob_info: match &self.key_blob_info {
                Some((blob, metadata)) => Some((blob.clone(), metadata.clone())),
                None => None,
            },
        }
    }
}

impl KeyEntry {
    /// An entry with the given identifier and blob.
    pub fn new(id: i64, key_blob_info: Option<(Vec<u8>, BlobMetaData)>) -> (entry: Self)
        ensures
            entry@.id == id,
            entry@.key_blob_info == match key_blob_info {
                Some((blob, metadata)) => Some((blob@, metadata@)),
                None => None,
            },
    {
        KeyEntry { id, key_blob_info }
    }

    /// The persistent identifier of the entry.
    pub fn id(&self) -> (id: i64)
        ensures
            id == self@.id,
    {
        self.id
    }

    /// The blob of the entry and its wrap metadata, if the entry holds one.
    pub fn key_blob_info(&self) -> (info: &Option<(Vec<u8>, BlobMetaData)>)
        ensures
            self@.key_blob_info == match *info {
                Some((blob, metadata)) => Some((blob@, metadata@)),
                None => None,
            },
    {
        &self.key_blob_info
    }
}

/// What makes the blob of a new key, with its wrap metadata, for a store
/// that holds none under the alias that it was asked for.
pub trait KeyFactory {
    /// Makes the blob. The store calls this at most once.
    fn create_new_key(self) -> Result<(Vec<u8>, BlobMetaData), Error>;
}

/// The persistent store of key entries, as far as the key hierarchy uses
/// it. The store serialises access itself, so every method takes it
/// shared. Every method may fail, and the store decides what it returns.
pub trait KeystoreDB {
    /// Loads the entry under `alias` in the given namespace; where there is
    /// none, stores the blob that `create_new_key` makes and returns the new
    /// entry.
    fn get_or_create_key_with<F: KeyFactory>(
        &self,
        domain: Domain,
        namespace: i64,
        alias: &str,
        create_new_key: F,
    ) -> Result<KeyEntry, Error>;

    /// Whether an entry of the given type exists under `alias`.
    fn key_exists(
        &self,
        domain: Domain,
        namespace: i64,
        alias: &str,
        key_type: KeyType,
    ) -> Result<bool, Error>;

    /// Loads the master key entry of the user, if there is one.
    fn load_super_key(&self, user_id: u32) -> Result<Option<KeyEntry>, Error>;

    /// Stores a wrapped master key for the user and returns its entry.
    fn store_super_key(
        &self,
        user_id: u32,
        blob: &[u8],
        metadata: &BlobMetaData,
    ) -> Result<KeyEntry, Error>;

    /// Marks the keys of the user as deleted; with
    /// `keep_non_super_encrypted_keys` only the master key and the keys
    /// wrapped by it.
    fn unbind_keys_for_user(
        &self,
        user_id: u32,
        keep_non_super_encrypted_keys: bool,
    ) -> Result<(), Error>;
}

/// A key entry, or the failure to produce one.
pub type Entry = Result<KeyEntryView, Error>;

/// A key entry where there is one, or the failure to look for it.
pub type FoundEntry = Result<Option<KeyEntryView>, Error>;

/// The view of an entry that a store returned.
pub open spec fn entry_result_view(r: Result<KeyEntry, Error>) -> Entry {
    match r {
        Ok(entry) => Ok(entry@),
        Err(e) => Err(e),
    }
}

/// The view of what a lookup in a store returned.
pub open spec fn found_entry_result_view(r: Result<Option<KeyEntry>, Error>) -> FoundEntry {
    match r {
        Ok(Some(entry)) => Ok(Some(entry@)),
        Ok(None) => Ok(None),
        Err(e) => Err(e),
    }
}

/// The store can answer `answer` when asked for the entry under `alias`,
/// with `create_new_key` to make the blob where there is none.
pub open spec fn may_get_or_create_key_with<S: KeystoreDB, F: KeyFactory>(
    db: &S,
    domain: Domain,
    namespace: i64,
    alias: Seq<char>,
    create_new_key: F,
    answer: Entry,
) -> bool {
    exists|alias_str: &str, out: Result<KeyEntry, Error>|
        #[trigger] call_ensures(
            S::get_or_create_key_with::<F>,
            (db, domain, namespace, alias_str, create_new_key),
            out,
        ) && alias_str@ == alias && entry_result_view(out) == answer
}

/// The store can answer `answer` when asked whether an entry exists.
pub open spec fn may_key_exist<S: KeystoreDB>(
    db: &S,
    domain: Domain,
    namespace: i64,
    alias: Seq<char>,
    key_type: KeyType,
    answer: Result<bool, Error>,
) -> bool {
    exists|alias_str: &str|
        #[trigger] call_ensures(S::key_exists, (db, domain, namespace, alias_str, key_type), answer)
            && alias_str@ == alias
}

/// The store can answer `answer` when asked for the master key entry of
/// the user.
pub open spec fn may_load_super_key<S: KeystoreDB>(db: &S, user_id: u32, answer: FoundEntry) -> bool {
    exists|out: Result<Option<KeyEntry>, Error>|
        #[trigger] call_ensures(S::load_super_key, (db, user_id), out) && found_entry_result_view(
            out,
        ) == answer
}

/// The store can answer `answer` when asked to store `blob` with
/// `metadata` as the master key of the user.
pub open spec fn may_store_super_key<S: KeystoreDB>(
    db: &S,
    user_id: u32,
    blob: Seq<u8>,
    metadata: BlobMetaDataView,
    answer: Entry,
) -> bool {
    exists|blob_bytes: &[u8], stored_metadata: &BlobMetaData, out: Result<KeyEntry, Error>|
        #[trigger] call_ensures(S::store_super_key, (db, user_id, blob_bytes, stored_metadata), out)
            && blob_bytes@ == blob && stored_metadata@ == metadata && entry_result_view(out)
            == answer
}

/// The store can answer `answer` when asked to unbind the keys of the user.
pub open spec fn may_unbind_keys_for_user<S: KeystoreDB>(
    db: &S,
    user_id: u32,
    keep_non_super_encrypted_keys: bool,
    answer: Result<(), Error>,
) -> bool {
    call_ensures(S::unbind_keys_for_user, (db, user_id, keep_non_super_encrypted_keys), answer)
}

/// The store keeps what it is given: an entry that it returns for a
/// stored master key holds the blob and the metadata that were stored.
pub open spec fn store_keeps_what_it_is_given<S: KeystoreDB>(db: &S) -> bool {
    forall|user_id: u32, blob: Seq<u8>, metadata: BlobMetaDataView, entry: KeyEntryView| #[trigger]
        may_store_super_key(db, user_id, blob, metadata, Ok(entry)) ==> entry.key_blob_info
            == Some((blob, metadata))
}

} // verus!
