//! The state of a user with respect to their lock screen secret, and the
//! transitions between the states: unlocking, setting up, changing and
//! removing the secret.
//!
//! A transition asks the persistent store, the legacy importer and the
//! crypto engine, and changes the cache. Its contract is a relation that
//! says, for the cache before, which answers and which cache after are
//! possible, in terms of what those three can answer.

use vstd::prelude::*;
use vstd::slice::slice_to_vec;
use crate::crypto::{bytes_result_view, into_material, may_generate_aes256_key, Bytes, Crypto};
use crate::database::{
    entry_result_view, found_entry_result_view, may_get_or_create_key_with, may_key_exist,
    may_store_super_key, may_unbind_keys_for_user, store_keeps_what_it_is_given, BlobMetaData,
    BlobMetaDataView, Domain, Entry, FoundEntry, KeyEntry, KeyEntryView, KeyFactory, KeyType,
    KeystoreDB, USER_SUPER_KEY_ALIAS,
};
use crate::error::{Error, ResponseCode};
use crate::key_material::KeyMaterial;
use crate::legacy::{
    legacy_key_result_view, may_bulk_delete_user, may_have_legacy_super_key,
    may_load_legacy_super_key, may_try_migrate_super_key, LegacyBlobLoader, LegacyKey,
    LegacyMigrator,
};
use crate::super_key::key_blob::{may_encrypt_with_super_key, wrapped_result_view, Wrapped};
use crate::super_key::password::{
    cache_after_install, may_encrypt_with_password, may_extract_super_key, super_key_result_view,
    SuperKeyAnswer,
};
use crate::super_key::{CacheView, SuperKey, SuperKeyManager, SuperKeyView};

verus! {

/// The state of a user with respect to their lock screen secret.
pub enum UserState {
    /// The user has set up a secret and has entered it since boot: the
    /// per-boot master key is in the cache.
    LskfUnlocked(SuperKey),
    /// The user has set up a secret and has not entered it since boot: the
    /// wrapped master key is in the store, and no key is in the cache.
    LskfLocked,
    /// There is no such user, or the user has not set up a secret.
    Uninitialized,
}

/// The mathematical value of a `UserState`.
pub enum UserStateView {
    LskfUnlocked(SuperKeyView),
    LskfLocked,
    Uninitialized,
}

impl View for UserState {
    type V = UserStateView;

    open spec fn view(&self) -> UserStateView {
        match self {
            UserState::LskfUnlocked(super_key) => UserStateView::LskfUnlocked(super_key@),
            UserState::LskfLocked => UserStateView::LskfLocked,
            UserState::Uninitialized => UserStateView::Uninitialized,
        }
    }
}

/// The state of a user, or the failure to determine it.
pub type UserStateAnswer = Result<UserStateView, Error>;

/// The view of a state that a function returned.
pub open spec fn user_state_result_view(r: Result<UserState, Error>) -> UserStateAnswer {
    match r {
        Ok(state) => Ok(state@),
        Err(e) => Err(e),
    }
}

/// The view of an optional password.
pub open spec fn password_view(password: Option<&[u8]>) -> Option<Seq<u8>> {
    match password {
        Some(pw) => Some(pw@),
        None => None,
    }
}

/// The namespace of the store in which the master key of a user lives.
pub open spec fn super_key_namespace(user_id: u32) -> i64 {
    user_id as i64
}

/// Whether a master key is provisioned, given what the store answered: the
/// legacy importer is asked only where the store holds none.
pub open spec fn provisioned_in_store_or_legacy<M: LegacyMigrator>(
    legacy_migrator: &M,
    user_id: u32,
    in_store: Result<bool, Error>,
    answer: Result<bool, Error>,
) -> bool {
    match in_store {
        Ok(true) => answer == Ok::<bool, Error>(true),
        Ok(false) => may_have_legacy_super_key(legacy_migrator, user_id, answer),
        Err(e) => answer == Err::<bool, Error>(e),
    }
}

/// `answer` is a possible outcome of asking whether a master key is
/// provisioned for the user, in the store or in the earlier format.
pub open spec fn may_super_key_exist<S: KeystoreDB, M: LegacyMigrator>(
    db: &S,
    legacy_migrator: &M,
    user_id: u32,
    answer: Result<bool, Error>,
) -> bool {
    exists|in_store: Result<bool, Error>| #[trigger]
        may_key_exist(
            db,
            Domain::App,
            super_key_namespace(user_id),
            USER_SUPER_KEY_ALIAS@,
            KeyType::Super,
            in_store,
        ) && provisioned_in_store_or_legacy(legacy_migrator, user_id, in_store, answer)
}

/// The state of a user without a cached key: locked where a master key is
/// provisioned, uninitialized where none is.
pub open spec fn state_without_cached_key(provisioned: Result<bool, Error>) -> UserStateAnswer {
    match provisioned {
        Ok(true) => Ok(UserStateView::LskfLocked),
        Ok(false) => Ok(UserStateView::Uninitialized),
        Err(e) => Err(e),
    }
}

/// `answer` is a possible state of a user without a cached key.
pub open spec fn may_report_state_without_cached_key<S: KeystoreDB, M: LegacyMigrator>(
    db: &S,
    legacy_migrator: &M,
    user_id: u32,
    answer: UserStateAnswer,
) -> bool {
    exists|provisioned: Result<bool, Error>| #[trigger]
        may_super_key_exist(db, legacy_migrator, user_id, provisioned) && answer
            == state_without_cached_key(provisioned)
}

/// `answer` is a possible state of the user: unlocked with the cached
/// per-boot key where there is one, without asking anybody; otherwise
/// locked or uninitialized, by what store and importer answer.
pub open spec fn may_get_user_state<S: KeystoreDB, M: LegacyMigrator>(
    db: &S,
    legacy_migrator: &M,
    cache: CacheView,
    user_id: u32,
    answer: UserStateAnswer,
) -> bool {
    match cache.per_boot_key(user_id) {
        Some(key) => answer == Ok::<UserStateView, Error>(UserStateView::LskfUnlocked(key)),
        None => may_report_state_without_cached_key(db, legacy_migrator, user_id, answer),
    }
}

/// The state after an attempt to obtain the master key.
pub open spec fn unlocked_state(super_key: SuperKeyAnswer) -> UserStateAnswer {
    match super_key {
        Ok(key) => Ok(UserStateView::LskfUnlocked(key)),
        Err(e) => Err(e),
    }
}

/// `answer` and `after` are a possible outcome of unlocking the user with
/// a stored entry and the password: with the extracted key the user is
/// unlocked and the key is installed; a failure leaves the cache as it was.
pub open spec fn may_unlock_with_entry<C: Crypto>(
    crypto: &C,
    cache: CacheView,
    user_id: u32,
    entry: KeyEntryView,
    pw: Seq<u8>,
    answer: UserStateAnswer,
    after: CacheView,
) -> bool {
    exists|super_key: SuperKeyAnswer| #[trigger]
        may_extract_super_key(crypto, entry, pw, super_key) && answer == unlocked_state(super_key)
            && after == cache_after_install(cache, user_id, super_key)
}

/// What unlocking gives for each answer of the lookup of the entry: no
/// entry means that the user is uninitialized.
pub open spec fn unlock_with_found_entry<C: Crypto>(
    crypto: &C,
    cache: CacheView,
    user_id: u32,
    found: FoundEntry,
    pw: Seq<u8>,
    answer: UserStateAnswer,
    after: CacheView,
) -> bool {
    match found {
        Ok(Some(entry)) => may_unlock_with_entry(crypto, cache, user_id, entry, pw, answer, after),
        Ok(None) => answer == Ok::<UserStateView, Error>(UserStateView::Uninitialized) && after
            == cache,
        Err(e) => answer == Err::<UserStateView, Error>(e) && after == cache,
    }
}

/// `answer` and `after` are a possible outcome of unlocking a user
/// without a cached key: the importer moves a key of the earlier format
/// into the store and loads the user's entry, and the entry is unlocked
/// with the password.
pub open spec fn may_check_and_unlock_super_key<S: KeystoreDB, M: LegacyMigrator, C: Crypto>(
    db: &S,
    legacy_migrator: &M,
    crypto: &C,
    cache: CacheView,
    user_id: u32,
    pw: Seq<u8>,
    answer: UserStateAnswer,
    after: CacheView,
) -> bool {
    exists|found: FoundEntry| #[trigger]
        may_try_migrate_super_key(legacy_migrator, db, user_id, pw, found)
            && unlock_with_found_entry(crypto, cache, user_id, found, pw, answer, after)
}

/// `answer` and `after` are a possible outcome of storing a wrapped master
/// key for the user and unlocking the user with the stored entry.
pub open spec fn may_store_and_unlock<S: KeystoreDB, C: Crypto>(
    db: &S,
    crypto: &C,
    cache: CacheView,
    user_id: u32,
    blob: Seq<u8>,
    metadata: BlobMetaDataView,
    pw: Seq<u8>,
    answer: UserStateAnswer,
    after: CacheView,
) -> bool {
    exists|stored: Entry| #[trigger]
        may_store_super_key(db, user_id, blob, metadata, stored) && match stored {
            Ok(entry) => may_unlock_with_entry(crypto, cache, user_id, entry, pw, answer, after),
            Err(e) => answer == Err::<UserStateView, Error>(e) && after == cache,
        }
}

/// `answer` and `after` are a possible outcome of wrapping the material of
/// a new master key with the password, storing it, and unlocking the user.
pub open spec fn may_wrap_store_and_unlock<S: KeystoreDB, C: Crypto>(
    db: &S,
    crypto: &C,
    cache: CacheView,
    user_id: u32,
    super_key: Seq<u8>,
    pw: Seq<u8>,
    answer: UserStateAnswer,
    after: CacheView,
) -> bool {
    exists|wrapped: Wrapped| #[trigger]
        may_encrypt_with_password(crypto, super_key, pw, wrapped) && match wrapped {
            Ok((blob, metadata)) => may_store_and_unlock(
                db,
                crypto,
                cache,
                user_id,
                blob,
                metadata,
                pw,
                answer,
                after,
            ),
            Err(e) => answer == Err::<UserStateView, Error>(e) && after == cache,
        }
}

/// `answer` and `after` are a possible outcome of setting up a master key
/// for a user who has none: the engine generates a key, which is wrapped
/// with the password, stored, and installed.
pub open spec fn may_initialize_super_key<S: KeystoreDB, C: Crypto>(
    db: &S,
    crypto: &C,
    cache: CacheView,
    user_id: u32,
    pw: Seq<u8>,
    answer: UserStateAnswer,
    after: CacheView,
) -> bool {
    exists|generated: Bytes| #[trigger]
        may_generate_aes256_key(crypto, generated) && match generated {
            Ok(super_key) => may_wrap_store_and_unlock(
                db,
                crypto,
                cache,
                user_id,
                super_key,
                pw,
                answer,
                after,
            ),
            Err(e) => answer == Err::<UserStateView, Error>(e) && after == cache,
        }
}

/// `answer` and `after` are a possible outcome of a password change for a
/// user without a cached key: a user with a provisioned master key is
/// locked; a user without one is set up where a password is given, and
/// uninitialized where none is.
pub open spec fn may_check_and_initialize_super_key<S: KeystoreDB, M: LegacyMigrator, C: Crypto>(
    db: &S,
    legacy_migrator: &M,
    crypto: &C,
    cache: CacheView,
    user_id: u32,
    pw: Option<Seq<u8>>,
    answer: UserStateAnswer,
    after: CacheView,
) -> bool {
    exists|provisioned: Result<bool, Error>| #[trigger]
        may_super_key_exist(db, legacy_migrator, user_id, provisioned) && match provisioned {
            Ok(true) => answer == Ok::<UserStateView, Error>(UserStateView::LskfLocked) && after
                == cache,
            Ok(false) => match pw {
                Some(pw) => may_initialize_super_key(db, crypto, cache, user_id, pw, answer, after),
                None => answer == Ok::<UserStateView, Error>(UserStateView::Uninitialized)
                    && after == cache,
            },
            Err(e) => answer == Err::<UserStateView, Error>(e) && after == cache,
        }
}

/// The cache after an attempt to delete the keys of the user: it forgets
/// the user where the deletion succeeded.
pub open spec fn cache_after_reset(
    cache: CacheView,
    user_id: u32,
    deleted: Result<(), Error>,
) -> CacheView {
    match deleted {
        Ok(_) => cache.forget_user(user_id),
        Err(_) => cache,
    }
}

/// `answer` and `after` are a possible outcome of deleting the keys of the
/// user: first those of the earlier format, then those of the store; the
/// cache forgets the user once both are done.
pub open spec fn may_reset_user<S: KeystoreDB, M: LegacyMigrator>(
    db: &S,
    legacy_migrator: &M,
    cache: CacheView,
    user_id: u32,
    keep_non_super_encrypted_keys: bool,
    answer: Result<(), Error>,
    after: CacheView,
) -> bool {
    exists|deleted: Result<(), Error>| #[trigger]
        may_bulk_delete_user(legacy_migrator, user_id, keep_non_super_encrypted_keys, deleted)
            && match deleted {
            Ok(_) => may_unbind_keys_for_user(db, user_id, keep_non_super_encrypted_keys, answer)
                && after == cache_after_reset(cache, user_id, answer),
            Err(e) => answer == Err::<(), Error>(e) && after == cache,
        }
}

/// The state after an attempt to remove the secret of the user.
pub open spec fn state_after_reset(reset: Result<(), Error>) -> UserStateAnswer {
    match reset {
        Ok(_) => Ok(UserStateView::Uninitialized),
        Err(e) => Err(e),
    }
}

/// `answer` and `after` are a possible outcome of removing the secret of
/// an unlocked user: the master key and the keys that it wraps are
/// deleted, other keys are kept, and the user is uninitialized.
pub open spec fn may_remove_password<S: KeystoreDB, M: LegacyMigrator>(
    db: &S,
    legacy_migrator: &M,
    cache: CacheView,
    user_id: u32,
    answer: UserStateAnswer,
    after: CacheView,
) -> bool {
    exists|reset: Result<(), Error>| #[trigger]
        may_reset_user(db, legacy_migrator, cache, user_id, true, reset, after) && answer
            == state_after_reset(reset)
}

/// `answer` and `after` are a possible outcome of a password change: for
/// an unlocked user, removing the password removes the master key, and a
/// new password changes nothing; any other user is handled as one without
/// a cached key.
pub open spec fn may_get_with_password_changed<S: KeystoreDB, M: LegacyMigrator, C: Crypto>(
    db: &S,
    legacy_migrator: &M,
    crypto: &C,
    cache: CacheView,
    user_id: u32,
    password: Option<Seq<u8>>,
    answer: UserStateAnswer,
    after: CacheView,
) -> bool {
    match cache.per_boot_key(user_id) {
        Some(key) => match password {
            None => may_remove_password(db, legacy_migrator, cache, user_id, answer, after),
            Some(_) => answer == Ok::<UserStateView, Error>(UserStateView::LskfUnlocked(key))
                && after == cache,
        },
        None => may_check_and_initialize_super_key(
            db,
            legacy_migrator,
            crypto,
            cache,
            user_id,
            password,
            answer,
            after,
        ),
    }
}

/// `answer` and `after` are a possible outcome of an unlock with the
/// password: an unlocked user stays as they are, with the cached key and
/// without any derivation; any other user is unlocked from the store.
pub open spec fn may_get_with_password_unlock<S: KeystoreDB, M: LegacyMigrator, C: Crypto>(
    db: &S,
    legacy_migrator: &M,
    crypto: &C,
    cache: CacheView,
    user_id: u32,
    password: Seq<u8>,
    answer: UserStateAnswer,
    after: CacheView,
) -> bool {
    match cache.per_boot_key(user_id) {
        Some(key) => answer == Ok::<UserStateView, Error>(UserStateView::LskfUnlocked(key))
            && after == cache,
        None => may_check_and_unlock_super_key(
            db,
            legacy_migrator,
            crypto,
            cache,
            user_id,
            password,
            answer,
            after,
        ),
    }
}

/// `answer` is a possible outcome of wrapping the material of a master
/// key that the engine generates.
pub open spec fn may_generate_and_encrypt<C: Crypto>(
    crypto: &C,
    pw: Seq<u8>,
    answer: Wrapped,
) -> bool {
    exists|generated: Bytes| #[trigger]
        may_generate_aes256_key(crypto, generated) && match generated {
            Ok(super_key) => may_encrypt_with_password(crypto, super_key, pw, answer),
            Err(e) => answer == Err::<(Seq<u8>, BlobMetaDataView), Error>(e),
        }
}

/// `answer` is a possible outcome of making the blob of a master key for a
/// user for whom the store holds none: a master key of the earlier format
/// is taken over; where there is none, the engine generates one. Either is
/// wrapped with the password and a fresh salt.
pub open spec fn may_create_new_key<L: LegacyBlobLoader, C: Crypto>(
    legacy_blob_loader: &L,
    crypto: &C,
    user_id: u32,
    pw: Seq<u8>,
    answer: Wrapped,
) -> bool {
    exists|legacy: LegacyKey| #[trigger]
        may_load_legacy_super_key(legacy_blob_loader, user_id, pw, legacy) && match legacy {
            Ok(Some(super_key)) => may_encrypt_with_password(crypto, super_key, pw, answer),
            Ok(None) => may_generate_and_encrypt(crypto, pw, answer),
            Err(e) => answer == Err::<(Seq<u8>, BlobMetaDataView), Error>(e),
        }
}

/// What the store is given to make the blob of a master key for a user
/// for whom it holds none.
pub struct NewSuperKey<'a, L: LegacyBlobLoader, C: Crypto> {
    pub legacy_blob_loader: &'a L,
    pub crypto: &'a C,
    pub user: u32,
    pub pw: &'a [u8],
}

impl<'a, L: LegacyBlobLoader, C: Crypto> KeyFactory for NewSuperKey<'a, L, C> {
    fn create_new_key(self) -> (r: Result<(Vec<u8>, BlobMetaData), Error>)
        ensures
            may_create_new_key(
                self.legacy_blob_loader,
                self.crypto,
                self.user,
                self.pw@,
                wrapped_result_view(r),
            ),
    {
        SuperKeyManager::create_new_key(self.legacy_blob_loader, self.crypto, self.user, self.pw)
    }
}

/// Success or failure of an unlock, without the state.
pub open spec fn unlock_result(state: UserStateAnswer) -> Result<(), Error> {
    match state {
        Ok(_) => Ok(()),
        Err(e) => Err(e),
    }
}

/// `answer` and `after` are a possible outcome of unlocking the user with
/// a stored entry, where only success or failure is reported.
pub open spec fn may_unlock_and_report<C: Crypto>(
    crypto: &C,
    cache: CacheView,
    user_id: u32,
    entry: KeyEntryView,
    pw: Seq<u8>,
    answer: Result<(), Error>,
    after: CacheView,
) -> bool {
    exists|state: UserStateAnswer| #[trigger]
        may_unlock_with_entry(crypto, cache, user_id, entry, pw, state, after) && answer
            == unlock_result(state)
}

/// `answer` and `after` are a possible outcome of unlocking the master key
/// of a user, creating it where the store holds none: the store is asked
/// for the user's entry, with a `NewSuperKey` to make the blob of a new
/// key; the user is unlocked with the entry that the store gives; where it
/// gives none, the unlock fails and the cache is as it was.
pub open spec fn may_unlock_user_key<S: KeystoreDB, L: LegacyBlobLoader, C: Crypto>(
    db: &S,
    legacy_blob_loader: &L,
    crypto: &C,
    cache: CacheView,
    user: u32,
    pw: &[u8],
    answer: Result<(), Error>,
    after: CacheView,
) -> bool {
    exists|entry: Entry| #[trigger]
        may_get_or_create_key_with(
            db,
            Domain::App,
            super_key_namespace(user),
            USER_SUPER_KEY_ALIAS@,
            NewSuperKey { legacy_blob_loader, crypto, user, pw },
            entry,
        ) && match entry {
            Ok(entry) => may_unlock_and_report(crypto, cache, user, entry, pw@, answer, after),
            Err(e) => answer == Err::<(), Error>(e) && after == cache,
        }
}

/// What wrapping a new key gives in each state of the user: only an
/// unlocked user has a master key to wrap with.
pub open spec fn super_encrypt_in_state<C: Crypto>(
    crypto: &C,
    key_blob: Seq<u8>,
    state: UserStateAnswer,
    answer: Wrapped,
) -> bool {
    match state {
        Ok(UserStateView::LskfUnlocked(super_key)) => may_encrypt_with_super_key(
            crypto,
            key_blob,
            super_key,
            answer,
        ),
        Ok(UserStateView::LskfLocked) => answer == Err::<(Seq<u8>, BlobMetaDataView), Error>(
            Error::Rc(ResponseCode::Locked),
        ),
        Ok(UserStateView::Uninitialized) => answer == Err::<(Seq<u8>, BlobMetaDataView), Error>(
            Error::Rc(ResponseCode::Uninitialized),
        ),
        Err(e) => answer == Err::<(Seq<u8>, BlobMetaDataView), Error>(e),
    }
}

/// `answer` is a possible outcome of wrapping a new key with the master
/// key of the user.
pub open spec fn may_super_encrypt_on_key_init<S: KeystoreDB, M: LegacyMigrator, C: Crypto>(
    db: &S,
    legacy_migrator: &M,
    crypto: &C,
    cache: CacheView,
    user_id: u32,
    key_blob: Seq<u8>,
    answer: Wrapped,
) -> bool {
    exists|state: UserStateAnswer| #[trigger]
        may_get_user_state(db, legacy_migrator, cache, user_id, state) && super_encrypt_in_state(
            crypto,
            key_blob,
            state,
            answer,
        )
}

/// Whether a new key is wrapped with the master key of its user: where
/// the policy asks for it, and the key belongs to an application.
pub open spec fn must_super_encrypt(domain: Domain, super_encryption_required: bool) -> bool {
    domain == Domain::App && super_encryption_required
}

/// `answer` is a possible outcome of preparing a new key for the store:
/// wrapped with the master key of its user where that is required, and
/// unchanged, with empty metadata, where it is not.
pub open spec fn may_handle_super_encryption_on_key_init<
    S: KeystoreDB,
    M: LegacyMigrator,
    C: Crypto,
>(
    db: &S,
    legacy_migrator: &M,
    crypto: &C,
    cache: CacheView,
    domain: Domain,
    super_encryption_required: bool,
    user_id: u32,
    key_blob: Seq<u8>,
    answer: Wrapped,
) -> bool {
    if must_super_encrypt(domain, super_encryption_required) {
        may_super_encrypt_on_key_init(db, legacy_migrator, crypto, cache, user_id, key_blob, answer)
    } else {
        answer == Ok::<(Seq<u8>, BlobMetaDataView), Error>((key_blob, BlobMetaDataView::empty()))
    }
}

impl SuperKeyManager {
    /// Makes the blob of a master key for a user for whom the store holds
    /// none. A master key of the earlier format is taken over, for
    /// backward compatibility; where there is none, a new key is
    /// generated. Either way the key is wrapped with a key derived from the
    /// password before it reaches the store. The wrapping keeps the length
    /// of the key, so nothing more is needed to tell which algorithm the
    /// key is for.
    pub fn create_new_key<L: LegacyBlobLoader, C: Crypto>(
        legacy_blob_loader: &L,
        crypto: &C,
        user: u32,
        pw: &[u8],
    ) -> (r: Result<(Vec<u8>, BlobMetaData), Error>)
        ensures
            may_create_new_key(legacy_blob_loader, crypto, user, pw@, wrapped_result_view(r)),
    {
        let legacy = legacy_blob_loader.load_super_key(user, pw);
        assert(may_load_legacy_super_key(
            legacy_blob_loader,
            user,
            pw@,
            legacy_key_result_view(legacy),
        ));
        match legacy {
            Ok(Some(super_key)) => {
                let super_key = KeyMaterial::new(super_key);
                Self::encrypt_with_password(super_key.as_slice(), pw, crypto)
            },
            Ok(None) => {
                // No key of the earlier format: generate a new one.
                let generated = crypto.generate_aes256_key();
                assert(may_generate_aes256_key(crypto, bytes_result_view(generated)));
                match into_material(generated) {
                    Ok(super_key) => Self::encrypt_with_password(
                        super_key.as_slice(),
                        pw,
                        crypto,
                    ),
                    Err(e) => Err(e),
                }
            },
            Err(e) => Err(e),
        }
    }

    /// Unlocks the master key of a user: the key is loaded from the
    /// store, unwrapped with the password, and placed in the cache. Where
    /// the store holds no master key for the user, one is created, wrapped
    /// with the password, and stored first.
    pub fn unlock_user_key<S: KeystoreDB, L: LegacyBlobLoader, C: Crypto>(
        &mut self,
        db: &S,
        user: u32,
        pw: &[u8],
        legacy_blob_loader: &L,
        crypto: &C,
    ) -> (r: Result<(), Error>)
        ensures
            may_unlock_user_key(
                db,
                legacy_blob_loader,
                crypto,
                old(self)@,
                user,
                pw,
                r,
                final(self)@,
            ),
    {
        let entry = db.get_or_create_key_with(
            Domain::App,
            user as i64,
            USER_SUPER_KEY_ALIAS,
            NewSuperKey { legacy_blob_loader, crypto, user, pw },
        );
        assert(may_get_or_create_key_with(
            db,
            Domain::App,
            super_key_namespace(user),
            USER_SUPER_KEY_ALIAS@,
            NewSuperKey { legacy_blob_loader, crypto, user, pw },
            entry_result_view(entry),
        ));
        match entry {
            Ok(entry) => {
                let state = self.unlock_with_entry(user, entry, pw, crypto);
                match state {
                    Ok(_) => Ok(()),
                    Err(e) => Err(e),
                }
            },
            Err(e) => Err(e),
        }
    }

    /// Wraps a new key with the master key of the user. A user who is
    /// locked, or who has not set up a secret, has no master key to wrap
    /// with. Whether the key must be wrapped at all is for the caller to
    /// decide.
    fn super_encrypt_on_key_init<S: KeystoreDB, M: LegacyMigrator, C: Crypto>(
        &self,
        db: &S,
        legacy_migrator: &M,
        user_id: u32,
        key_blob: &[u8],
        crypto: &C,
    ) -> (r: Result<(Vec<u8>, BlobMetaData), Error>)
        ensures
            may_super_encrypt_on_key_init(
                db,
                legacy_migrator,
                crypto,
                self@,
                user_id,
                key_blob@,
                wrapped_result_view(r),
            ),
    {
        let state = UserState::get(db, legacy_migrator, self, user_id);
        match state {
            Ok(UserState::LskfUnlocked(super_key)) => Self::encrypt_with_super_key(
                key_blob,
                &super_key,
                crypto,
            ),
            Ok(UserState::LskfLocked) => Err(Error::Rc(ResponseCode::Locked)),
            Ok(UserState::Uninitialized) => Err(Error::Rc(ResponseCode::Uninitialized)),
            Err(e) => Err(e),
        }
    }

    /// Prepares a new key for the store: where the policy requires it and
    /// the key belongs to an application, the key is wrapped with the
    /// master key of its user; otherwise it is stored as it is.
    pub fn handle_super_encryption_on_key_init<S: KeystoreDB, M: LegacyMigrator, C: Crypto>(
        &self,
        db: &S,
        legacy_migrator: &M,
        domain: &Domain,
        super_encryption_required: bool,
        user_id: u32,
        key_blob: &[u8],
        crypto: &C,
    ) -> (r: Result<(Vec<u8>, BlobMetaData), Error>)
        ensures
            may_handle_super_encryption_on_key_init(
                db,
                legacy_migrator,
                crypto,
                self@,
                *domain,
                super_encryption_required,
                user_id,
                key_blob@,
                wrapped_result_view(r),
            ),
    {
        match (*domain, super_encryption_required) {
            (Domain::App, true) => self.super_encrypt_on_key_init(
                db,
                legacy_migrator,
                user_id,
                key_blob,
                crypto,
            ),
            _ => Ok((slice_to_vec(key_blob), BlobMetaData::new())),
        }
    }

    /// Whether the user has set up a secret: whether a master key is
    /// provisioned in the store or in the earlier format. The cache plays
    /// no part in it.
    pub fn super_key_exists_in_db_for_user<S: KeystoreDB, M: LegacyMigrator>(
        db: &S,
        legacy_migrator: &M,
        user_id: u32,
    ) -> (r: Result<bool, Error>)
        ensures
            may_super_key_exist(db, legacy_migrator, user_id, r),
    {
        let key_in_db = db.key_exists(
            Domain::App,
            user_id as i64,
            USER_SUPER_KEY_ALIAS,
            KeyType::Super,
        );
        assert(may_key_exist(
            db,
            Domain::App,
            super_key_namespace(user_id),
            USER_SUPER_KEY_ALIAS@,
            KeyType::Super,
            key_in_db,
        ));
        match key_in_db {
            Ok(true) => Ok(true),
            Ok(false) => legacy_migrator.has_super_key(user_id),
            Err(e) => Err(e),
        }
    }

    /// Unlocks the user with a stored entry and the password.
    fn unlock_with_entry<C: Crypto>(
        &mut self,
        user_id: u32,
        entry: KeyEntry,
        pw: &[u8],
        crypto: &C,
    ) -> (r: Result<UserState, Error>)
        ensures
            may_unlock_with_entry(
                crypto,
                old(self)@,
                user_id,
                entry@,
                pw@,
                user_state_result_view(r),
                final(self)@,
            ),
    {
        let super_key = self.populate_cache_from_super_key_blob(user_id, entry, pw, crypto);
        match super_key {
            Ok(super_key) => Ok(UserState::LskfUnlocked(super_key)),
            Err(e) => Err(e),
        }
    }

    /// Unlocks a user who has no key in the cache: an uninitialized user
    /// stays so; for any other, the stored master key is unwrapped with
    /// the password and installed.
    pub fn check_and_unlock_super_key<S: KeystoreDB, M: LegacyMigrator, C: Crypto>(
        &mut self,
        db: &S,
        legacy_migrator: &M,
        user_id: u32,
        pw: &[u8],
        crypto: &C,
    ) -> (r: Result<UserState, Error>)
        ensures
            may_check_and_unlock_super_key(
                db,
                legacy_migrator,
                crypto,
                old(self)@,
                user_id,
                pw@,
                user_state_result_view(r),
                final(self)@,
            ),
    {
        let found = legacy_migrator.with_try_migrate_super_key(db, user_id, pw);
        assert(may_try_migrate_super_key(
            legacy_migrator,
            db,
            user_id,
            pw@,
            found_entry_result_view(found),
        ));
        match found {
            Ok(Some(entry)) => self.unlock_with_entry(user_id, entry, pw, crypto),
            Ok(None) => Ok(UserState::Uninitialized),
            Err(e) => Err(e),
        }
    }

    /// Stores a wrapped master key and unlocks the user with the entry.
    fn store_and_unlock<S: KeystoreDB, C: Crypto>(
        &mut self,
        db: &S,
        user_id: u32,
        blob: &[u8],
        metadata: &BlobMetaData,
        pw: &[u8],
        crypto: &C,
    ) -> (r: Result<UserState, Error>)
        ensures
            may_store_and_unlock(
                db,
                crypto,
                old(self)@,
                user_id,
                blob@,
                metadata@,
                pw@,
                user_state_result_view(r),
                final(self)@,
            ),
    {
        let stored = db.store_super_key(user_id, blob, metadata);
        assert(may_store_super_key(db, user_id, blob@, metadata@, entry_result_view(stored)));
        match stored {
            Ok(key_entry) => self.unlock_with_entry(user_id, key_entry, pw, crypto),
            Err(e) => Err(e),
        }
    }

    /// Generates a master key for the user, wraps it with the password,
    /// stores it, and installs it.
    fn initialize_super_key<S: KeystoreDB, C: Crypto>(
        &mut self,
        db: &S,
        user_id: u32,
        pw: &[u8],
        crypto: &C,
    ) -> (r: Result<UserState, Error>)
        ensures
            may_initialize_super_key(
                db,
                crypto,
                old(self)@,
                user_id,
                pw@,
                user_state_result_view(r),
                final(self)@,
            ),
    {
        let generated = crypto.generate_aes256_key();
        assert(may_generate_aes256_key(crypto, bytes_result_view(generated)));
        match into_material(generated) {
            Ok(super_key) => {
                let wrapped = Self::encrypt_with_password(super_key.as_slice(), pw, crypto);
                match wrapped {
                    Ok((encrypted_super_key, blob_metadata)) => self.store_and_unlock(
                        db,
                        user_id,
                        encrypted_super_key.as_slice(),
                        &blob_metadata,
                        pw,
                        crypto,
                    ),
                    Err(e) => Err(e),
                }
            },
            Err(e) => Err(e),
        }
    }

    /// Serves a password change for a user who has no key in the cache: a
    /// user with a provisioned master key is locked; for a user without
    /// one, a password sets up a new master key, and no password leaves the
    /// user uninitialized.
    pub fn check_and_initialize_super_key<S: KeystoreDB, M: LegacyMigrator, C: Crypto>(
        &mut self,
        db: &S,
        legacy_migrator: &M,
        user_id: u32,
        pw: Option<&[u8]>,
        crypto: &C,
    ) -> (r: Result<UserState, Error>)
        ensures
            may_check_and_initialize_super_key(
                db,
                legacy_migrator,
                crypto,
                old(self)@,
                user_id,
                password_view(pw),
                user_state_result_view(r),
                final(self)@,
            ),
    {
        let super_key_exists_in_db = Self::super_key_exists_in_db_for_user(
            db,
            legacy_migrator,
            user_id,
        );
        match super_key_exists_in_db {
            Ok(true) => Ok(UserState::LskfLocked),
            Ok(false) => match pw {
                Some(pw) => self.initialize_super_key(db, user_id, pw, crypto),
                None => Ok(UserState::Uninitialized),
            },
            Err(e) => Err(e),
        }
    }
}

impl UserState {
    /// The state of the user. A cached key answers the question alone;
    /// store and importer are asked only where there is none.
    pub fn get<S: KeystoreDB, M: LegacyMigrator>(
        db: &S,
        legacy_migrator: &M,
        skm: &SuperKeyManager,
        user_id: u32,
    ) -> (r: Result<UserState, Error>)
        ensures
            may_get_user_state(db, legacy_migrator, skm@, user_id, user_state_result_view(r)),
    {
        match skm.get_per_boot_key_by_user_id(user_id) {
            Some(super_key) => Ok(UserState::LskfUnlocked(super_key)),
            None => {
                let provisioned = SuperKeyManager::super_key_exists_in_db_for_user(
                    db,
                    legacy_migrator,
                    user_id,
                );
                match provisioned {
                    Ok(true) => Ok(UserState::LskfLocked),
                    Ok(false) => Ok(UserState::Uninitialized),
                    Err(e) => Err(e),
                }
            },
        }
    }

    /// The state of the user after a change of the password; `None` means
    /// that the user removed the secret.
    pub fn get_with_password_changed<S: KeystoreDB, M: LegacyMigrator, C: Crypto>(
        db: &S,
        legacy_migrator: &M,
        skm: &mut SuperKeyManager,
        user_id: u32,
        password: Option<&[u8]>,
        crypto: &C,
    ) -> (r: Result<UserState, Error>)
        ensures
            may_get_with_password_changed(
                db,
                legacy_migrator,
                crypto,
                old(skm)@,
                user_id,
                password_view(password),
                user_state_result_view(r),
                final(skm)@,
            ),
    {
        match skm.get_per_boot_key_by_user_id(user_id) {
            Some(super_key) => {
                if password.is_none() {
                    // Without a secret, only the master key goes, with the
                    // keys that it wraps.
                    let reset = Self::reset_user(db, skm, legacy_migrator, user_id, true);
                    match reset {
                        Ok(_) => Ok(UserState::Uninitialized),
                        Err(e) => Err(e),
                    }
                } else {
                    // A new password for an unlocked user changes nothing.
                    Ok(UserState::LskfUnlocked(super_key))
                }
            },
            None => skm.check_and_initialize_super_key(
                db,
                legacy_migrator,
                user_id,
                password,
                crypto,
            ),
        }
    }

    /// The state of the user after they entered the password.
    pub fn get_with_password_unlock<S: KeystoreDB, M: LegacyMigrator, C: Crypto>(
        db: &S,
        legacy_migrator: &M,
        skm: &mut SuperKeyManager,
        user_id: u32,
        password: &[u8],
        crypto: &C,
    ) -> (r: Result<UserState, Error>)
        ensures
            may_get_with_password_unlock(
                db,
                legacy_migrator,
                crypto,
                old(skm)@,
                user_id,
                password@,
                user_state_result_view(r),
                final(skm)@,
            ),
    {
        match skm.get_per_boot_key_by_user_id(user_id) {
            Some(super_key) => Ok(UserState::LskfUnlocked(super_key)),
            None => skm.check_and_unlock_super_key(db, legacy_migrator, user_id, password, crypto),
        }
    }

    /// Deletes the keys of the user, first in the earlier format, then in
    /// the store, and makes the cache forget the user. With
    /// `keep_non_super_encrypted_keys` only the master key and the keys
    /// that it wraps are deleted.
    pub fn reset_user<S: KeystoreDB, M: LegacyMigrator>(
        db: &S,
        skm: &mut SuperKeyManager,
        legacy_migrator: &M,
        user_id: u32,
        keep_non_super_encrypted_keys: bool,
    ) -> (r: Result<(), Error>)
        ensures
            may_reset_user(
                db,
                legacy_migrator,
                old(skm)@,
                user_id,
                keep_non_super_encrypted_keys,
                r,
                final(skm)@,
            ),
    {
        let deleted = legacy_migrator.bulk_delete_user(user_id, keep_non_super_encrypted_keys);
        assert(may_bulk_delete_user(
            legacy_migrator,
            user_id,
            keep_non_super_encrypted_keys,
            deleted,
        ));
        match deleted {
            Ok(_) => {
                let unbound = db.unbind_keys_for_user(user_id, keep_non_super_encrypted_keys);
                if unbound.is_ok() {
                    // Both stores are done: the key leaves the cache too.
                    skm.forget_all_keys_for_user(user_id);
                }
                unbound
            },
            Err(e) => Err(e),
        }
    }
}

/// Uninitialized and locked are never confused: for a user without a
/// cached key, the state is uninitialized only where the store and the
/// importer both answered that they hold no master key, locked only where
/// one of them answered that it holds one, and never unlocked. So a store
/// and an importer that hold no master key for the user give
/// uninitialized, and a store or an importer that holds one gives locked.
pub proof fn lemma_uninitialized_is_not_locked<S: KeystoreDB, M: LegacyMigrator>(
    db: &S,
    legacy_migrator: &M,
    cache: CacheView,
    user_id: u32,
    state: UserStateView,
)
    requires
        cache.per_boot_key(user_id) is None,
        may_get_user_state(db, legacy_migrator, cache, user_id, Ok(state)),
    ensures
        state !is LskfUnlocked,
        state is Uninitialized ==> may_super_key_exist(db, legacy_migrator, user_id, Ok(false)),
        state is Uninitialized ==> may_key_exist(
            db,
            Domain::App,
            super_key_namespace(user_id),
            USER_SUPER_KEY_ALIAS@,
            KeyType::Super,
            Ok(false),
        ) && may_have_legacy_super_key(legacy_migrator, user_id, Ok(false)),
        state is LskfLocked ==> may_super_key_exist(db, legacy_migrator, user_id, Ok(true)),
{
    let provisioned = choose|provisioned: Result<bool, Error>| #[trigger]
        may_super_key_exist(db, legacy_migrator, user_id, provisioned) && Ok::<
            UserStateView,
            Error,
        >(state) == state_without_cached_key(provisioned);
    if state is Uninitialized {
        assert(provisioned == Ok::<bool, Error>(false));
        let in_store = choose|in_store: Result<bool, Error>| #[trigger]
            may_key_exist(
                db,
                Domain::App,
                super_key_namespace(user_id),
                USER_SUPER_KEY_ALIAS@,
                KeyType::Super,
                in_store,
            ) && provisioned_in_store_or_legacy(legacy_migrator, user_id, in_store, provisioned);
        assert(in_store == Ok::<bool, Error>(false));
    }
}

/// An unlocked user stays unlocked: with a cached per-boot key, asking for
/// the state, unlocking again, and a change to a new password all answer
/// with the cached key, whatever store, importer and engine would answer,
/// and leave the cache as it is.
pub proof fn lemma_unlocked_user_stays_unlocked<S: KeystoreDB, M: LegacyMigrator, C: Crypto>(
    db: &S,
    legacy_migrator: &M,
    crypto: &C,
    cache: CacheView,
    user_id: u32,
    password: Seq<u8>,
    answer: UserStateAnswer,
    after: CacheView,
)
    requires
        cache.per_boot_key(user_id) is Some,
        may_get_user_state(db, legacy_migrator, cache, user_id, answer) && after == cache
            || may_get_with_password_unlock(
            db,
            legacy_migrator,
            crypto,
            cache,
            user_id,
            password,
            answer,
            after,
        ) || may_get_with_password_changed(
            db,
            legacy_migrator,
            crypto,
            cache,
            user_id,
            Some(password),
            answer,
            after,
        ),
    ensures
        answer == Ok::<UserStateView, Error>(
            UserStateView::LskfUnlocked(cache.per_boot_key(user_id)->0),
        ),
        after == cache,
{
}

/// Setting up installs the generated key: with an engine whose decryption
/// inverts its encryption and whose key derivation is a function, and a
/// store that keeps what it is given, the master key of a user who was set
/// up is a key that the engine generated; it is installed as the user's
/// per-boot key; and the store returned an entry, with the identifier of
/// the key, for a wrap of the key with the password.
pub proof fn lemma_initialize_installs_generated_key<S: KeystoreDB, C: Crypto>(
    db: &S,
    crypto: &C,
    cache: CacheView,
    user_id: u32,
    pw: Seq<u8>,
    super_key: SuperKeyView,
    after: CacheView,
)
    requires
        crate::crypto::decryption_inverts_encryption(crypto),
        crate::crypto::derivation_is_a_function(crypto),
        store_keeps_what_it_is_given(db),
        may_initialize_super_key(
            db,
            crypto,
            cache,
            user_id,
            pw,
            Ok(UserStateView::LskfUnlocked(super_key)),
            after,
        ),
    ensures
        may_generate_aes256_key(crypto, Ok(super_key.key)),
        after == cache.install_per_boot_key(user_id, super_key),
        after.resolve(super_key.id) == Some(super_key.key),
        exists|blob: Seq<u8>, metadata: BlobMetaDataView, entry: KeyEntryView|
            may_encrypt_with_password(crypto, super_key.key, pw, Ok((blob, metadata)))
                && #[trigger] may_store_super_key(db, user_id, blob, metadata, Ok(entry))
                && entry.id == super_key.id,
{
    let answer: UserStateAnswer = Ok(UserStateView::LskfUnlocked(super_key));
    let generated = choose|generated: Bytes| #[trigger]
        may_generate_aes256_key(crypto, generated) && match generated {
            Ok(material) => may_wrap_store_and_unlock(
                db,
                crypto,
                cache,
                user_id,
                material,
                pw,
                answer,
                after,
            ),
            Err(e) => answer == Err::<UserStateView, Error>(e) && after == cache,
        };
    let material = generated->Ok_0;
    let wrapped = choose|wrapped: Wrapped| #[trigger]
        may_encrypt_with_password(crypto, material, pw, wrapped) && match wrapped {
            Ok((blob, metadata)) => may_store_and_unlock(
                db,
                crypto,
                cache,
                user_id,
                blob,
                metadata,
                pw,
                answer,
                after,
            ),
            Err(e) => answer == Err::<UserStateView, Error>(e) && after == cache,
        };
    let (blob, metadata) = wrapped->Ok_0;
    let stored = choose|stored: Entry| #[trigger]
        may_store_super_key(db, user_id, blob, metadata, stored) && match stored {
            Ok(entry) => may_unlock_with_entry(crypto, cache, user_id, entry, pw, answer, after),
            Err(e) => answer == Err::<UserStateView, Error>(e) && after == cache,
        };
    let entry = stored->Ok_0;
    lemma_unlock_round_trip(crypto, cache, user_id, material, pw, entry, answer, after);
}

/// The unlock round trip: with an engine whose decryption inverts its
/// encryption and whose key derivation is a function, unlocking a user
/// with the password, from an entry that holds what wrapping a master key
/// with that password returned, gives the unlocked state with the material
/// that was wrapped, and installs that key.
pub proof fn lemma_unlock_round_trip<C: Crypto>(
    crypto: &C,
    cache: CacheView,
    user_id: u32,
    super_key: Seq<u8>,
    pw: Seq<u8>,
    entry: KeyEntryView,
    answer: UserStateAnswer,
    after: CacheView,
)
    requires
        crate::crypto::decryption_inverts_encryption(crypto),
        crate::crypto::derivation_is_a_function(crypto),
        entry.key_blob_info matches Some((blob, metadata)) && may_encrypt_with_password(
            crypto,
            super_key,
            pw,
            Ok((blob, metadata)),
        ),
        may_unlock_with_entry(crypto, cache, user_id, entry, pw, answer, after),
    ensures
        answer == Ok::<UserStateView, Error>(
            UserStateView::LskfUnlocked(SuperKeyView { key: super_key, id: entry.id }),
        ),
        after.per_boot_key(user_id) == Some(SuperKeyView { key: super_key, id: entry.id }),
        after.resolve(entry.id) == Some(super_key),
{
    let extracted = choose|extracted: SuperKeyAnswer| #[trigger]
        may_extract_super_key(crypto, entry, pw, extracted) && answer == unlocked_state(extracted)
            && after == cache_after_install(cache, user_id, extracted);
    crate::super_key::password::lemma_password_wrap_round_trip(
        crypto,
        super_key,
        pw,
        entry,
        extracted,
    );
}

/// A wrong password leaves the user locked: where every decryption of the
/// stored blob under a key derived from the password fails, unlocking with
/// that password fails, and the cache is as it was, without a key for the
/// user.
pub proof fn lemma_wrong_password_leaves_user_locked<C: Crypto>(
    crypto: &C,
    cache: CacheView,
    user_id: u32,
    entry: KeyEntryView,
    pw: Seq<u8>,
    answer: UserStateAnswer,
    after: CacheView,
)
    requires
        cache.per_boot_key(user_id) is None,
        entry.key_blob_info matches Some((blob, metadata)) && metadata.password_parameters()
            matches Ok((salt, iv, tag)) && forall|opened: Bytes| #[trigger]
            crate::super_key::password::may_open_with_password(
                crypto,
                blob,
                salt,
                iv,
                tag,
                pw,
                opened,
            ) ==> opened is Err,
        may_unlock_with_entry(crypto, cache, user_id, entry, pw, answer, after),
    ensures
        answer is Err,
        after == cache,
        after.per_boot_key(user_id) is None,
{
    let extracted = choose|extracted: SuperKeyAnswer| #[trigger]
        may_extract_super_key(crypto, entry, pw, extracted) && answer == unlocked_state(extracted)
            && after == cache_after_install(cache, user_id, extracted);
    crate::super_key::password::lemma_rejected_password_unlocks_nothing(
        crypto,
        cache,
        user_id,
        entry,
        pw,
        extracted,
    );
}

/// Removing the password forgets the master key: where the password of an
/// unlocked user is removed and the deletion succeeds, the user is
/// uninitialized, the cache holds no key for the user, and the identifier
/// of the user's master key does not resolve any more, provided that it
/// resolved through the slot of this user if it resolved at all.
pub proof fn lemma_removed_password_forgets_master_key<
    S: KeystoreDB,
    M: LegacyMigrator,
    C: Crypto,
>(
    db: &S,
    legacy_migrator: &M,
    crypto: &C,
    cache: CacheView,
    user_id: u32,
    super_key: SuperKeyView,
    state: UserStateView,
    after: CacheView,
)
    requires
        cache.per_boot_key(user_id) == Some(super_key),
        cache.resolve(super_key.id) is Some ==> cache.key_index[super_key.id] == user_id,
        may_get_with_password_changed(
            db,
            legacy_migrator,
            crypto,
            cache,
            user_id,
            None,
            Ok(state),
            after,
        ),
    ensures
        state is Uninitialized,
        after == cache.forget_user(user_id),
        after.per_boot_key(user_id) is None,
        after.resolve(super_key.id) is None,
{
    let answer: UserStateAnswer = Ok(state);
    let reset = choose|reset: Result<(), Error>| #[trigger]
        may_reset_user(db, legacy_migrator, cache, user_id, true, reset, after) && answer
            == state_after_reset(reset);
    let deleted = choose|deleted: Result<(), Error>| #[trigger]
        may_bulk_delete_user(legacy_migrator, user_id, true, deleted) && match deleted {
            Ok(_) => may_unbind_keys_for_user(db, user_id, true, reset) && after
                == cache_after_reset(cache, user_id, reset),
            Err(e) => reset == Err::<(), Error>(e) && after == cache,
        };
    crate::super_key::lemma_forget_user_drops_references(cache, user_id, super_key.id);
}

/// What was prepared for the store comes back from it: with an engine
/// whose decryption inverts its encryption, and while the identifier of
/// the master key of the user resolves to that key, a key that was
/// prepared for the store unwraps, where its metadata asks for it, to the
/// key as it was, whether or not it had to be wrapped.
pub proof fn lemma_key_init_round_trip<S: KeystoreDB, M: LegacyMigrator, C: Crypto>(
    db: &S,
    legacy_migrator: &M,
    crypto: &C,
    cache: CacheView,
    domain: Domain,
    super_encryption_required: bool,
    user_id: u32,
    key_blob: Seq<u8>,
    blob: Seq<u8>,
    metadata: BlobMetaDataView,
    unwrapped: crate::super_key::key_blob::Unwrapped,
)
    requires
        crate::crypto::decryption_inverts_encryption(crypto),
        cache.per_boot_key(user_id) matches Some(super_key) ==> cache.resolve(super_key.id)
            == Some(super_key.key),
        may_handle_super_encryption_on_key_init(
            db,
            legacy_migrator,
            crypto,
            cache,
            domain,
            super_encryption_required,
            user_id,
            key_blob,
            Ok((blob, metadata)),
        ),
        crate::super_key::key_blob::may_unwrap_key_if_required(
            crypto,
            cache,
            metadata,
            blob,
            unwrapped,
        ),
    ensures
        unwrapped is Ok,
        unwrapped->Ok_0.material() == key_blob,
        unwrapped->Ok_0 is Sensitive <==> must_super_encrypt(domain, super_encryption_required),
{
    if must_super_encrypt(domain, super_encryption_required) {
        let wrapped: Wrapped = Ok((blob, metadata));
        let state = choose|state: UserStateAnswer| #[trigger]
            may_get_user_state(db, legacy_migrator, cache, user_id, state)
                && super_encrypt_in_state(crypto, key_blob, state, wrapped);
        if cache.per_boot_key(user_id) is None {
            let provisioned = choose|provisioned: Result<bool, Error>| #[trigger]
                may_super_key_exist(db, legacy_migrator, user_id, provisioned) && state
                    == state_without_cached_key(provisioned);
        }
        let super_key = cache.per_boot_key(user_id)->0;
        crate::super_key::key_blob::lemma_wrap_names_its_key(
            crypto,
            key_blob,
            super_key,
            blob,
            metadata,
        );
        crate::super_key::key_blob::lemma_unwrap_inverts_wrap(
            crypto,
            cache,
            super_key,
            key_blob,
            blob,
            metadata,
            unwrapped,
        );
    }
}

} // verus!
