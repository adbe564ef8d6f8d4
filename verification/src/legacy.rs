//! The importer of keys that an earlier storage format left behind.

use vstd::prelude::*;
use crate::database::{found_entry_result_view, FoundEntry, KeyEntry, KeystoreDB};
use crate::error::Error;

verus! {

/// Reads master keys in the earlier format.
pub trait LegacyBlobLoader {
    /// The master key that the earlier format holds for the user, unwrapped
    /// with the password; `None` where it holds none.
    fn load_super_key(&self, user_id: u32, pw: &[u8]) -> Result<Option<Vec<u8>>, Error>;
}

/// Moves keys of the earlier format into the persistent store.
pub trait LegacyMigrator {
    /// Whether the earlier format holds a master key for the user.
    fn has_super_key(&self, user_id: u32) -> Result<bool, Error>;

    /// Moves the master key of the user into the store where the earlier
    /// format still holds it, then loads the user's master key entry from
    /// the store.
    fn with_try_migrate_super_key<S: KeystoreDB>(
        &self,
        db: &S,
        user_id: u32,
        pw: &[u8],
    ) -> Result<Option<KeyEntry>, Error>;

    /// Deletes the keys that the earlier format holds for the user; with
    /// `keep_non_super_encrypted_keys` only the master key and the keys
    /// wrapped by it.
    fn bulk_delete_user(
        &self,
        user_id: u32,
        keep_non_super_encrypted_keys: bool,
    ) -> Result<(), Error>;
}

/// A master key in the earlier format where there is one, or the failure
/// to look for it.
pub type LegacyKey = Result<Option<Seq<u8>>, Error>;

/// The view of what the loader returned.
pub open spec fn legacy_key_result_view(r: Result<Option<Vec<u8>>, Error>) -> LegacyKey {
    match r {
        Ok(Some(key)) => Ok(Some(key@)),
        Ok(None) => Ok(None),
        Err(e) => Err(e),
    }
}

/// The loader can answer `answer` when asked for the master key of the
/// user under the password.
pub open spec fn may_load_legacy_super_key<L: LegacyBlobLoader>(
    loader: &L,
    user_id: u32,
    pw: Seq<u8>,
    answer: LegacyKey,
) -> bool {
    exists|pw_bytes: &[u8], out: Result<Option<Vec<u8>>, Error>|
        #[trigger] call_ensures(L::load_super_key, (loader, user_id, pw_bytes), out) && pw_bytes@
            == pw && legacy_key_result_view(out) == answer
}

/// The migrator can answer `answer` when asked whether the earlier format
/// holds a master key for the user.
pub open spec fn may_have_legacy_super_key<M: LegacyMigrator>(
    migrator: &M,
    user_id: u32,
    answer: Result<bool, Error>,
) -> bool {
    call_ensures(M::has_super_key, (migrator, user_id), answer)
}

/// The migrator can answer `answer` when asked to move the master key of
/// the user into the store and to load the user's entry.
pub open spec fn may_try_migrate_super_key<M: LegacyMigrator, S: KeystoreDB>(
    migrator: &M,
    db: &S,
    user_id: u32,
    pw: Seq<u8>,
    answer: FoundEntry,
) -> bool {
    exists|pw_bytes: &[u8], out: Result<Option<KeyEntry>, Error>|
        #[trigger] call_ensures(
            M::with_try_migrate_super_key::<S>,
            (migrator, db, user_id, pw_bytes),
            out,
        ) && pw_bytes@ == pw && found_entry_result_view(out) == answer
}

/// The migrator can answer `answer` when asked to delete the keys of the
/// user.
pub open spec fn may_bulk_delete_user<M: LegacyMigrator>(
    migrator: &M,
    user_id: u32,
    keep_non_super_encrypted_keys: bool,
    answer: Result<(), Error>,
) -> bool {
    call_ensures(M::bulk_delete_user, (migrator, user_id, keep_non_super_encrypted_keys), answer)
}

} // verus!
