//! The per-user master keys ("super keys"): the cache of unlocked keys, the
//! state of a user with respect to their lock screen secret, and the
//! wrapping of ordinary keys with a master key.

use vstd::prelude::*;
use std::collections::HashMap;
use crate::key_material::{material_view, KeyMaterial};
use crate::utils::AesGcmKey;

pub mod key_blob;
pub mod password;
pub mod user_state;

pub use key_blob::KeyBlob;
pub use user_state::UserState;

verus! {

/// One master key: its plaintext material and its persistent identifier.
pub struct SuperKey {
    key: KeyMaterial,
    // Identifier of the master key in the persistent store.
    id: i64,
}

/// The mathematical value of a `SuperKey`.
pub struct SuperKeyView {
    pub key: Seq<u8>,
    pub id: i64,
}

impl View for SuperKey {
    type V = SuperKeyView;

    closed spec fn view(&self) -> SuperKeyView {
        SuperKeyView { key: self.key@, id: self.id }
    }
}

impl Clone for SuperKey {
    fn clone(&self) -> (copy: Self)
        ensures
            copy@ == self@,
    {
        SuperKey { key: self.key.clone(), id: self.id }
    }
}

impl SuperKey {
    /// The master key with the given material and identifier.
    pub fn new(key: KeyMaterial, id: i64) -> (super_key: Self)
        ensures
            super_key@ == (SuperKeyView { key: key@, id }),
    {
        SuperKey { key, id }
    }

    /// The plaintext material of the key.
    pub fn get_key(&self) -> (key: &KeyMaterial)
        ensures
            key@ == self@.key,
    {
        &self.key
    }

    /// The persistent identifier of the key.
    pub fn get_id(&self) -> (id: i64)
        ensures
            id == self@.id,
    {
        self.id
    }
}

impl AesGcmKey for SuperKey {
    fn key(&self) -> (k: &[u8])
        ensures
            k@ == self@.key,
    {
        self.key.as_slice()
    }
}

/// The view of an optional master key.
pub open spec fn super_key_view(key: Option<SuperKey>) -> Option<SuperKeyView> {
    match key {
        Some(k) => Some(k@),
        None => None,
    }
}

/// The mathematical value of the cache: for each user the per-boot key
/// and the screen-lock key, as far as they are cached, and the index from
/// the identifier of a master key to the user whose slot published it.
///
/// The index owns no key material. An identifier resolves only while the
/// slot that it refers to still holds a per-boot key with that identifier.
pub struct CacheView {
    pub per_boot: Map<u32, SuperKeyView>,
    pub screen_lock: Map<u32, Seq<u8>>,
    pub key_index: Map<i64, u32>,
}

impl CacheView {
    /// The cache that holds nothing.
    pub open spec fn empty() -> CacheView {
        CacheView { per_boot: Map::empty(), screen_lock: Map::empty(), key_index: Map::empty() }
    }

    /// The per-boot key of the user, if one is cached.
    pub open spec fn per_boot_key(self, user: u32) -> Option<SuperKeyView> {
        if self.per_boot.contains_key(user) {
            Some(self.per_boot[user])
        } else {
            None
        }
    }

    /// The screen-lock key of the user, if one is cached.
    pub open spec fn screen_lock_key(self, user: u32) -> Option<Seq<u8>> {
        if self.screen_lock.contains_key(user) {
            Some(self.screen_lock[user])
        } else {
            None
        }
    }

    /// The material of the master key with the given identifier: that of
    /// the per-boot key in the slot that the index refers to, if that slot
    /// still holds a key with this identifier.
    pub open spec fn resolve(self, key_id: i64) -> Option<Seq<u8>> {
        if self.key_index.contains_key(key_id) {
            match self.per_boot_key(self.key_index[key_id]) {
                Some(key) => if key.id == key_id {
                    Some(key.key)
                } else {
                    None
                },
                None => None,
            }
        } else {
            None
        }
    }

    /// The cache after `key` became the per-boot key of `user`: the slot
    /// holds the key, and the index refers to the slot under the key's
    /// identifier.
    pub open spec fn install_per_boot_key(self, user: u32, key: SuperKeyView) -> CacheView {
        CacheView {
            per_boot: self.per_boot.insert(user, key),
            key_index: self.key_index.insert(key.id, user),
            ..self
        }
    }

    /// The cache after `key` became the screen-lock key of `user`.
    pub open spec fn install_screen_lock_key(self, user: u32, key: Seq<u8>) -> CacheView {
        CacheView { screen_lock: self.screen_lock.insert(user, key), ..self }
    }

    /// The cache without the screen-lock key of `user`.
    pub open spec fn forget_screen_lock_key(self, user: u32) -> CacheView {
        CacheView { screen_lock: self.screen_lock.remove(user), ..self }
    }

    /// The cache without any screen-lock key.
    pub open spec fn forget_screen_lock_keys(self) -> CacheView {
        CacheView { screen_lock: Map::empty(), ..self }
    }

    /// The cache without the keys of `user`.
    pub open spec fn forget_user(self, user: u32) -> CacheView {
        CacheView {
            per_boot: self.per_boot.remove(user),
            screen_lock: self.screen_lock.remove(user),
            ..self
        }
    }
}

/// The cache of the master keys that are unlocked.
pub struct SuperKeyManager {
    per_boot: HashMap<u32, SuperKey>,
    screen_lock: HashMap<u32, KeyMaterial>,
    key_index: HashMap<i64, u32>,
}

impl View for SuperKeyManager {
    type V = CacheView;

    closed spec fn view(&self) -> CacheView {
        CacheView {
            per_boot: self.per_boot@.map_values(|key: SuperKey| key@),
            screen_lock: self.screen_lock@.map_values(|key: KeyMaterial| key@),
            key_index: self.key_index@,
        }
    }
}

impl Default for SuperKeyManager {
    fn default() -> (skm: Self)
        ensures
            skm@ == CacheView::empty(),
    {
        SuperKeyManager::new()
    }
}

impl SuperKeyManager {
    /// The empty cache.
    pub fn new() -> (skm: Self)
        ensures
            skm@ == CacheView::empty(),
    {
        let skm = SuperKeyManager {
            per_boot: HashMap::new(),
            screen_lock: HashMap::new(),
            key_index: HashMap::new(),
        };
        assert(skm@.per_boot =~= Map::<u32, SuperKeyView>::empty());
        assert(skm@.screen_lock =~= Map::<u32, Seq<u8>>::empty());
        skm
    }

    /// Drops the screen-lock key of the user.
    pub fn forget_screen_lock_key_for_user(&mut self, user: u32)
        ensures
            final(self)@ == old(self)@.forget_screen_lock_key(user),
    {
        self.screen_lock.remove(&user);
        assert(self@.screen_lock =~= old(self)@.screen_lock.remove(user));
    }

    /// Drops the screen-lock keys of all users.
    pub fn forget_screen_lock_keys(&mut self)
        ensures
            final(self)@ == old(self)@.forget_screen_lock_keys(),
    {
        self.screen_lock.clear();
        assert(self@.screen_lock =~= Map::<u32, Seq<u8>>::empty());
    }

    /// Drops the keys of the user. An identifier that the index resolved
    /// through the user's slot does not resolve any more.
    pub fn forget_all_keys_for_user(&mut self, user: u32)
        ensures
            final(self)@ == old(self)@.forget_user(user),
    {
        self.per_boot.remove(&user);
        self.screen_lock.remove(&user);
        assert(self@.per_boot =~= old(self)@.per_boot.remove(user));
        assert(self@.screen_lock =~= old(self)@.screen_lock.remove(user));
    }

    /// Drops every key and the whole index: afterwards no identifier
    /// resolves.
    pub fn forget_all_keys(&mut self)
        ensures
            final(self)@ == CacheView::empty(),
            forall|key_id: i64| final(self)@.resolve(key_id) is None,
    {
        self.per_boot.clear();
        self.screen_lock.clear();
        self.key_index.clear();
        assert(self@.per_boot =~= Map::<u32, SuperKeyView>::empty());
        assert(self@.screen_lock =~= Map::<u32, Seq<u8>>::empty());
    }

    /// Makes `super_key` the per-boot key of the user and publishes it in
    /// the index under its identifier, both in one step.
    pub fn install_per_boot_key_for_user(&mut self, user: u32, super_key: SuperKey)
        ensures
            final(self)@ == old(self)@.install_per_boot_key(user, super_key@),
    {
        self.key_index.insert(super_key.id, user);
        self.per_boot.insert(user, super_key);
        assert(self@.per_boot =~= old(self)@.per_boot.insert(user, super_key@));
    }

    /// Makes `key` the screen-lock key of the user.
    pub fn install_screen_lock_key_for_user(&mut self, user: u32, key: KeyMaterial)
        ensures
            final(self)@ == old(self)@.install_screen_lock_key(user, key@),
    {
        self.screen_lock.insert(user, key);
        assert(self@.screen_lock =~= old(self)@.screen_lock.insert(user, key@));
    }

    /// The material of the master key with the given identifier, if the
    /// index resolves it. A reference that no slot backs any more is a miss.
    pub fn get_key(&self, key_id: &i64) -> (key: Option<KeyMaterial>)
        ensures
            material_view(key) == self@.resolve(*key_id),
    {
        match self.key_index.get(key_id) {
            Some(user) => match self.per_boot.get(user) {
                Some(super_key) => if super_key.id == *key_id {
                    Some(super_key.key.clone())
                } else {
                    None
                },
                None => None,
            },
            None => None,
        }
    }

    /// The per-boot key of the user, if one is cached.
    pub fn get_per_boot_key_by_user_id(&self, user_id: u32) -> (key: Option<SuperKey>)
        ensures
            super_key_view(key) == self@.per_boot_key(user_id),
    {
        match self.per_boot.get(&user_id) {
            Some(super_key) => Some(super_key.clone()),
            None => None,
        }
    }

    /// The screen-lock key of the user, if one is cached.
    pub fn get_screen_lock_key_by_user_id(&self, user_id: u32) -> (key: Option<KeyMaterial>)
        ensures
            material_view(key) == self@.screen_lock_key(user_id),
    {
        match self.screen_lock.get(&user_id) {
            Some(key) => Some(key.clone()),
            None => None,
        }
    }
}

/// Installing publishes: after a key became the per-boot key of a user,
/// the slot of the user holds it and its identifier resolves to its
/// material. Slot and index change in one step, so neither is ever seen
/// without the other.
pub proof fn lemma_install_publishes_key(cache: CacheView, user: u32, key: SuperKeyView)
    ensures
        cache.install_per_boot_key(user, key).per_boot_key(user) == Some(key),
        cache.install_per_boot_key(user, key).resolve(key.id) == Some(key.key),
{
}

/// The index owns nothing: an identifier resolves only to the material of
/// a per-boot key that the slot of some user holds under that identifier.
pub proof fn lemma_resolved_key_has_owner(cache: CacheView, key_id: i64)
    requires
        cache.resolve(key_id) is Some,
    ensures
        exists|user: u32| #[trigger]
            cache.per_boot_key(user) == Some(
                SuperKeyView { key: cache.resolve(key_id)->0, id: key_id },
            ),
{
    let user = cache.key_index[key_id];
    assert(cache.per_boot_key(user) == Some(
        SuperKeyView { key: cache.resolve(key_id)->0, id: key_id },
    ));
}

/// Forgetting everything clears the index: in the empty cache no
/// identifier resolves.
pub proof fn lemma_forget_all_clears_index(key_id: i64)
    ensures
        CacheView::empty().resolve(key_id) is None,
{
}

/// Forgetting a user drops the references through their slot: an
/// identifier that resolved through the slot of the user, if it resolved
/// at all, does not resolve after the user is forgotten; one that the
/// index refers to another slot resolves as before.
pub proof fn lemma_forget_user_drops_references(cache: CacheView, user: u32, key_id: i64)
    ensures
        (cache.resolve(key_id) is Some ==> cache.key_index[key_id] == user)
            ==> cache.forget_user(user).resolve(key_id) is None,
        cache.key_index.contains_key(key_id) && cache.key_index[key_id] != user
            ==> cache.forget_user(user).resolve(key_id) == cache.resolve(key_id),
        cache.forget_user(user).per_boot_key(user) is None,
{
}

} // verus!
