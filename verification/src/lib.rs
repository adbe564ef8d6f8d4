//! The key-encryption-key hierarchy of a credential store, and the state
//! of each user with respect to their lock screen secret.
//!
//! Every stored key can be wrapped with the master key of its user, and
//! the master key is itself wrapped with a key derived from the user's
//! secret. `super_key` holds the cache of the unlocked master keys, the
//! states of a user and the transitions between them, and the wrapping of
//! ordinary keys; `key_material` holds the bytes of a key while they are
//! in memory. `utils` holds what the service around the hierarchy
//! computes: permission verdicts, the upgrade of key blobs on demand, and
//! the listing of keys.
//!
//! The library does no input or output and no cryptography of its own.
//! It asks its collaborators: the crypto engine (`crypto`), the
//! persistent store (`database`), the importer of an earlier storage
//! format (`legacy`), and the hardware engine (`keymint`). Each is a trait
//! that the caller implements, and of whose answers nothing is assumed.
//! The contract of a function that asks a collaborator is a relation,
//! named `may_...`: it says which requests are made, and what the
//! function returns and changes for each possible answer.
//! Properties of an engine, such as that its decryption inverts its
//! encryption, appear only as premises of the laws that need them.

pub mod apc;
pub mod crypto;
pub mod database;
pub mod error;
pub mod key_descriptor;
pub mod key_material;
pub mod keymint;
pub mod legacy;
pub mod super_key;
pub mod utils;
