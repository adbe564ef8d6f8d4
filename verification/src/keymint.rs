//! What the library reads of the interface of the hardware crypto engine:
//! tags, security levels, key characteristics, and the one call that
//! upgrades a key blob.

use vstd::prelude::*;
use crate::error::Error;

verus! {

/// The tag of a key parameter. Only the tags that the library tells apart
/// have a variant of their own.
#[derive(Clone, Copy, Debug, PartialEq, Eq, Structural)]
pub enum Tag {
    AttestationIdSerial,
    AttestationIdImei,
    AttestationIdMeid,
    DeviceUniqueAttestation,
    AttestationIdSecondImei,
    /// Any other tag, by its number.
    Other(i32),
}

/// Where a key parameter is enforced.
#[derive(Clone, Copy, Debug, PartialEq, Eq, Structural)]
pub enum SecurityLevel {
    Software,
    TrustedEnvironment,
    Strongbox,
    Keystore,
}

/// The characteristics of a key as the engine reports them: the parameters
/// that one security level enforces.
#[derive(Debug)]
pub struct KeyCharacteristics<V> {
    pub security_level: SecurityLevel,
    pub authorizations: Vec<V>,
}

/// A key parameter as the service keeps it: a value, and the security
/// level that enforces it.
#[derive(Debug)]
pub struct KeyParameter<V> {
    value: V,
    security_level: SecurityLevel,
}

/// A key parameter as clients see it.
#[derive(Debug)]
pub struct Authorization<V> {
    pub security_level: SecurityLevel,
    pub key_parameter: V,
}

impl<V> View for KeyParameter<V> {
    type V = (V, SecurityLevel);

    closed spec fn view(&self) -> (V, SecurityLevel) {
        (self.value, self.security_level)
    }
}

impl<V> KeyParameter<V> {
    /// The parameter with the given value, enforced at the given level.
    pub fn new(value: V, security_level: SecurityLevel) -> (parameter: Self)
        ensures
            parameter@ == (value, security_level),
    {
        KeyParameter { value, security_level }
    }

    /// The value of the parameter.
    pub fn key_parameter_value(&self) -> (value: &V)
        ensures
            *value == self@.0,
    {
        &self.value
    }

    /// The security level that enforces the parameter.
    pub fn security_level(&self) -> (security_level: SecurityLevel)
        ensures
            security_level == self@.1,
    {
        self.security_level
    }

    /// The parameter as clients see it.
    pub fn into_authorization(self) -> (authorization: Authorization<V>)
        ensures
            authorization.key_parameter == self@.0,
            authorization.security_level == self@.1,
    {
        Authorization { security_level: self.security_level, key_parameter: self.value }
    }
}

/// The hardware crypto engine, as far as the library calls it. `P` is the
/// type of the parameters of an upgrade, which the library only hands on.
pub trait KeyMintDevice<P> {
    /// Upgrades a key blob to the current version of the engine.
    fn upgrade_key(&self, key_blob_to_upgrade: &[u8], upgrade_params: &[P]) -> Result<
        Vec<u8>,
        Error,
    >;
}

/// The first version of the engine that is no wrapper around its
/// predecessor.
pub const KEY_MINT_V1: i32 = 100;

/// Length of the prefix that marks a key blob of the predecessor.
pub const KEYMASTER_BLOB_PREFIX_LENGTH: usize = 8;

/// The prefix that the wrapper around the predecessor puts in front of a
/// hardware-backed key blob: the bytes of `pKMblob`, and a zero.
pub open spec fn keymaster_blob_hw_prefix() -> Seq<u8> {
    seq![0x70u8, 0x4bu8, 0x4du8, 0x62u8, 0x6cu8, 0x6fu8, 0x62u8, 0x00u8]
}

/// Whether a key blob starts with the prefix of the predecessor's
/// hardware-backed blobs.
pub open spec fn has_keymaster_blob_hw_prefix(key_blob: Seq<u8>) -> bool {
    key_blob.len() >= KEYMASTER_BLOB_PREFIX_LENGTH && key_blob.subrange(
        0,
        KEYMASTER_BLOB_PREFIX_LENGTH as int,
    ) == keymaster_blob_hw_prefix()
}

/// Whether a key blob starts with the prefix of the predecessor's
/// hardware-backed blobs.
pub fn starts_with_keymaster_blob_hw_prefix(key_blob: &[u8]) -> (b: bool)
    ensures
        b == has_keymaster_blob_hw_prefix(key_blob@),
{
    if key_blob.len() < KEYMASTER_BLOB_PREFIX_LENGTH {
        return false;
    }
    let b = key_blob[0] == 0x70 && key_blob[1] == 0x4b && key_blob[2] == 0x4d && key_blob[3]
        == 0x62 && key_blob[4] == 0x6c && key_blob[5] == 0x6f && key_blob[6] == 0x62
        && key_blob[7] == 0x00;
    proof {
        let head = key_blob@.subrange(0, KEYMASTER_BLOB_PREFIX_LENGTH as int);
        if b {
            assert(head =~= keymaster_blob_hw_prefix());
        } else {
            assert(head[0] == key_blob@[0] && head[1] == key_blob@[1] && head[2] == key_blob@[2]
                && head[3] == key_blob@[3] && head[4] == key_blob@[4] && head[5] == key_blob@[5]
                && head[6] == key_blob@[6] && head[7] == key_blob@[7]);
        }
    }
    b
}

} // verus!
