//! Utility functions of the service around the key hierarchy.

use vstd::prelude::*;
use vstd::slice::slice_subrange;
use crate::apc::{
    ApcCompatUiOptions, ApcResponseCode, APC_COMPAT_ERROR_ABORTED, APC_COMPAT_ERROR_CANCELLED,
    APC_COMPAT_ERROR_IGNORED, APC_COMPAT_ERROR_OK, APC_COMPAT_ERROR_OPERATION_PENDING,
    APC_COMPAT_ERROR_SYSTEM_ERROR, FLAG_UI_OPTION_INVERTED, FLAG_UI_OPTION_MAGNIFIED,
};
use crate::crypto::{
    bytes_result_view, may_aes_gcm_decrypt, may_aes_gcm_encrypt, sealed_result_view, Bytes,
    Crypto,
};
use crate::error::{Error, ErrorCode};
use crate::key_descriptor::KeyDescriptor;
use crate::keymint::{
    has_keymaster_blob_hw_prefix, starts_with_keymaster_blob_hw_prefix, Authorization,
    KeyCharacteristics, KeyMintDevice, KeyParameter, SecurityLevel, Tag,
    KEYMASTER_BLOB_PREFIX_LENGTH, KEY_MINT_V1,
};

pub mod listing;
pub mod watchdog;

pub use listing::{count_key_entries, list_key_entries};

verus! {

/// The permission that allows attesting device identifiers.
pub const READ_PRIVILEGED_PHONE_STATE: &'static str = "android.permission.READ_PRIVILEGED_PHONE_STATE";

/// The permission that allows attesting the device-unique identifier.
pub const REQUEST_UNIQUE_ID_ATTESTATION: &'static str = "android.permission.REQUEST_UNIQUE_ID_ATTESTATION";

/// The platform's permission controller.
pub trait PermissionController {
    /// Whether the process `pid` of `uid` holds `permission`.
    fn check_permission(&self, permission: &str, pid: i32, uid: i32) -> Result<bool, Error>;
}

/// The controller can answer `answer` when asked whether the process
/// `pid` of `uid` holds `permission`.
pub open spec fn may_check_permission<P: PermissionController>(
    controller: &P,
    permission: Seq<char>,
    pid: i32,
    uid: i32,
    answer: Result<bool, Error>,
) -> bool {
    exists|name: &str|
        #[trigger] call_ensures(P::check_permission, (controller, name, pid, uid), answer)
            && name@ == permission
}

/// What the answer of the permission controller means for an attestation
/// request: granted, refused, or the failure of the query itself.
pub open spec fn permission_verdict(answer: Result<bool, Error>) -> Result<(), Error> {
    match answer {
        Ok(true) => Ok(()),
        Ok(false) => Err(Error::Km(ErrorCode::CannotAttestIds)),
        Err(e) => Err(e),
    }
}

/// `answer` is a possible outcome of checking that the caller holds
/// `permission`: the controller is asked once, and its answer is the
/// verdict.
pub open spec fn may_check_android_permission<P: PermissionController>(
    controller: &P,
    permission: Seq<char>,
    calling_pid: i32,
    calling_uid: i32,
    answer: Result<(), Error>,
) -> bool {
    exists|held: Result<bool, Error>| #[trigger]
        may_check_permission(controller, permission, calling_pid, calling_uid, held) && answer
            == permission_verdict(held)
}

/// Asks the controller once for `permission` on behalf of the caller, and
/// turns its answer into a verdict.
pub fn check_android_permission<P: PermissionController>(
    controller: &P,
    permission: &str,
    calling_pid: i32,
    calling_uid: i32,
) -> (r: Result<(), Error>)
    ensures
        may_check_android_permission(controller, permission@, calling_pid, calling_uid, r),
{
    let held = controller.check_permission(permission, calling_pid, calling_uid);
    assert(may_check_permission(controller, permission@, calling_pid, calling_uid, held));
    match held {
        Ok(true) => Ok(()),
        Ok(false) => Err(Error::Km(ErrorCode::CannotAttestIds)),
        Err(e) => Err(e),
    }
}

/// Checks that the caller may attest device identifiers: that they hold
/// `READ_PRIVILEGED_PHONE_STATE`.
pub fn check_device_attestation_permissions<P: PermissionController>(
    controller: &P,
    calling_pid: i32,
    calling_uid: i32,
) -> (r: Result<(), Error>)
    ensures
        may_check_android_permission(
            controller,
            READ_PRIVILEGED_PHONE_STATE@,
            calling_pid,
            calling_uid,
            r,
        ),
{
    check_android_permission(controller, READ_PRIVILEGED_PHONE_STATE, calling_pid, calling_uid)
}

/// Checks that the caller may attest the device-unique identifier: that
/// they hold `REQUEST_UNIQUE_ID_ATTESTATION`.
pub fn check_unique_id_attestation_permissions<P: PermissionController>(
    controller: &P,
    calling_pid: i32,
    calling_uid: i32,
) -> (r: Result<(), Error>)
    ensures
        may_check_android_permission(
            controller,
            REQUEST_UNIQUE_ID_ATTESTATION@,
            calling_pid,
            calling_uid,
            r,
        ),
{
    check_android_permission(controller, REQUEST_UNIQUE_ID_ATTESTATION, calling_pid, calling_uid)
}

/// What the caller of a request is allowed to do is decided by an access
/// control layer, which needs the security context of the caller. Without
/// that context nothing can be checked, which is a system error.
pub open spec fn checked_with_calling_sid<Sid>(
    calling_sid: Option<&Sid>,
    answer: Result<(), Error>,
    verdict: spec_fn(&Sid, Result<(), Error>) -> bool,
) -> bool {
    match calling_sid {
        Some(sid) => verdict(sid, answer),
        None => answer == Err::<(), Error>(Error::sys_spec()),
    }
}

/// Checks that the caller has the given permission on the service. The
/// check itself is `check`, which is asked once, with the security context
/// of the caller.
pub fn check_keystore_permission<Sid, Perm, F: FnOnce(&Sid, Perm) -> Result<(), Error>>(
    calling_sid: Option<&Sid>,
    perm: Perm,
    check: F,
) -> (r: Result<(), Error>)
    requires
        forall|sid: &Sid| call_requires(check, (sid, perm)),
    ensures
        checked_with_calling_sid(
            calling_sid,
            r,
            |sid: &Sid, answer: Result<(), Error>| call_ensures(check, (sid, perm), answer),
        ),
{
    match calling_sid {
        Some(sid) => check(sid, perm),
        None => Err(Error::sys()),
    }
}

/// Checks that the caller may grant the given access to the given key.
/// The check itself is `check`, which is asked once, with the security
/// context of the caller.
pub fn check_grant_permission<
    Sid,
    PermSet,
    F: FnOnce(&Sid, PermSet, &KeyDescriptor) -> Result<(), Error>,
>(calling_sid: Option<&Sid>, access_vec: PermSet, key: &KeyDescriptor, check: F) -> (r: Result<
    (),
    Error,
>)
    requires
        forall|sid: &Sid| call_requires(check, (sid, access_vec, key)),
    ensures
        checked_with_calling_sid(
            calling_sid,
            r,
            |sid: &Sid, answer: Result<(), Error>|
                call_ensures(check, (sid, access_vec, key), answer),
        ),
{
    match calling_sid {
        Some(sid) => check(sid, access_vec, key),
        None => Err(Error::sys()),
    }
}

/// Checks that the caller has the given permission on the given key. The
/// check itself is `check`, which is asked once, with the uid and the
/// security context of the caller.
pub fn check_key_permission<
    Sid,
    Perm,
    PermSet,
    F: FnOnce(u32, &Sid, Perm, &KeyDescriptor, &Option<PermSet>) -> Result<(), Error>,
>(
    calling_uid: u32,
    calling_sid: Option<&Sid>,
    perm: Perm,
    key: &KeyDescriptor,
    access_vector: &Option<PermSet>,
    check: F,
) -> (r: Result<(), Error>)
    requires
        forall|sid: &Sid| call_requires(check, (calling_uid, sid, perm, key, access_vector)),
    ensures
        checked_with_calling_sid(
            calling_sid,
            r,
            |sid: &Sid, answer: Result<(), Error>|
                call_ensures(check, (calling_uid, sid, perm, key, access_vector), answer),
        ),
{
    match calling_sid {
        Some(sid) => check(calling_uid, sid, perm, key, access_vector),
        None => Err(Error::sys()),
    }
}

/// An object that can encrypt and decrypt with AES-GCM. The object
/// provides the key material and selects the variant of the cipher.
pub trait AesGcm {
    /// Deciphers `data` with the initialization vector `iv` and the
    /// authentication tag `tag`.
    fn decrypt(&self, data: &[u8], iv: &[u8], tag: &[u8]) -> Result<Vec<u8>, Error>;

    /// Encrypts `plaintext`; returns the ciphertext, the initialization
    /// vector and the authentication tag.
    fn encrypt(&self, plaintext: &[u8]) -> Result<(Vec<u8>, Vec<u8>, Vec<u8>), Error>;
}

/// Marks an object as an AES-GCM key.
pub trait AesGcmKey {
    /// Provides access to the raw key material.
    fn key(&self) -> &[u8];
}

/// A key together with the engine that encrypts and decrypts with it.
pub struct WithEngine<'a, K: AesGcmKey, C: Crypto> {
    pub key: &'a K,
    pub crypto: &'a C,
}

/// `material` is what the key can hand out as its raw material.
pub open spec fn may_be_key_material<K: AesGcmKey>(key: &K, material: Seq<u8>) -> bool {
    exists|bytes: &[u8]| #[trigger] call_ensures(K::key, (key,), bytes) && bytes@ == material
}

impl<'a, K: AesGcmKey, C: Crypto> AesGcm for WithEngine<'a, K, C> {
    fn decrypt(&self, data: &[u8], iv: &[u8], tag: &[u8]) -> (r: Result<Vec<u8>, Error>)
        ensures
            exists|material: Seq<u8>| #[trigger]
                may_be_key_material(self.key, material) && may_aes_gcm_decrypt(
                    self.crypto,
                    data@,
                    iv@,
                    tag@,
                    material,
                    bytes_result_view(r),
                ),
    {
        let material = self.key.key();
        assert(may_be_key_material(self.key, material@));
        self.crypto.aes_gcm_decrypt(data, iv, tag, material)
    }

    fn encrypt(&self, plaintext: &[u8]) -> (r: Result<(Vec<u8>, Vec<u8>, Vec<u8>), Error>)
        ensures
            exists|material: Seq<u8>| #[trigger]
                may_be_key_material(self.key, material) && may_aes_gcm_encrypt(
                    self.crypto,
                    plaintext@,
                    material,
                    sealed_result_view(r),
                ),
    {
        let material = self.key.key();
        assert(may_be_key_material(self.key, material@));
        self.crypto.aes_gcm_encrypt(plaintext, material)
    }
}

/// The time of a clock in milliseconds, from its seconds and the
/// nanoseconds of the second that has begun. The time must fit the
/// result.
pub fn timespec_to_milliseconds(tv_sec: i64, tv_nsec: i64) -> (milliseconds: i64)
    requires
        0 <= tv_nsec,
        i64::MIN <= tv_sec * 1000,
        tv_sec * 1000 + tv_nsec / 1_000_000 <= i64::MAX,
    ensures
        milliseconds == tv_sec * 1000 + tv_nsec / 1_000_000,
{
    tv_sec * 1000 + tv_nsec / 1_000_000
}

/// Offset between the uid blocks of two consecutive users.
pub const AID_USER_OFFSET: u32 = 100000;

/// The uid of the credential store itself, for keys that it makes for its
/// own use.
pub const AID_KEYSTORE: u32 = 1017;

/// Extracts the user from a uid.
pub fn uid_to_android_user(uid: u32) -> (user: u32)
    ensures
        user == uid / AID_USER_OFFSET,
{
    uid / AID_USER_OFFSET
}

/// Whether a tag asks for the attestation of an identifier of the device.
pub fn is_device_id_attestation_tag(tag: Tag) -> (b: bool)
    ensures
        b == (tag is AttestationIdImei || tag is AttestationIdMeid || tag is AttestationIdSerial
            || tag is DeviceUniqueAttestation || tag is AttestationIdSecondImei),
{
    match tag {
        Tag::AttestationIdImei
        | Tag::AttestationIdMeid
        | Tag::AttestationIdSerial
        | Tag::DeviceUniqueAttestation
        | Tag::AttestationIdSecondImei => true,
        Tag::Other(_) => false,
    }
}

/// The parameters of one security level, each with that level.
pub open spec fn parameters_at_level<V>(
    authorizations: Seq<V>,
    security_level: SecurityLevel,
) -> Seq<(V, SecurityLevel)> {
    Seq::new(authorizations.len(), |i: int| (authorizations[i], security_level))
}

/// The parameters of all the given characteristics, in their order, each
/// with the security level of the characteristics that it came in.
pub open spec fn internal_parameters<V>(key_characteristics: Seq<KeyCharacteristics<V>>) -> Seq<
    (V, SecurityLevel),
>
    decreases key_characteristics.len(),
{
    if key_characteristics.len() == 0 {
        Seq::empty()
    } else {
        internal_parameters(key_characteristics.drop_last()) + parameters_at_level(
            key_characteristics.last().authorizations@,
            key_characteristics.last().security_level,
        )
    }
}

/// The views of a sequence of key parameters.
pub open spec fn parameter_views<V>(parameters: Seq<KeyParameter<V>>) -> Seq<(V, SecurityLevel)> {
    Seq::new(parameters.len(), |i: int| parameters[i]@)
}

/// Converts key characteristics as the engine reports them into the key
/// parameters that the service keeps.
pub fn key_characteristics_to_internal<V>(key_characteristics: Vec<KeyCharacteristics<V>>) -> (r:
    Vec<KeyParameter<V>>)
    ensures
        parameter_views(r@) == internal_parameters(key_characteristics@),
{
    let mut result: Vec<KeyParameter<V>> = Vec::new();
    let ghost all = key_characteristics@;
    assert(all.take(0) =~= Seq::empty());
    for characteristics in outer: key_characteristics
        invariant
            outer.seq() == all,
            parameter_views(result@) == internal_parameters(all.take(outer.index() as int)),
    {
        let sec_level = characteristics.security_level;
        let ghost done = parameter_views(result@);
        let ghost authorizations = characteristics.authorizations@;
        for authorization in inner: characteristics.authorizations
            invariant
                inner.seq() == authorizations,
                parameter_views(result@) == done + parameters_at_level(
                    authorizations.take(inner.index() as int),
                    sec_level,
                ),
        {
            let ghost before = result@;
            let parameter = KeyParameter::new(authorization, sec_level);
            result.push(parameter);
            proof {
                let taken = authorizations.take(inner.index() as int);
                assert(authorizations.take(inner.index() + 1) =~= taken.push(authorization));
                assert(parameter_views(result@) =~= parameter_views(before).push(
                    (authorization, sec_level),
                ));
                assert(parameters_at_level(taken.push(authorization), sec_level)
                    =~= parameters_at_level(taken, sec_level).push((authorization, sec_level)));
                assert(parameter_views(result@) =~= done + parameters_at_level(
                    authorizations.take(inner.index() + 1),
                    sec_level,
                ));
            }
        }
        proof {
            let next = all.take(outer.index() + 1);
            assert(authorizations.take(authorizations.len() as int) == authorizations);
            assert(next.drop_last() == all.take(outer.index() as int));
            assert(next.last() == characteristics);
        }
    }
    assert(all.take(all.len() as int) == all);
    result
}

/// The parameters as clients see them.
pub open spec fn authorizations_of<V>(parameters: Seq<KeyParameter<V>>) -> Seq<Authorization<V>> {
    Seq::new(
        parameters.len(),
        |i: int| Authorization { security_level: parameters[i]@.1, key_parameter: parameters[i]@.0 },
    )
}

/// Converts key parameters as the service keeps them into the
/// authorizations that clients see.
pub fn key_parameters_to_authorizations<V>(parameters: Vec<KeyParameter<V>>) -> (r: Vec<
    Authorization<V>,
>)
    ensures
        r@ == authorizations_of(parameters@),
{
    let mut result: Vec<Authorization<V>> = Vec::new();
    let ghost all = parameters@;
    for parameter in it: parameters
        invariant
            it.seq() == all,
            result@ == authorizations_of(all.take(it.index() as int)),
    {
        result.push(parameter.into_authorization());
        assert(result@ =~= authorizations_of(all.take(it.index() + 1)));
    }
    assert(all.take(all.len() as int) == all);
    result
}

/// The result of an operation of the engine, with the upgraded key blob
/// where the blob was upgraded on the way.
pub type Performed<T> = Result<(T, Option<Seq<u8>>), Error>;

/// The view of what an operation with an upgrade returned.
pub open spec fn performed_result_view<T>(r: Result<(T, Option<Vec<u8>>), Error>) -> Performed<T> {
    match r {
        Ok((value, Some(upgraded_blob))) => Ok((value, Some(upgraded_blob@))),
        Ok((value, None)) => Ok((value, None)),
        Err(e) => Err(e),
    }
}

/// The engine can answer the upgrade of `key_blob` with `answer`.
pub open spec fn may_upgrade_key<P, D: KeyMintDevice<P>>(
    km_dev: &D,
    key_blob: Seq<u8>,
    upgrade_params: &[P],
    answer: Bytes,
) -> bool {
    exists|blob: &[u8], out: Result<Vec<u8>, Error>|
        #[trigger] call_ensures(D::upgrade_key, (km_dev, blob, upgrade_params), out) && blob@
            == key_blob && bytes_result_view(out) == answer
}

/// The operation can answer `answer` when it is given `key_blob`.
pub open spec fn may_perform<T, KmOp: Fn(&[u8]) -> Result<T, Error>>(
    km_op: KmOp,
    key_blob: Seq<u8>,
    answer: Result<T, Error>,
) -> bool {
    exists|blob: &[u8]| #[trigger] call_ensures(km_op, (blob,), answer) && blob@ == key_blob
}

/// The handler can answer `answer` when it is given the upgraded blob.
pub open spec fn may_handle_new_blob<NewBlobHandler: FnOnce(&[u8]) -> Result<(), Error>>(
    new_blob_handler: NewBlobHandler,
    upgraded_blob: Seq<u8>,
    answer: Result<(), Error>,
) -> bool {
    exists|blob: &[u8]|
        #[trigger] call_ensures(new_blob_handler, (blob,), answer) && blob@ == upgraded_blob
}

/// What an operation on an upgraded blob gives: its value comes with the
/// upgraded blob.
pub open spec fn performed_after_upgrade<T>(
    performed: Result<T, Error>,
    upgraded_blob: Seq<u8>,
) -> Performed<T> {
    match performed {
        Ok(value) => Ok((value, Some(upgraded_blob))),
        Err(e) => Err(e),
    }
}

/// What an operation gives where no upgrade takes place: its value comes
/// without a blob.
pub open spec fn performed_without_upgrade<T>(performed: Result<T, Error>) -> Performed<T> {
    match performed {
        Ok(value) => Ok((value, None)),
        Err(e) => Err(e),
    }
}

/// `answer` is a possible outcome of the operation on the upgraded blob.
pub open spec fn may_perform_after_upgrade<T, KmOp: Fn(&[u8]) -> Result<T, Error>>(
    km_op: KmOp,
    upgraded_blob: Seq<u8>,
    answer: Performed<T>,
) -> bool {
    exists|performed: Result<T, Error>| #[trigger]
        may_perform(km_op, upgraded_blob, performed) && answer == performed_after_upgrade(
            performed,
            upgraded_blob,
        )
}

/// `answer` is a possible outcome of handing the upgraded blob to the
/// handler and then to the operation: the operation runs only where the
/// handler succeeded.
pub open spec fn may_handle_and_perform<
    T,
    KmOp: Fn(&[u8]) -> Result<T, Error>,
    NewBlobHandler: FnOnce(&[u8]) -> Result<(), Error>,
>(
    km_op: KmOp,
    new_blob_handler: NewBlobHandler,
    upgraded_blob: Seq<u8>,
    answer: Performed<T>,
) -> bool {
    exists|handled: Result<(), Error>| #[trigger]
        may_handle_new_blob(new_blob_handler, upgraded_blob, handled) && match handled {
            Ok(_) => may_perform_after_upgrade(km_op, upgraded_blob, answer),
            Err(e) => answer == Err::<(T, Option<Seq<u8>>), Error>(e),
        }
}

/// `answer` is a possible outcome of upgrading `key_blob` and then
/// running the handler and the operation on the upgraded blob.
pub open spec fn may_upgrade_keyblob_and_perform_op<
    T,
    P,
    D: KeyMintDevice<P>,
    KmOp: Fn(&[u8]) -> Result<T, Error>,
    NewBlobHandler: FnOnce(&[u8]) -> Result<(), Error>,
>(
    km_dev: &D,
    key_blob: Seq<u8>,
    upgrade_params: &[P],
    km_op: KmOp,
    new_blob_handler: NewBlobHandler,
    answer: Performed<T>,
) -> bool {
    exists|upgraded: Bytes| #[trigger]
        may_upgrade_key(km_dev, key_blob, upgrade_params, upgraded) && match upgraded {
            Ok(upgraded_blob) => may_handle_and_perform(
                km_op,
                new_blob_handler,
                upgraded_blob,
                answer,
            ),
            Err(e) => answer == Err::<(T, Option<Seq<u8>>), Error>(e),
        }
}

/// Whether a blob that the engine did not recognise is one of its
/// predecessor: the engine is no wrapper around the predecessor, and the
/// blob has the prefix that such a wrapper put in front of hardware-backed
/// blobs.
pub open spec fn is_keymaster_blob_for_keymint(km_dev_version: i32, key_blob: Seq<u8>) -> bool {
    km_dev_version >= KEY_MINT_V1 && has_keymaster_blob_hw_prefix(key_blob)
}

/// What follows the first attempt of the operation: a blob that requires
/// an upgrade is upgraded; a blob of the predecessor that the engine did
/// not recognise is upgraded without its prefix; anything else is the
/// outcome.
pub open spec fn after_first_attempt<
    T,
    P,
    D: KeyMintDevice<P>,
    KmOp: Fn(&[u8]) -> Result<T, Error>,
    NewBlobHandler: FnOnce(&[u8]) -> Result<(), Error>,
>(
    km_dev: &D,
    km_dev_version: i32,
    key_blob: Seq<u8>,
    upgrade_params: &[P],
    km_op: KmOp,
    new_blob_handler: NewBlobHandler,
    first: Result<T, Error>,
    answer: Performed<T>,
) -> bool {
    if first matches Err(Error::Km(ErrorCode::KeyRequiresUpgrade)) {
        may_upgrade_keyblob_and_perform_op(
            km_dev,
            key_blob,
            upgrade_params,
            km_op,
            new_blob_handler,
            answer,
        )
    } else if first matches Err(Error::Km(ErrorCode::InvalidKeyBlob))
        && is_keymaster_blob_for_keymint(km_dev_version, key_blob) {
        may_upgrade_keyblob_and_perform_op(
            km_dev,
            key_blob.skip(KEYMASTER_BLOB_PREFIX_LENGTH as int),
            upgrade_params,
            km_op,
            new_blob_handler,
            answer,
        )
    } else {
        answer == performed_without_upgrade(first)
    }
}

/// `answer` is a possible outcome of running the operation on a key blob
/// that is upgraded on demand.
pub open spec fn may_upgrade_keyblob_if_required<
    T,
    P,
    D: KeyMintDevice<P>,
    KmOp: Fn(&[u8]) -> Result<T, Error>,
    NewBlobHandler: FnOnce(&[u8]) -> Result<(), Error>,
>(
    km_dev: &D,
    km_dev_version: i32,
    key_blob: Seq<u8>,
    upgrade_params: &[P],
    km_op: KmOp,
    new_blob_handler: NewBlobHandler,
    answer: Performed<T>,
) -> bool {
    exists|first: Result<T, Error>| #[trigger]
        may_perform(km_op, key_blob, first) && after_first_attempt(
            km_dev,
            km_dev_version,
            key_blob,
            upgrade_params,
            km_op,
            new_blob_handler,
            first,
            answer,
        )
}

/// Upgrades a key blob, then hands the upgraded blob to the handler and
/// to the operation. On success the value of the operation comes with the
/// upgraded blob.
pub fn upgrade_keyblob_and_perform_op<T, P, D, KmOp, NewBlobHandler>(
    km_dev: &D,
    key_blob: &[u8],
    upgrade_params: &[P],
    km_op: KmOp,
    new_blob_handler: NewBlobHandler,
) -> (r: Result<(T, Option<Vec<u8>>), Error>) where
    D: KeyMintDevice<P>,
    KmOp: Fn(&[u8]) -> Result<T, Error>,
    NewBlobHandler: FnOnce(&[u8]) -> Result<(), Error>,

    requires
        forall|blob: &[u8]| call_requires(km_op, (blob,)),
        forall|blob: &[u8]| call_requires(new_blob_handler, (blob,)),
    ensures
        may_upgrade_keyblob_and_perform_op(
            km_dev,
            key_blob@,
            upgrade_params,
            km_op,
            new_blob_handler,
            performed_result_view(r),
        ),
{
    let upgraded = km_dev.upgrade_key(key_blob, upgrade_params);
    assert(may_upgrade_key(km_dev, key_blob@, upgrade_params, bytes_result_view(upgraded)));
    match upgraded {
        Ok(upgraded_blob) => {
            let handled = new_blob_handler(upgraded_blob.as_slice());
            assert(may_handle_new_blob(new_blob_handler, upgraded_blob@, handled));
            match handled {
                Ok(_) => {
                    let performed = km_op(upgraded_blob.as_slice());
                    assert(may_perform(km_op, upgraded_blob@, performed));
                    match performed {
                        Ok(value) => Ok((value, Some(upgraded_blob))),
                        Err(e) => Err(e),
                    }
                },
                Err(e) => Err(e),
            }
        },
        Err(e) => Err(e),
    }
}

/// Runs an operation of the engine on a key blob, and upgrades the blob on
/// demand. Where the operation answers that the blob requires an upgrade,
/// the blob is upgraded, the handler gets the upgraded blob, and the
/// operation runs a second time, on the upgraded blob.
///
/// Some devices replaced the predecessor of the engine by the engine
/// itself. Their old blobs carry the prefix of the wrapper that stood
/// around the predecessor, which the engine does not expect. So where the
/// engine, being no wrapper, does not recognise a blob that had been
/// hardware-backed under the wrapper, the prefix is stripped and the rest
/// is upgraded.
pub fn upgrade_keyblob_if_required_with<T, P, D, KmOp, NewBlobHandler>(
    km_dev: &D,
    km_dev_version: i32,
    key_blob: &[u8],
    upgrade_params: &[P],
    km_op: KmOp,
    new_blob_handler: NewBlobHandler,
) -> (r: Result<(T, Option<Vec<u8>>), Error>) where
    D: KeyMintDevice<P>,
    KmOp: Fn(&[u8]) -> Result<T, Error>,
    NewBlobHandler: FnOnce(&[u8]) -> Result<(), Error>,

    requires
        forall|blob: &[u8]| call_requires(km_op, (blob,)),
        forall|blob: &[u8]| call_requires(new_blob_handler, (blob,)),
    ensures
        may_upgrade_keyblob_if_required(
            km_dev,
            km_dev_version,
            key_blob@,
            upgrade_params,
            km_op,
            new_blob_handler,
            performed_result_view(r),
        ),
{
    let first = km_op(key_blob);
    assert(may_perform(km_op, key_blob@, first));
    match first {
        Err(Error::Km(ErrorCode::KeyRequiresUpgrade)) => upgrade_keyblob_and_perform_op(
            km_dev,
            key_blob,
            upgrade_params,
            km_op,
            new_blob_handler,
        ),
        Err(Error::Km(ErrorCode::InvalidKeyBlob)) => {
            if km_dev_version >= KEY_MINT_V1 && starts_with_keymaster_blob_hw_prefix(key_blob) {
                let inner_keyblob = slice_subrange(
                    key_blob,
                    KEYMASTER_BLOB_PREFIX_LENGTH,
                    key_blob.len(),
                );
                upgrade_keyblob_and_perform_op(
                    km_dev,
                    inner_keyblob,
                    upgrade_params,
                    km_op,
                    new_blob_handler,
                )
            } else {
                Err(Error::Km(ErrorCode::InvalidKeyBlob))
            }
        },
        Ok(value) => Ok((value, None)),
        Err(e) => Err(e),
    }
}

/// Converts a code of the compatibility layer of protected confirmation
/// into a response code of the service. A code that the layer does not
/// define is a system error.
pub fn compat_2_response_code(rc: u32) -> (code: ApcResponseCode)
    ensures
        code == if rc == APC_COMPAT_ERROR_OK {
            ApcResponseCode::Okay
        } else if rc == APC_COMPAT_ERROR_CANCELLED {
            ApcResponseCode::Cancelled
        } else if rc == APC_COMPAT_ERROR_ABORTED {
            ApcResponseCode::Aborted
        } else if rc == APC_COMPAT_ERROR_OPERATION_PENDING {
            ApcResponseCode::OperationPending
        } else if rc == APC_COMPAT_ERROR_IGNORED {
            ApcResponseCode::Ignored
        } else {
            ApcResponseCode::SystemError
        },
{
    if rc == APC_COMPAT_ERROR_OK {
        ApcResponseCode::Okay
    } else if rc == APC_COMPAT_ERROR_CANCELLED {
        ApcResponseCode::Cancelled
    } else if rc == APC_COMPAT_ERROR_ABORTED {
        ApcResponseCode::Aborted
    } else if rc == APC_COMPAT_ERROR_OPERATION_PENDING {
        ApcResponseCode::OperationPending
    } else if rc == APC_COMPAT_ERROR_IGNORED {
        ApcResponseCode::Ignored
    } else if rc == APC_COMPAT_ERROR_SYSTEM_ERROR {
        ApcResponseCode::SystemError
    } else {
        ApcResponseCode::SystemError
    }
}

/// Converts the display flags of the service into the options of the
/// compatibility layer: each option is on where its flag is set.
pub fn ui_opts_2_compat(opt: i32) -> (options: ApcCompatUiOptions)
    ensures
        options.inverted == ((opt & FLAG_UI_OPTION_INVERTED) != 0),
        options.magnified == ((opt & FLAG_UI_OPTION_MAGNIFIED) != 0),
{
    ApcCompatUiOptions {
        inverted: (opt & FLAG_UI_OPTION_INVERTED) != 0,
        magnified: (opt & FLAG_UI_OPTION_MAGNIFIED) != 0,
    }
}

} // verus!
