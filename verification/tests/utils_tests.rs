use std::cell::{Cell, RefCell};

use keystore2::apc::{ApcCompatUiOptions, ApcResponseCode};
use keystore2::crypto::Crypto;
use keystore2::database::Domain;
use keystore2::error::{Error, ErrorCode, ResponseCode};
use keystore2::key_descriptor::KeyDescriptor;
use keystore2::key_material::KeyMaterial;
use keystore2::keymint::{
    starts_with_keymaster_blob_hw_prefix, Authorization, KeyCharacteristics, KeyMintDevice,
    KeyParameter, SecurityLevel, Tag, KEY_MINT_V1,
};
use keystore2::super_key::SuperKey;
use keystore2::utils::listing::{
    estimate_safe_amount_to_return, merge_and_filter_key_entry_lists, RESPONSE_SIZE_LIMIT,
};
use keystore2::utils::watchdog::{watch_millis, watch_millis_with};
use keystore2::utils::{
    check_android_permission, check_device_attestation_permissions, check_grant_permission,
    check_key_permission, check_keystore_permission, check_unique_id_attestation_permissions,
    compat_2_response_code, count_key_entries, is_device_id_attestation_tag,
    key_characteristics_to_internal, key_parameters_to_authorizations, list_key_entries,
    timespec_to_milliseconds, ui_opts_2_compat, uid_to_android_user,
    upgrade_keyblob_and_perform_op,
    upgrade_keyblob_if_required_with, AesGcm, AesGcmKey, PermissionController, WithEngine,
    AID_KEYSTORE, AID_USER_OFFSET, READ_PRIVILEGED_PHONE_STATE, REQUEST_UNIQUE_ID_ATTESTATION,
};

// ---------------------------------------------------------------------
// Permissions of the platform.

/// A permission controller that grants exactly one permission, and notes
/// what it was asked.
struct Grants {
    granted: &'static str,
    asked: RefCell<Vec<(String, i32, i32)>>,
}

impl Grants {
    fn only(granted: &'static str) -> Self {
        Grants { granted, asked: RefCell::new(Vec::new()) }
    }
}

impl PermissionController for Grants {
    fn check_permission(&self, permission: &str, pid: i32, uid: i32) -> Result<bool, Error> {
        self.asked.borrow_mut().push((permission.to_string(), pid, uid));
        Ok(permission == self.granted)
    }
}

struct Unreachable;

impl PermissionController for Unreachable {
    fn check_permission(&self, _permission: &str, _pid: i32, _uid: i32) -> Result<bool, Error> {
        Err(Error::Binder(-32))
    }
}

#[test]
fn check_device_attestation_permissions_test() {
    let r = check_device_attestation_permissions(&Grants::only("none"), 10, 10_017).or_else(
        |error| {
            match error {
                // Expected: the caller might not be allowed to attest device ids.
                Error::Km(ErrorCode::CannotAttestIds) => Ok(()),
                // Other errors are unexpected.
                _ => Err(error),
            }
        },
    );
    assert_eq!(r, Ok(()));
}

#[test]
fn device_attestation_asks_for_the_phone_state_permission() {
    let controller = Grants::only("android.permission.READ_PRIVILEGED_PHONE_STATE");
    assert_eq!(check_device_attestation_permissions(&controller, 7, 10_123), Ok(()));
    assert_eq!(
        *controller.asked.borrow(),
        vec![("android.permission.READ_PRIVILEGED_PHONE_STATE".to_string(), 7, 10_123)]
    );
    assert_eq!(
        check_unique_id_attestation_permissions(&controller, 7, 10_123),
        Err(Error::Km(ErrorCode::CannotAttestIds))
    );
    assert_eq!(READ_PRIVILEGED_PHONE_STATE, "android.permission.READ_PRIVILEGED_PHONE_STATE");
}

#[test]
fn unique_id_attestation_asks_for_its_own_permission() {
    let controller = Grants::only("android.permission.REQUEST_UNIQUE_ID_ATTESTATION");
    assert_eq!(check_unique_id_attestation_permissions(&controller, 1, 2), Ok(()));
    assert_eq!(
        check_device_attestation_permissions(&controller, 1, 2),
        Err(Error::Km(ErrorCode::CannotAttestIds))
    );
    assert_eq!(controller.asked.borrow()[0].0, REQUEST_UNIQUE_ID_ATTESTATION);
}

#[test]
fn failing_permission_controller_is_reported() {
    assert_eq!(check_device_attestation_permissions(&Unreachable, 1, 2), Err(Error::Binder(-32)));
    assert_eq!(check_android_permission(&Unreachable, "any", 1, 2), Err(Error::Binder(-32)));
    assert_eq!(check_android_permission(&Grants::only("any"), "any", 1, 2), Ok(()));
}

// ---------------------------------------------------------------------
// Permissions of the service.

#[test]
fn permission_checks_need_the_calling_sid() {
    let key = KeyDescriptor { domain: Domain::App, nspace: 0, alias: None, blob: None };
    let no_sid: Option<&String> = None;
    let sys = Err(Error::Rc(ResponseCode::SystemError));
    assert_eq!(Error::sys(), Error::Rc(ResponseCode::SystemError));

    assert_eq!(check_keystore_permission(no_sid, 1u8, |_: &String, _: u8| Ok(())), sys);
    assert_eq!(
        check_grant_permission(no_sid, 3u32, &key, |_: &String, _: u32, _: &KeyDescriptor| Ok(())),
        sys
    );
    assert_eq!(
        check_key_permission(
            10_017,
            no_sid,
            1u8,
            &key,
            &Some(3u32),
            |_: u32, _: &String, _: u8, _: &KeyDescriptor, _: &Option<u32>| Ok(()),
        ),
        sys
    );
}

#[test]
fn permission_checks_hand_their_arguments_on() {
    let key = KeyDescriptor {
        domain: Domain::Selinux,
        nspace: 7,
        alias: Some("key".to_string()),
        blob: None,
    };
    let sid = "u:r:app:s0".to_string();
    let denied = Err(Error::Rc(ResponseCode::Other(6)));

    let r = check_keystore_permission(Some(&sid), 4u8, |s: &String, perm: u8| {
        assert_eq!(s, "u:r:app:s0");
        assert_eq!(perm, 4);
        Ok(())
    });
    assert_eq!(r, Ok(()));
    let r = check_keystore_permission(Some(&sid), 4u8, |_: &String, _: u8| denied);
    assert_eq!(r, denied);

    let r = check_grant_permission(
        Some(&sid),
        0x30u32,
        &key,
        |s: &String, access: u32, k: &KeyDescriptor| {
            assert_eq!((s.as_str(), access, k.nspace), ("u:r:app:s0", 0x30, 7));
            denied
        },
    );
    assert_eq!(r, denied);

    let r = check_key_permission(
        10_017,
        Some(&sid),
        2u8,
        &key,
        &None,
        |uid: u32, s: &String, perm: u8, k: &KeyDescriptor, access: &Option<u32>| {
            assert_eq!((uid, s.as_str(), perm, k, *access), (10_017, "u:r:app:s0", 2, &key, None));
            Ok(())
        },
    );
    assert_eq!(r, Ok(()));
}

// ---------------------------------------------------------------------
// Tags and key parameters.

#[test]
fn device_id_attestation_tags() {
    for tag in [
        Tag::AttestationIdImei,
        Tag::AttestationIdMeid,
        Tag::AttestationIdSerial,
        Tag::DeviceUniqueAttestation,
        Tag::AttestationIdSecondImei,
    ] {
        assert!(is_device_id_attestation_tag(tag));
    }
    assert!(!is_device_id_attestation_tag(Tag::Other(0)));
    assert!(!is_device_id_attestation_tag(Tag::Other(714)));
}

#[test]
fn key_characteristics_are_flattened_in_order() {
    let characteristics = vec![
        KeyCharacteristics { security_level: SecurityLevel::TrustedEnvironment, authorizations: vec![1, 2] },
        KeyCharacteristics { security_level: SecurityLevel::Software, authorizations: vec![] },
        KeyCharacteristics { security_level: SecurityLevel::Keystore, authorizations: vec![3] },
    ];
    let parameters = key_characteristics_to_internal(characteristics);
    let seen: Vec<(i32, SecurityLevel)> =
        parameters.iter().map(|p| (*p.key_parameter_value(), p.security_level())).collect();
    assert_eq!(
        seen,
        vec![
            (1, SecurityLevel::TrustedEnvironment),
            (2, SecurityLevel::TrustedEnvironment),
            (3, SecurityLevel::Keystore),
        ]
    );
    assert!(key_characteristics_to_internal(Vec::<KeyCharacteristics<u8>>::new()).is_empty());
}

#[test]
fn key_parameters_become_authorizations() {
    let parameters = vec![
        KeyParameter::new("a", SecurityLevel::Strongbox),
        KeyParameter::new("b", SecurityLevel::Software),
    ];
    let authorizations: Vec<Authorization<&str>> = key_parameters_to_authorizations(parameters);
    assert_eq!(authorizations.len(), 2);
    assert_eq!(authorizations[0].key_parameter, "a");
    assert_eq!(authorizations[0].security_level, SecurityLevel::Strongbox);
    assert_eq!(authorizations[1].key_parameter, "b");
    assert_eq!(authorizations[1].security_level, SecurityLevel::Software);
}

// ---------------------------------------------------------------------
// Upgrade of key blobs on demand.

/// An engine that upgrades a blob by putting a mark in front of it.
struct Marks {
    fail: bool,
    upgraded: RefCell<Vec<(Vec<u8>, Vec<u8>)>>,
}

impl Marks {
    fn new() -> Self {
        Marks { fail: false, upgraded: RefCell::new(Vec::new()) }
    }
}

impl KeyMintDevice<u8> for Marks {
    fn upgrade_key(&self, key_blob_to_upgrade: &[u8], upgrade_params: &[u8]) -> Result<Vec<u8>, Error> {
        self.upgraded.borrow_mut().push((key_blob_to_upgrade.to_vec(), upgrade_params.to_vec()));
        if self.fail {
            return Err(Error::Km(ErrorCode::Other(-1000)));
        }
        let mut blob = vec![0xffu8];
        blob.extend_from_slice(key_blob_to_upgrade);
        Ok(blob)
    }
}

/// An operation that accepts only upgraded blobs, and returns their length.
fn length_of_upgraded(blob: &[u8]) -> Result<usize, Error> {
    if blob.first() == Some(&0xff) {
        Ok(blob.len())
    } else {
        Err(Error::Km(ErrorCode::KeyRequiresUpgrade))
    }
}

#[test]
fn current_blob_is_not_upgraded() {
    let dev = Marks::new();
    let handled = Cell::new(false);
    let r = upgrade_keyblob_if_required_with(
        &dev,
        KEY_MINT_V1,
        &[0xff, 1, 2],
        &[9u8],
        length_of_upgraded,
        |_: &[u8]| {
            handled.set(true);
            Ok(())
        },
    );
    assert_eq!(r, Ok((3, None)));
    assert!(dev.upgraded.borrow().is_empty());
    assert!(!handled.get());
}

#[test]
fn outdated_blob_is_upgraded_and_handled() {
    let dev = Marks::new();
    let handled = RefCell::new(Vec::new());
    let r = upgrade_keyblob_if_required_with(
        &dev,
        KEY_MINT_V1,
        &[1, 2],
        &[9u8, 8],
        length_of_upgraded,
        |blob: &[u8]| {
            handled.borrow_mut().push(blob.to_vec());
            Ok(())
        },
    );
    assert_eq!(r, Ok((3, Some(vec![0xff, 1, 2]))));
    assert_eq!(*dev.upgraded.borrow(), vec![(vec![1, 2], vec![9, 8])]);
    assert_eq!(*handled.borrow(), vec![vec![0xff, 1, 2]]);
}

#[test]
fn other_errors_of_the_operation_pass_through() {
    let dev = Marks::new();
    let r: Result<(u8, Option<Vec<u8>>), Error> = upgrade_keyblob_if_required_with(
        &dev,
        KEY_MINT_V1,
        &[1, 2],
        &[0u8; 0],
        |_: &[u8]| Err(Error::Km(ErrorCode::Other(-7))),
        |_: &[u8]| Ok(()),
    );
    assert_eq!(r, Err(Error::Km(ErrorCode::Other(-7))));
    assert!(dev.upgraded.borrow().is_empty());
}

#[test]
fn failing_upgrade_or_handler_stops_the_operation() {
    let mut dev = Marks::new();
    dev.fail = true;
    let calls = Cell::new(0);
    let op = |blob: &[u8]| {
        calls.set(calls.get() + 1);
        length_of_upgraded(blob)
    };
    let r = upgrade_keyblob_if_required_with(&dev, KEY_MINT_V1, &[1], &[0u8; 0], op, |_: &[u8]| Ok(()));
    assert_eq!(r, Err(Error::Km(ErrorCode::Other(-1000))));
    assert_eq!(calls.get(), 1);

    let dev = Marks::new();
    let r = upgrade_keyblob_if_required_with(&dev, KEY_MINT_V1, &[1], &[0u8; 0], op, |_: &[u8]| {
        Err(Error::Store)
    });
    assert_eq!(r, Err(Error::Store));
    // The operation did not run on the upgraded blob.
    assert_eq!(calls.get(), 2);
}

#[test]
fn keymaster_blob_is_stripped_and_upgraded() {
    let prefixed = b"pKMblob\x00inner".to_vec();
    assert!(starts_with_keymaster_blob_hw_prefix(&prefixed));
    assert!(!starts_with_keymaster_blob_hw_prefix(b"pKMblob\x01inner"));
    assert!(!starts_with_keymaster_blob_hw_prefix(b"pKMblob"));
    assert!(!starts_with_keymaster_blob_hw_prefix(b""));

    // The engine does not know the prefixed blob, and accepts upgraded ones.
    let op = |blob: &[u8]| {
        if blob.first() == Some(&0xff) {
            Ok(blob.to_vec())
        } else {
            Err(Error::Km(ErrorCode::InvalidKeyBlob))
        }
    };
    let dev = Marks::new();
    let r = upgrade_keyblob_if_required_with(&dev, KEY_MINT_V1, &prefixed, &[0u8; 0], op, |_: &[u8]| Ok(()));
    let upgraded = b"\xffinner".to_vec();
    assert_eq!(r, Ok((upgraded.clone(), Some(upgraded))));
    assert_eq!(dev.upgraded.borrow()[0].0, b"inner".to_vec());

    // A wrapper around the predecessor strips the prefix itself.
    let dev = Marks::new();
    let r = upgrade_keyblob_if_required_with(&dev, KEY_MINT_V1 - 1, &prefixed, &[0u8; 0], op, |_: &[u8]| Ok(()));
    assert_eq!(r, Err(Error::Km(ErrorCode::InvalidKeyBlob)));
    assert!(dev.upgraded.borrow().is_empty());

    // A blob without the prefix is simply invalid.
    let r = upgrade_keyblob_if_required_with(&dev, KEY_MINT_V1, b"inner", &[0u8; 0], op, |_: &[u8]| Ok(()));
    assert_eq!(r, Err(Error::Km(ErrorCode::InvalidKeyBlob)));
    assert!(dev.upgraded.borrow().is_empty());
}

#[test]
fn upgrade_and_perform_returns_the_upgraded_blob() {
    let dev = Marks::new();
    let r = upgrade_keyblob_and_perform_op(&dev, &[5], &[1u8], length_of_upgraded, |_: &[u8]| Ok(()));
    assert_eq!(r, Ok((2, Some(vec![0xff, 5]))));
}

// ---------------------------------------------------------------------
// Protected confirmation.

#[test]
fn compat_codes_map_to_response_codes() {
    assert_eq!(compat_2_response_code(0), ApcResponseCode::Okay);
    assert_eq!(compat_2_response_code(1), ApcResponseCode::Cancelled);
    assert_eq!(compat_2_response_code(2), ApcResponseCode::Aborted);
    assert_eq!(compat_2_response_code(3), ApcResponseCode::OperationPending);
    assert_eq!(compat_2_response_code(4), ApcResponseCode::Ignored);
    assert_eq!(compat_2_response_code(5), ApcResponseCode::SystemError);
    assert_eq!(compat_2_response_code(6), ApcResponseCode::SystemError);
    assert_eq!(compat_2_response_code(u32::MAX), ApcResponseCode::SystemError);
}

#[test]
fn ui_options_follow_their_flags() {
    let options = |inverted, magnified| ApcCompatUiOptions { inverted, magnified };
    assert_eq!(ui_opts_2_compat(0), options(false, false));
    assert_eq!(ui_opts_2_compat(1), options(true, false));
    assert_eq!(ui_opts_2_compat(2), options(false, true));
    assert_eq!(ui_opts_2_compat(3), options(true, true));
    // Other bits do not matter.
    assert_eq!(ui_opts_2_compat(4), options(false, false));
    assert_eq!(ui_opts_2_compat(-1), options(true, true));
    assert_eq!(ui_opts_2_compat(i32::MIN | 2), options(false, true));
}

// ---------------------------------------------------------------------
// Time.

#[test]
fn timespec_is_converted_to_milliseconds() {
    assert_eq!(timespec_to_milliseconds(0, 0), 0);
    assert_eq!(timespec_to_milliseconds(0, 999_999), 0);
    assert_eq!(timespec_to_milliseconds(0, 1_000_000), 1);
    assert_eq!(timespec_to_milliseconds(12, 345_678_901), 12_345);
    assert_eq!(timespec_to_milliseconds(-1, 500_000_000), -500);
    assert_eq!(timespec_to_milliseconds(9_223_372_036_854_775, 807_999_999), i64::MAX);
}

// ---------------------------------------------------------------------
// Users.

#[test]
fn uid_maps_to_user() {
    assert_eq!(AID_USER_OFFSET, 100_000);
    assert_eq!(AID_KEYSTORE, 1017);
    assert_eq!(uid_to_android_user(0), 0);
    assert_eq!(uid_to_android_user(99_999), 0);
    assert_eq!(uid_to_android_user(100_000), 1);
    assert_eq!(uid_to_android_user(1_000_017), 10);
    assert_eq!(uid_to_android_user(u32::MAX), 42_949);
}

// ---------------------------------------------------------------------
// Listing keys.

fn create_key_descriptors_from_aliases(key_aliases: &[&str]) -> Vec<KeyDescriptor> {
    key_aliases
        .iter()
        .map(|key_alias| KeyDescriptor {
            domain: Domain::App,
            nspace: 0,
            alias: Some(key_alias.to_string()),
            blob: None,
        })
        .collect::<Vec<KeyDescriptor>>()
}

fn aliases_from_key_descriptors(key_descriptors: &[KeyDescriptor]) -> Vec<String> {
    key_descriptors
        .iter()
        .map(|kd| if let Some(alias) = &kd.alias { String::from(alias) } else { String::from("") })
        .collect::<Vec<String>>()
}

#[test]
fn test_safe_amount_to_return() {
    let key_aliases = vec!["key1", "key2", "key3"];
    let key_descriptors = create_key_descriptors_from_aliases(&key_aliases);

    assert_eq!(estimate_safe_amount_to_return(&key_descriptors, 20), 1);
    assert_eq!(estimate_safe_amount_to_return(&key_descriptors, 50), 2);
    assert_eq!(estimate_safe_amount_to_return(&key_descriptors, 100), 3);
}

#[test]
fn test_merge_and_sort_lists_without_filtering() {
    let legacy_key_aliases = vec!["key_c", "key_a", "key_b"];
    let legacy_key_descriptors = create_key_descriptors_from_aliases(&legacy_key_aliases);
    let db_key_aliases = vec!["key_a", "key_d"];
    let db_key_descriptors = create_key_descriptors_from_aliases(&db_key_aliases);
    let result =
        merge_and_filter_key_entry_lists(&legacy_key_descriptors, &db_key_descriptors, None);
    assert_eq!(aliases_from_key_descriptors(&result), vec!["key_a", "key_b", "key_c", "key_d"]);
}

#[test]
fn test_merge_and_sort_lists_with_filtering() {
    let legacy_key_aliases = vec!["key_f", "key_a", "key_e", "key_b"];
    let legacy_key_descriptors = create_key_descriptors_from_aliases(&legacy_key_aliases);
    let db_key_aliases = vec!["key_c", "key_g"];
    let db_key_descriptors = create_key_descriptors_from_aliases(&db_key_aliases);
    let result = merge_and_filter_key_entry_lists(
        &legacy_key_descriptors,
        &db_key_descriptors,
        Some("key_b"),
    );
    assert_eq!(aliases_from_key_descriptors(&result), vec!["key_c", "key_e", "key_f", "key_g"]);
}

#[test]
fn test_merge_and_sort_lists_with_filtering_and_dups() {
    let legacy_key_aliases = vec!["key_f", "key_a", "key_e", "key_b"];
    let legacy_key_descriptors = create_key_descriptors_from_aliases(&legacy_key_aliases);
    let db_key_aliases = vec!["key_d", "key_e", "key_g"];
    let db_key_descriptors = create_key_descriptors_from_aliases(&db_key_aliases);
    let result = merge_and_filter_key_entry_lists(
        &legacy_key_descriptors,
        &db_key_descriptors,
        Some("key_c"),
    );
    assert_eq!(aliases_from_key_descriptors(&result), vec!["key_d", "key_e", "key_f", "key_g"]);
}

#[test]
fn safe_amount_counts_aliases_and_blobs() {
    assert_eq!(estimate_safe_amount_to_return(&[], 0), 0);
    assert_eq!(estimate_safe_amount_to_return(&[], 100), 0);

    let bare = KeyDescriptor { domain: Domain::App, nspace: 0, alias: None, blob: None };
    let with_blob =
        KeyDescriptor { domain: Domain::Blob, nspace: 0, alias: None, blob: Some(vec![0; 10]) };
    let with_both = KeyDescriptor {
        domain: Domain::App,
        nspace: 0,
        alias: Some("abc".to_string()),
        blob: Some(vec![0; 5]),
    };
    // 12, then 12 + 4 + 10 = 26, then 12 + 4 + 3 + 4 + 5 = 28: 66 in all.
    let descriptors = [bare, with_blob, with_both];
    assert_eq!(estimate_safe_amount_to_return(&descriptors, 0), 0);
    assert_eq!(estimate_safe_amount_to_return(&descriptors, 11), 0);
    assert_eq!(estimate_safe_amount_to_return(&descriptors, 12), 1);
    assert_eq!(estimate_safe_amount_to_return(&descriptors, 37), 1);
    assert_eq!(estimate_safe_amount_to_return(&descriptors, 38), 2);
    assert_eq!(estimate_safe_amount_to_return(&descriptors, 65), 2);
    assert_eq!(estimate_safe_amount_to_return(&descriptors, 66), 3);
    assert_eq!(estimate_safe_amount_to_return(&descriptors, usize::MAX), 3);
}

#[test]
fn merge_orders_by_domain_namespace_alias_and_blob() {
    let descriptor = |domain, nspace, alias: Option<&str>, blob: Option<&[u8]>| KeyDescriptor {
        domain,
        nspace,
        alias: alias.map(|a| a.to_string()),
        blob: blob.map(|b| b.to_vec()),
    };
    let expected = vec![
        descriptor(Domain::App, -1, Some("z"), None),
        descriptor(Domain::App, 0, None, None),
        descriptor(Domain::App, 0, None, Some(&[])),
        descriptor(Domain::App, 0, None, Some(&[0])),
        descriptor(Domain::App, 0, None, Some(&[0, 0])),
        descriptor(Domain::App, 0, None, Some(&[1])),
        descriptor(Domain::App, 0, Some(""), None),
        descriptor(Domain::App, 0, Some("a"), None),
        descriptor(Domain::App, 0, Some("a"), Some(&[1])),
        descriptor(Domain::App, 0, Some("ab"), None),
        descriptor(Domain::App, 0, Some("b"), None),
        descriptor(Domain::App, 0, Some("é"), None),
        descriptor(Domain::App, 1, None, None),
        descriptor(Domain::Grant, 0, None, None),
        descriptor(Domain::Selinux, 0, None, None),
        descriptor(Domain::Blob, 0, None, None),
        descriptor(Domain::KeyId, i64::MIN, None, None),
    ];
    // Feed them in reverse, half from each source, some of them twice.
    let mut legacy: Vec<KeyDescriptor> = expected.iter().rev().step_by(2).cloned().collect();
    let db: Vec<KeyDescriptor> = expected.iter().rev().skip(1).step_by(2).cloned().collect();
    legacy.push(expected[3].clone());
    legacy.push(expected[4].clone());
    let merged = merge_and_filter_key_entry_lists(&legacy, &db, None);
    assert_eq!(merged, expected);

    // It is the order in which the fields compare one after the other.
    let mut by_fields = expected.clone();
    by_fields.reverse();
    by_fields.sort_by(|a, b| {
        (a.domain as u8, a.nspace, &a.alias, &a.blob).cmp(&(b.domain as u8, b.nspace, &b.alias, &b.blob))
    });
    assert_eq!(by_fields, expected);

    for (earlier, later) in expected.iter().zip(expected.iter().skip(1)) {
        assert!(earlier.less_than(later));
        assert!(!later.less_than(earlier));
        assert!(!earlier.less_than(earlier));
    }
}

#[test]
fn filter_drops_legacy_entries_without_alias_only() {
    let no_alias = KeyDescriptor { domain: Domain::App, nspace: 0, alias: None, blob: Some(vec![1]) };
    let legacy = vec![no_alias.clone(), create_key_descriptors_from_aliases(&["b"]).remove(0)];
    let db = vec![no_alias.clone(), create_key_descriptors_from_aliases(&["a"]).remove(0)];

    // Entries of the store are taken as they are.
    let merged = merge_and_filter_key_entry_lists(&legacy, &db, Some("b"));
    assert_eq!(merged, vec![no_alias.clone(), db[1].clone()]);
    let merged = merge_and_filter_key_entry_lists(&legacy, &db, Some("a"));
    assert_eq!(merged, vec![no_alias.clone(), db[1].clone(), legacy[1].clone()]);
    let merged = merge_and_filter_key_entry_lists(&legacy, &[], Some(""));
    assert_eq!(merged, vec![legacy[1].clone()]);
    let merged = merge_and_filter_key_entry_lists(&legacy, &[], None);
    assert_eq!(merged, vec![no_alias, legacy[1].clone()]);
    assert!(merge_and_filter_key_entry_lists(&[], &[], None).is_empty());
}

#[test]
fn listing_is_cut_to_the_response_size() {
    assert_eq!(RESPONSE_SIZE_LIMIT, 358400);
    let legacy = create_key_descriptors_from_aliases(&["key_b", "key_a"]);
    let db = create_key_descriptors_from_aliases(&["key_c"]);
    let listed = list_key_entries(&legacy, &db, None);
    assert_eq!(aliases_from_key_descriptors(&listed), vec!["key_a", "key_b", "key_c"]);
    let listed = list_key_entries(&legacy, &db, Some("key_a"));
    assert_eq!(aliases_from_key_descriptors(&listed), vec!["key_b", "key_c"]);

    // Each of these takes 12 + 4 + 5 + 4 + 100_000 bytes: three of them fit.
    let big: Vec<KeyDescriptor> = ["key_5", "key_1", "key_4", "key_2", "key_3"]
        .iter()
        .map(|alias| KeyDescriptor {
            domain: Domain::App,
            nspace: 0,
            alias: Some(alias.to_string()),
            blob: Some(vec![0; 100_000]),
        })
        .collect();
    let listed = list_key_entries(&big, &[], None);
    assert_eq!(aliases_from_key_descriptors(&listed), vec!["key_1", "key_2", "key_3"]);
    let listed = list_key_entries(&[], &big, Some("key_3"));
    assert_eq!(listed.len(), 3);
}

#[test]
fn keys_are_counted_from_both_sources() {
    let legacy = create_key_descriptors_from_aliases(&["a", "b"]);
    assert_eq!(count_key_entries(&legacy, 0), 2);
    assert_eq!(count_key_entries(&legacy, 40), 42);
    assert_eq!(count_key_entries(&[], 0), 0);
    assert_eq!(count_key_entries(&[], i32::MAX as usize), i32::MAX);
    // A count that does not fit is cut to its low 32 bits.
    assert_eq!(count_key_entries(&legacy, i32::MAX as usize), i32::MIN + 1);
}

// ---------------------------------------------------------------------
// Watch points.

#[test]
fn watch_points_are_inert() {
    assert!(watch_millis("a call", 500).is_none());
    let called = std::sync::Arc::new(std::sync::atomic::AtomicBool::new(false));
    let flag = called.clone();
    let wp = watch_millis_with("a call", 500, move || {
        flag.store(true, std::sync::atomic::Ordering::SeqCst);
        String::from("report")
    });
    assert!(wp.is_none());
    assert!(!called.load(std::sync::atomic::Ordering::SeqCst));
}

// ---------------------------------------------------------------------
// Keys with an engine.

struct RawKey(Vec<u8>);

impl AesGcmKey for RawKey {
    fn key(&self) -> &[u8] {
        &self.0
    }
}

/// An engine whose cipher adds the first byte of the key to each byte.
struct Caesar;

impl Crypto for Caesar {
    fn generate_salt(&self) -> Result<Vec<u8>, Error> {
        Ok(vec![0; 16])
    }

    fn generate_aes256_key(&self) -> Result<Vec<u8>, Error> {
        Ok(vec![1; 32])
    }

    fn derive_key_from_password(
        &self,
        pw: &[u8],
        _salt: Option<&[u8]>,
        key_length: usize,
    ) -> Result<Vec<u8>, Error> {
        Ok(vec![pw.len() as u8; key_length])
    }

    fn aes_gcm_encrypt(
        &self,
        plaintext: &[u8],
        key: &[u8],
    ) -> Result<(Vec<u8>, Vec<u8>, Vec<u8>), Error> {
        let shifted = plaintext.iter().map(|b| b.wrapping_add(key[0])).collect();
        Ok((shifted, vec![7; 12], vec![key[0]; 16]))
    }

    fn aes_gcm_decrypt(
        &self,
        data: &[u8],
        _iv: &[u8],
        tag: &[u8],
        key: &[u8],
    ) -> Result<Vec<u8>, Error> {
        if tag != vec![key[0]; 16] {
            return Err(Error::Crypto);
        }
        Ok(data.iter().map(|b| b.wrapping_sub(key[0])).collect())
    }
}

#[test]
fn raw_key_gives_its_bytes() {
    assert_eq!(RawKey(vec![1, 2, 3]).key(), &[1u8, 2, 3][..]);
}

#[test]
fn key_with_engine_encrypts_under_its_material() {
    let key = RawKey(vec![3; 32]);
    let cipher = WithEngine { key: &key, crypto: &Caesar };
    let (ciphertext, iv, tag) = cipher.encrypt(&[1, 2, 250]).unwrap();
    assert_eq!(ciphertext, vec![4, 5, 253]);
    assert_eq!(cipher.decrypt(&ciphertext, &iv, &tag).unwrap(), vec![1, 2, 250]);

    // A master key is such a key.
    let super_key = SuperKey::new(KeyMaterial::new(vec![4; 32]), 1);
    let other = WithEngine { key: &super_key, crypto: &Caesar };
    assert_eq!(other.decrypt(&ciphertext, &iv, &tag), Err(Error::Crypto));
    let (ciphertext, iv, tag) = other.encrypt(&[10]).unwrap();
    assert_eq!(ciphertext, vec![14]);
    assert_eq!(other.decrypt(&ciphertext, &iv, &tag).unwrap(), vec![10]);
}
