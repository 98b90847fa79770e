use slate_profile_sync::credentials::{
    active_settings_sync_content_key_id, credential_check_step, trusted_remote_device_public_keys,
    validate_settings_sync_cycle_credentials, CredentialCheckStep, SyncContentKeyEpoch, SyncDevicePublicKey,
};
use slate_profile_sync::discovery::SyncDevicePublicKeyRecord;
use slate_profile_sync::errors::{ProfileSyncCredentialError, ProfileSyncReceiveError, StorageError};

fn record(device_id: &str, trusted: bool) -> SyncDevicePublicKeyRecord {
    SyncDevicePublicKeyRecord { device_id: device_id.to_string(), public_key: vec![1, 2], trusted, membership_epoch: 1 }
}

#[test]
fn active_content_key_must_exist_and_use_the_supported_algorithm() {
    assert_eq!(
        active_settings_sync_content_key_id("default", None, "chacha20-poly1305"),
        Err(ProfileSyncCredentialError::Storage(StorageError::MissingActiveSyncContentKey("default".to_string())))
    );
    let epoch = SyncContentKeyEpoch { key_id: "key-1".to_string(), algorithm: "aes-gcm".to_string() };
    assert_eq!(
        active_settings_sync_content_key_id("default", Some(epoch.clone()), "chacha20-poly1305"),
        Err(ProfileSyncCredentialError::Storage(StorageError::UnsupportedSyncContentKeyAlgorithm {
            key_id: "key-1".to_string(),
            algorithm: "aes-gcm".to_string(),
        }))
    );
    assert_eq!(active_settings_sync_content_key_id("default", Some(epoch), "aes-gcm"), Ok("key-1".to_string()));
}

#[test]
fn cycle_credentials_are_checked_in_order() {
    let signer = SyncDevicePublicKey { device_id: "device-a".to_string(), bytes: vec![1, 2] };
    let trusted = Some(record("device-a", true));
    assert_eq!(validate_settings_sync_cycle_credentials("default", "key-1", "key-1", "device-a", &signer, &trusted), Ok(()));
    assert_eq!(
        validate_settings_sync_cycle_credentials("default", "key-1", "key-2", "device-a", &signer, &trusted),
        Err(ProfileSyncCredentialError::InactiveContentKey {
            profile: "default".to_string(),
            expected_key_id: "key-1".to_string(),
            active_key_id: "key-2".to_string(),
        })
    );
    assert_eq!(
        validate_settings_sync_cycle_credentials("default", "key-1", "key-1", "device-b", &signer, &trusted),
        Err(ProfileSyncCredentialError::LocalDeviceSignerMismatch {
            profile: "default".to_string(),
            local_device_id: "device-b".to_string(),
            signer_device_id: "device-a".to_string(),
        })
    );
    let untrusted = ProfileSyncCredentialError::UntrustedLocalDevice { profile: "default".to_string(), device_id: "device-a".to_string() };
    assert_eq!(validate_settings_sync_cycle_credentials("default", "key-1", "key-1", "device-a", &signer, &None), Err(untrusted.clone()));
    assert_eq!(
        validate_settings_sync_cycle_credentials("default", "key-1", "key-1", "device-a", &signer, &Some(record("device-a", false))),
        Err(untrusted)
    );
    let mut rotated = record("device-a", true);
    rotated.public_key = vec![3];
    assert_eq!(
        validate_settings_sync_cycle_credentials("default", "key-1", "key-1", "device-a", &signer, &Some(rotated)),
        Err(ProfileSyncCredentialError::LocalDevicePublicKeyMismatch { profile: "default".to_string(), device_id: "device-a".to_string() })
    );
}

#[test]
fn trusted_remote_devices_exclude_local_and_untrusted_and_respect_the_limit() {
    let records = vec![record("local", true), record("remote-a", true), record("remote-b", false), record("remote-c", true)];
    let remote = trusted_remote_device_public_keys("default", records.clone(), "local", 2).expect("within limit");
    assert_eq!(remote.iter().map(|r| r.device_id.as_str()).collect::<Vec<_>>(), vec!["remote-a", "remote-c"]);
    let error = trusted_remote_device_public_keys("default", records, "local", 1).expect_err("over limit");
    assert_eq!(
        error,
        ProfileSyncReceiveError::TrustedDeviceLimitExceeded { profile: "default".to_string(), trusted_device_count: 2, max_devices: 1 }
    );
    assert_eq!(
        error.message(),
        "trusted settings sync for profile default has 2 remote trusted devices, exceeding max 1"
    );
}

#[test]
fn credential_check_reads_only_what_it_still_needs() {
    let key = SyncDevicePublicKey { device_id: "device-a".to_string(), bytes: vec![1, 2] };
    let other = SyncDevicePublicKey { device_id: "device-b".to_string(), bytes: vec![1, 2] };
    assert_eq!(
        credential_check_step("default", "key-2", "key-1", "device-a", &None, &None),
        CredentialCheckStep::Decided(Err(ProfileSyncCredentialError::InactiveContentKey {
            profile: "default".to_string(),
            expected_key_id: "key-2".to_string(),
            active_key_id: "key-1".to_string(),
        }))
    );
    assert_eq!(credential_check_step("default", "key-1", "key-1", "device-a", &None, &None), CredentialCheckStep::ReadSignerKey);
    assert_eq!(
        credential_check_step("default", "key-1", "key-1", "device-a", &Some(other), &None),
        CredentialCheckStep::Decided(Err(ProfileSyncCredentialError::LocalDeviceSignerMismatch {
            profile: "default".to_string(),
            local_device_id: "device-a".to_string(),
            signer_device_id: "device-b".to_string(),
        }))
    );
    assert_eq!(
        credential_check_step("default", "key-1", "key-1", "device-a", &Some(key.clone()), &None),
        CredentialCheckStep::ReadTrustRecord
    );
    assert_eq!(
        credential_check_step("default", "key-1", "key-1", "device-a", &Some(key.clone()), &Some(None)),
        CredentialCheckStep::Decided(Err(ProfileSyncCredentialError::UntrustedLocalDevice {
            profile: "default".to_string(),
            device_id: "device-a".to_string(),
        }))
    );
    assert_eq!(
        credential_check_step("default", "key-1", "key-1", "device-a", &Some(key), &Some(Some(record("device-a", true)))),
        CredentialCheckStep::Decided(Ok(()))
    );
}
