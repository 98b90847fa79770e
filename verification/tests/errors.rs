use slate_profile_sync::errors::{
    ProfileSyncCredentialError, ProfileSyncCycleError, ProfileSyncPublishError, ProfileSyncReceiveError,
    StorageError,
};
use slate_profile_sync::health::{ProfileSyncProviderHealth, ProfileSyncRootHealth, SettingsSyncHealthReport};
use slate_profile_sync::policy::ProfileSyncPolicyError;

#[test]
fn publish_error_reports_membership_log_limit_without_source() {
    let error = ProfileSyncPublishError::MembershipLogTooLarge {
        profile: "default".to_string(),
        max_records: 512,
        actual_records: 513,
    };

    assert!(error.message().contains("513 records"));
    assert!(!error.has_source());
}

#[test]
fn receive_error_keeps_storage_source() {
    let error = ProfileSyncReceiveError::from(StorageError::InvalidSyncDeviceId("bad-device".to_string()));

    assert!(error.message().contains("profile sync storage error"));
    assert!(error.has_source());
}

#[test]
fn credential_error_converts_into_cycle_error() {
    let credential_error = ProfileSyncCredentialError::UntrustedLocalDevice {
        profile: "default".to_string(),
        device_id: "device-a".to_string(),
    };
    let cycle_error = ProfileSyncCycleError::from(credential_error);

    assert!(matches!(
        cycle_error,
        ProfileSyncCycleError::Credentials(ProfileSyncCredentialError::UntrustedLocalDevice { .. })
    ));
    assert!(cycle_error.message().contains("credential preflight failed"));
}

#[test]
fn policy_error_display_includes_profile_role_and_counts() {
    let error = ProfileSyncPolicyError::ProviderMaximumExceeded {
        provider_role: "retention providers",
        maximum: 1,
        actual: 2,
        health: error_test_health_report(),
    };

    assert_eq!(
        error.message(),
        "profile default allows at most 1 retention providers, but health reported 2"
    );
}

#[test]
fn local_sync_loop_exhaustion_names_profile_root_and_steps() {
    let error = ProfileSyncPublishError::LocalSyncLoopExhausted {
        profile: "default".to_string(),
        settings_root_id: "settings/latest".to_string(),
        max_steps: 3,
    };
    assert_eq!(
        error.message(),
        "local settings sync loop for profile default root settings/latest did not reach idle after 3 steps"
    );
    assert!(!error.has_source());
}

#[test]
fn credential_errors_name_the_mismatched_devices() {
    let inactive = ProfileSyncCredentialError::InactiveContentKey {
        profile: "default".to_string(),
        expected_key_id: "key-1".to_string(),
        active_key_id: "key-2".to_string(),
    };
    assert_eq!(
        inactive.message(),
        "profile default active sync content key is key-2, not requested key key-1"
    );
    let signer = ProfileSyncCredentialError::LocalDeviceSignerMismatch {
        profile: "default".to_string(),
        local_device_id: "device-a".to_string(),
        signer_device_id: "device-b".to_string(),
    };
    assert_eq!(
        signer.message(),
        "profile default local sync device is device-a, but supplied signer is for device-b"
    );
    assert!(!signer.has_source());
}

fn error_test_health_report() -> SettingsSyncHealthReport {
    SettingsSyncHealthReport {
        profile: "default".to_string(),
        settings_root_id: "settings/latest".to_string(),
        local_device_head_root_id: "settings/devices/device-a/head".to_string(),
        provider_health: ProfileSyncProviderHealth {
            profile: "default".to_string(),
            known_providers: 1,
            online_providers: 1,
            offline_providers: 0,
            fresh_online_providers: 1,
            stale_online_providers: 0,
            fresh_online_provider_ids: vec!["provider-a".to_string()],
            stale_online_provider_ids: Vec::new(),
            offline_provider_ids: Vec::new(),
            minimum_provider_seen_sequence: 1,
            object_transfer_providers: 1,
            availability_providers: 1,
            mutable_root_providers: 1,
            retained_objects: 0,
            degraded: false,
            message: "healthy".to_string(),
        },
        settings_root_health: error_test_healthy_root("settings/latest"),
        local_device_head_root_health: error_test_healthy_root("settings/devices/device-a/head"),
    }
}

fn error_test_healthy_root(root_id: &str) -> ProfileSyncRootHealth {
    ProfileSyncRootHealth {
        profile: "default".to_string(),
        root_id: root_id.to_string(),
        visible_candidates: 1,
        delayed_candidates: 0,
        delayed_publisher_provider_ids: Vec::new(),
        latest_object_id: Some("object-a".to_string()),
        latest_object_available: true,
        latest_object_available_provider_ids: vec!["provider-a".to_string()],
        latest_object_stale_provider_ids: Vec::new(),
        latest_object_offline_provider_ids: Vec::new(),
        delayed_object_provider_ids: Vec::new(),
        unavailable_retaining_provider_ids: Vec::new(),
        online_retaining_providers: 1,
        minimum_online_retaining_providers: 1,
        degraded: false,
        message: "healthy".to_string(),
    }
}
