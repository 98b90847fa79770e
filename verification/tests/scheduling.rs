use slate_profile_sync::health::{ProfileSyncProviderHealth, ProfileSyncRootHealth, SettingsSyncHealthReport};
use slate_profile_sync::policy::{ProfileSyncPolicyError, SettingsSyncCyclePolicy};
use slate_profile_sync::retention::{ProfileSyncProviderRecord, ProfileSyncProviderRoles};
use slate_profile_sync::scheduling::{
    check_scheduled_retention_selection, select_settings_sync_retention_provider_handles, SettingsSyncCyclePreflight,
    SettingsSyncRetentionProviderHandle, SettingsSyncSchedulerConfig,
};

fn provider_health(stale: &[&str], offline: &[&str]) -> ProfileSyncProviderHealth {
    ProfileSyncProviderHealth {
        profile: "default".to_string(),
        known_providers: 3,
        online_providers: 2,
        offline_providers: offline.len(),
        fresh_online_providers: 1,
        stale_online_providers: stale.len(),
        fresh_online_provider_ids: vec!["pinner".to_string()],
        stale_online_provider_ids: stale.iter().map(|s| s.to_string()).collect(),
        offline_provider_ids: offline.iter().map(|s| s.to_string()).collect(),
        minimum_provider_seen_sequence: 1,
        object_transfer_providers: 1,
        availability_providers: 1,
        mutable_root_providers: 1,
        retained_objects: 0,
        degraded: false,
        message: "ok".to_string(),
    }
}

fn root_health(root_id: &str) -> ProfileSyncRootHealth {
    ProfileSyncRootHealth {
        profile: "default".to_string(),
        root_id: root_id.to_string(),
        visible_candidates: 1,
        delayed_candidates: 0,
        delayed_publisher_provider_ids: Vec::new(),
        latest_object_id: None,
        latest_object_available: true,
        latest_object_available_provider_ids: Vec::new(),
        latest_object_stale_provider_ids: Vec::new(),
        latest_object_offline_provider_ids: Vec::new(),
        delayed_object_provider_ids: Vec::new(),
        unavailable_retaining_provider_ids: Vec::new(),
        online_retaining_providers: 1,
        minimum_online_retaining_providers: 1,
        degraded: false,
        message: "ok".to_string(),
    }
}

fn preflight() -> SettingsSyncCyclePreflight {
    SettingsSyncCyclePreflight {
        profile: "default".to_string(),
        settings_root_id: "settings/latest".to_string(),
        local_device_id: "device-a".to_string(),
        signer_device_id: "device-a".to_string(),
        active_key_id: "key-1".to_string(),
        trusted_remote_device_count: 0,
        retention_provider_candidates: vec![ProfileSyncProviderRecord {
            provider_id: "pinner".to_string(),
            roles: ProfileSyncProviderRoles { availability: true, object_transfer: true },
        }],
        before_health: SettingsSyncHealthReport {
            profile: "default".to_string(),
            settings_root_id: "settings/latest".to_string(),
            local_device_head_root_id: "settings/devices/device-a/head".to_string(),
            provider_health: provider_health(&["stale-peer"], &["offline-peer"]),
            settings_root_health: root_health("settings/latest"),
            local_device_head_root_health: root_health("settings/devices/device-a/head"),
        },
    }
}

#[test]
fn scheduler_sorts_offered_retention_providers() {
    let daemons = [10u32, 20, 30, 40, 50];
    let handles = [
        SettingsSyncRetentionProviderHandle::new("stale-peer", &daemons[0]),
        SettingsSyncRetentionProviderHandle::new("pinner", &daemons[1]),
        SettingsSyncRetentionProviderHandle::new("unknown-peer", &daemons[2]),
        SettingsSyncRetentionProviderHandle::new("pinner", &daemons[3]),
        SettingsSyncRetentionProviderHandle::new("offline-peer", &daemons[4]),
    ];
    let selection = select_settings_sync_retention_provider_handles(preflight(), &handles);
    let plan = &selection.plan;
    assert_eq!(plan.selected_retention_provider_ids, vec!["pinner".to_string()]);
    assert_eq!(selection.daemons, vec![&20u32]);
    assert_eq!(plan.stale_retention_provider_ids, vec!["stale-peer".to_string()]);
    assert_eq!(plan.offline_retention_provider_ids, vec!["offline-peer".to_string()]);
    assert_eq!(plan.undiscovered_retention_provider_ids, vec!["unknown-peer".to_string()]);
    assert_eq!(plan.duplicate_retention_provider_ids, vec!["pinner".to_string()]);
    assert_eq!(plan.retention_candidate_count(), 1);
    assert_eq!(plan.selected_retention_provider_count(), 1);
    assert_eq!(plan.stale_retention_provider_count(), 1);
    assert_eq!(plan.offline_retention_provider_count(), 1);
    assert_eq!(plan.undiscovered_retention_provider_count(), 1);
    assert_eq!(plan.duplicate_retention_provider_count(), 1);
    assert!(!plan.degraded_before());

    let policy = SettingsSyncCyclePolicy::new((), 4, 8, 2);
    let stale_refusal = check_scheduled_retention_selection(&policy, plan).expect_err("stale selected provider");
    assert!(matches!(
        stale_refusal,
        ProfileSyncPolicyError::ProviderMaximumExceeded { provider_role: "stale selected retention providers", maximum: 0, actual: 1, .. }
    ));
}

#[test]
fn scheduler_requires_enough_selected_providers() {
    let daemons = [1u32];
    let handles = [SettingsSyncRetentionProviderHandle::new("pinner", &daemons[0])];
    let selection = select_settings_sync_retention_provider_handles(preflight(), &handles);
    let lenient = SettingsSyncCyclePolicy::new((), 4, 8, 2);
    assert_eq!(check_scheduled_retention_selection(&lenient, &selection.plan), Ok(()));
    let strict = SettingsSyncCyclePolicy::new((), 4, 8, 3);
    let refusal = check_scheduled_retention_selection(&strict, &selection.plan).expect_err("too few providers");
    assert!(matches!(
        refusal,
        ProfileSyncPolicyError::ProviderMinimumUnmet { provider_role: "selected retention providers", minimum: 2, actual: 1, .. }
    ));
    let config = SettingsSyncSchedulerConfig::new("default", "settings/latest", strict);
    assert_eq!(config.profile, "default");
    assert_eq!(config.settings_root_id, "settings/latest");
}
