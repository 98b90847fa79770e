use slate_profile_sync::health::{ProfileSyncProviderHealth, ProfileSyncRootHealth, SettingsSyncHealthReport};
use slate_profile_sync::policy::{ProfileSyncPolicyError, SettingsSyncCyclePolicy};

fn policy_provider_health(degraded: bool, fresh: usize, stale: usize, offline: usize) -> ProfileSyncProviderHealth {
    ProfileSyncProviderHealth {
        profile: "default".to_string(),
        known_providers: fresh + stale + offline,
        online_providers: fresh + stale,
        offline_providers: offline,
        fresh_online_providers: fresh,
        stale_online_providers: stale,
        fresh_online_provider_ids: Vec::new(),
        stale_online_provider_ids: Vec::new(),
        offline_provider_ids: Vec::new(),
        minimum_provider_seen_sequence: 1,
        object_transfer_providers: fresh,
        availability_providers: fresh,
        mutable_root_providers: fresh,
        retained_objects: 0,
        degraded,
        message: if degraded { "provider quorum degraded".to_string() } else { "ok".to_string() },
    }
}

fn policy_root_health(root_id: &str, degraded: bool) -> ProfileSyncRootHealth {
    ProfileSyncRootHealth {
        profile: "default".to_string(),
        root_id: root_id.to_string(),
        visible_candidates: 1,
        delayed_candidates: 0,
        delayed_publisher_provider_ids: Vec::new(),
        latest_object_id: None,
        latest_object_available: !degraded,
        latest_object_available_provider_ids: Vec::new(),
        latest_object_stale_provider_ids: Vec::new(),
        latest_object_offline_provider_ids: Vec::new(),
        delayed_object_provider_ids: Vec::new(),
        unavailable_retaining_provider_ids: Vec::new(),
        online_retaining_providers: 1,
        minimum_online_retaining_providers: 1,
        degraded,
        message: "root".to_string(),
    }
}

fn policy_report(provider: ProfileSyncProviderHealth, settings_degraded: bool, head_degraded: bool) -> SettingsSyncHealthReport {
    SettingsSyncHealthReport {
        profile: "default".to_string(),
        settings_root_id: "settings/latest".to_string(),
        local_device_head_root_id: "settings/devices/device-a/head".to_string(),
        provider_health: provider,
        settings_root_health: policy_root_health("settings/latest", settings_degraded),
        local_device_head_root_health: policy_root_health("settings/devices/device-a/head", head_degraded),
    }
}

#[test]
fn policy_refuses_degraded_providers_before_a_cycle() {
    let policy = SettingsSyncCyclePolicy::new((), 4, 8, 1);
    let error = policy.check_before_cycle(&policy_report(policy_provider_health(true, 1, 0, 0), false, false)).expect_err("degraded");
    assert!(matches!(error, ProfileSyncPolicyError::ProviderHealthDegraded { .. }));
    assert_eq!(error.message(), "profile default provider health is degraded: provider quorum degraded");
    let relaxed = SettingsSyncCyclePolicy::new((), 4, 8, 1).with_provider_health_required(false);
    assert_eq!(relaxed.check_before_cycle(&policy_report(policy_provider_health(true, 0, 0, 0), false, false)), Ok(()));
}

#[test]
fn policy_requires_fresh_providers_and_bounds_stale_and_offline_ones() {
    let policy = SettingsSyncCyclePolicy::new((), 4, 8, 1).with_minimum_fresh_online_providers(2);
    let error = policy.check_before_cycle(&policy_report(policy_provider_health(false, 1, 0, 0), false, false)).expect_err("too few");
    assert_eq!(error.message(), "profile default requires at least 2 fresh online providers, but health reported 1");
    let bounded = SettingsSyncCyclePolicy::new((), 4, 8, 1).with_maximum_stale_online_providers(0).with_maximum_offline_providers(0);
    let stale = bounded.check_before_cycle(&policy_report(policy_provider_health(false, 1, 1, 1), false, false)).expect_err("stale");
    assert_eq!(stale.message(), "profile default allows at most 0 stale online providers, but health reported 1");
    let offline = bounded.check_before_cycle(&policy_report(policy_provider_health(false, 1, 0, 2), false, false)).expect_err("offline");
    assert_eq!(offline.message(), "profile default allows at most 0 offline providers, but health reported 2");
    assert_eq!(bounded.check_before_cycle(&policy_report(policy_provider_health(false, 1, 0, 0), false, false)), Ok(()));
}

#[test]
fn policy_checks_root_health_after_a_cycle() {
    let policy = SettingsSyncCyclePolicy::new((), 4, 8, 1);
    let error = policy.check_after_cycle(&policy_report(policy_provider_health(false, 1, 0, 0), true, true)).expect_err("settings root");
    assert_eq!(error.message(), "profile default settings root health is degraded");
    let head_only = SettingsSyncCyclePolicy::new((), 4, 8, 1).with_settings_root_health_required_after_cycle(false);
    let error = head_only.check_after_cycle(&policy_report(policy_provider_health(false, 1, 0, 0), true, true)).expect_err("head root");
    assert_eq!(error.message(), "profile default local device-head root health is degraded");
    let off = SettingsSyncCyclePolicy::new((), 4, 8, 1).with_root_health_required_after_cycle(false);
    assert_eq!(off.check_after_cycle(&policy_report(policy_provider_health(false, 1, 0, 0), true, true)), Ok(()));
    assert_eq!(policy.minimum_selected_retention_provider_count(), 0);
}

#[test]
fn policy_checks_each_provider_role_minimum_in_order() {
    let mut provider = policy_provider_health(false, 3, 0, 0);
    provider.object_transfer_providers = 1;
    provider.availability_providers = 0;
    provider.mutable_root_providers = 0;
    let report = policy_report(provider, false, false);
    let transfer = SettingsSyncCyclePolicy::new((), 4, 8, 1).with_minimum_object_transfer_providers(2);
    let error = transfer.check_before_cycle(&report).expect_err("object transfer");
    assert_eq!(error.message(), "profile default requires at least 2 object-transfer providers, but health reported 1");
    let availability = SettingsSyncCyclePolicy::new((), 4, 8, 1).with_minimum_availability_providers(1);
    let error = availability.check_before_cycle(&report).expect_err("availability");
    assert_eq!(error.message(), "profile default requires at least 1 availability providers, but health reported 0");
    let mutable_root = SettingsSyncCyclePolicy::new((), 4, 8, 1)
        .with_minimum_availability_providers(0)
        .with_minimum_mutable_root_providers(1);
    let error = mutable_root.check_before_cycle(&report).expect_err("mutable root");
    assert_eq!(error.message(), "profile default requires at least 1 mutable-root providers, but health reported 0");
}

#[test]
fn policy_can_leave_the_local_device_head_root_unchecked() {
    let policy = SettingsSyncCyclePolicy::new((), 4, 8, 1).with_local_device_head_root_health_required_after_cycle(false);
    assert_eq!(policy.check_after_cycle(&policy_report(policy_provider_health(false, 1, 0, 0), false, true)), Ok(()));
    let error = policy.check_after_cycle(&policy_report(policy_provider_health(false, 1, 0, 0), true, true)).expect_err("settings");
    assert_eq!(error.message(), "profile default settings root health is degraded");
}
