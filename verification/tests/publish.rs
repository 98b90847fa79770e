use slate_profile_sync::errors::{ProfileSyncPublishError, StorageError, SyncObjectError};
use slate_profile_sync::publish::{
    check_existing_snapshot_object_id, check_local_device_head_object, validate_snapshot_manifest_for_publish, covered_changes_through_revision, device_head_covers_change, included_domains,
    latest_local_device_change_for_head, local_device_changes, local_device_frontier, local_snapshot_device_head,
    local_tail_device_head, snapshot_backend_object_id, snapshot_supports_incremental_tail, split_compaction_changes,
    validate_device_head_for_publish, validate_setting_changes_for_publish, validate_snapshot_covered_changes_for_publish,
    validate_snapshot_for_publish, validate_tail_changes_for_publish, merge_enabled_settings_text_events,
    enabled_domain_events, pending_local_head_step, LocalSettingsHeadPublishStatus, PendingLocalHeadStep,
    LocalSettingsSyncLoop, LocalSyncLoopAction, ProfileSyncDeviceFrontier, ProfileSyncDeviceHead, ProfileSyncManifest,
    ProfileSyncRootRecord, ProfileSyncSettingsSnapshot, PublishedLocalSettingsSnapshotHead,
    PublishedProfileSyncDeviceHead, PublishedSettingsSnapshotManifest, PublishedSettingsTailManifest,
    SyncChangeRecord, SyncSettingTextEvent, SyncSettingTextRevision, SyncSnapshotRecord,
};

fn change(id: i64, domain: &str, device_id: &str, device_sequence: i64, logical_clock: i64) -> SyncChangeRecord {
    SyncChangeRecord {
        id,
        profile: "default".to_string(),
        domain: domain.to_string(),
        entity_key: format!("key-{id}"),
        operation: "set_text".to_string(),
        payload: "value".to_string(),
        device_id: device_id.to_string(),
        device_sequence,
        logical_clock,
        created_at: 100 + id,
    }
}

fn event(revision: i64, change: SyncChangeRecord) -> SyncSettingTextEvent {
    SyncSettingTextEvent {
        revision: SyncSettingTextRevision { revision, created_at: 100 + revision, change_id: change.id },
        change,
    }
}

fn head(profile: &str, root_id: &str, device_id: &str) -> ProfileSyncDeviceHead {
    ProfileSyncDeviceHead {
        profile: profile.to_string(),
        device_id: device_id.to_string(),
        root_id: root_id.to_string(),
        schema_version: 1,
        membership_epoch: 1,
        latest_manifest_object_id: "manifest-1".to_string(),
        latest_change_object_id: None,
        device_sequence: 4,
        logical_clock: 9,
        created_at: 77,
    }
}

fn root(object_id: &str) -> ProfileSyncRootRecord {
    ProfileSyncRootRecord { profile: "default".to_string(), root_id: "r".to_string(), object_id: object_id.to_string() }
}

#[test]
fn setting_changes_must_belong_to_the_profile_and_set_text() {
    let good = vec![change(1, "ui", "d", 1, 1)];
    assert_eq!(validate_setting_changes_for_publish("default", &good, "tail change"), Ok(()));
    let mut foreign = change(5, "ui", "d", 1, 1);
    foreign.profile = "work".to_string();
    assert_eq!(
        validate_setting_changes_for_publish("default", &vec![change(1, "ui", "d", 1, 1), foreign], "tail change"),
        Err(StorageError::InvalidProfileSyncManifest(
            "tail change 5 profile work does not match manifest profile default".to_string()
        ))
    );
    let mut deletion = change(-3, "ui", "d", 1, 1);
    deletion.operation = "delete".to_string();
    assert_eq!(
        validate_setting_changes_for_publish("default", &vec![deletion], "snapshot-covered change"),
        Err(StorageError::InvalidProfileSyncManifest(
            "snapshot-covered change -3 operation delete is not supported by settings manifests".to_string()
        ))
    );
    assert_eq!(
        validate_tail_changes_for_publish("default", &Vec::new()),
        Err(StorageError::InvalidProfileSyncManifest("settings manifest tail is empty".to_string()))
    );
}

#[test]
fn snapshots_must_match_profile_schema_and_domains() {
    let snapshot = ProfileSyncSettingsSnapshot {
        profile: "default".to_string(),
        schema_version: 1,
        included_domains: vec!["ui".to_string()],
    };
    assert_eq!(validate_snapshot_for_publish("default", &snapshot, 1), Ok(()));
    assert_eq!(validate_snapshot_for_publish("default", &snapshot, 2), Err(StorageError::UnsupportedSyncSnapshotSchema(1)));
    assert_eq!(
        validate_snapshot_for_publish("work", &snapshot, 1),
        Err(StorageError::InvalidProfileSyncManifest(
            "snapshot profile default does not match manifest profile work".to_string()
        ))
    );
    assert_eq!(
        validate_snapshot_covered_changes_for_publish("default", &snapshot, &vec![change(1, "ui", "d", 1, 1), change(2, "net", "d", 2, 2)]),
        Err(StorageError::InvalidProfileSyncManifest(
            "snapshot-covered change 2 domain net is not included in snapshot".to_string()
        ))
    );
}

#[test]
fn device_heads_are_checked_before_publishing() {
    let root_id = "settings/devices/device-a/head";
    assert_eq!(validate_device_head_for_publish("default", root_id, &head("default", root_id, "device-a"), "device-a", 1, "device-head"), Ok(()));
    assert_eq!(
        validate_device_head_for_publish("default", "", &head("default", root_id, "device-a"), "device-a", 1, "device-head"),
        Err(ProfileSyncPublishError::Storage(StorageError::InvalidSyncRootId(String::new())))
    );
    assert_eq!(
        validate_device_head_for_publish("default", root_id, &head("default", root_id, "device-a"), "device-a", 2, "device-head"),
        Err(ProfileSyncPublishError::SyncObject(SyncObjectError::UnsupportedSchema {
            object_kind: "device-head".to_string(),
            schema_version: 1,
        }))
    );
    assert_eq!(
        validate_device_head_for_publish("default", root_id, &head("default", root_id, "device-a"), "device-b", 1, "device-head"),
        Err(ProfileSyncPublishError::SyncObject(SyncObjectError::DeviceKeyMismatch {
            expected_device_id: "device-b".to_string(),
            actual_device_id: "device-a".to_string(),
        }))
    );
    let mut no_manifest = head("default", root_id, "device-a");
    no_manifest.latest_manifest_object_id = String::new();
    assert_eq!(
        validate_device_head_for_publish("default", root_id, &no_manifest, "device-a", 1, "device-head"),
        Err(ProfileSyncPublishError::Storage(StorageError::InvalidProfileSyncManifest(
            "device head latest manifest object id is empty".to_string()
        )))
    );
}

#[test]
fn latest_local_change_is_the_last_greatest_of_the_device() {
    let changes = vec![
        change(1, "ui", "device-a", 2, 5),
        change(2, "ui", "device-b", 9, 9),
        change(3, "ui", "device-a", 2, 7),
        change(4, "ui", "device-a", 1, 99),
    ];
    assert_eq!(latest_local_device_change_for_head("device-a", &changes), Some(2));
    assert_eq!(latest_local_device_change_for_head("device-c", &changes), None);
    let mut tie = change(3, "ui", "device-a", 2, 7);
    tie.created_at = 103;
    let with_tie = vec![change(3, "ui", "device-a", 2, 7), tie];
    assert_eq!(latest_local_device_change_for_head("device-a", &with_tie), Some(1));
}

#[test]
fn change_selections_follow_revisions_and_devices() {
    let events = vec![
        event(1, change(1, "ui", "device-a", 1, 1)),
        event(2, change(2, "net", "device-b", 1, 1)),
        event(3, change(3, "ui", "device-a", 2, 2)),
    ];
    let local = local_device_changes(&events, "device-a");
    assert_eq!(local.iter().map(|c| c.id).collect::<Vec<_>>(), vec![1, 3]);
    let covered = covered_changes_through_revision(&events, 2);
    assert_eq!(covered.iter().map(|c| c.id).collect::<Vec<_>>(), vec![1, 2]);
    let (covered, tail) = split_compaction_changes(&events, 1);
    assert_eq!(covered.iter().map(|c| c.id).collect::<Vec<_>>(), vec![1]);
    assert_eq!(tail.iter().map(|c| c.id).collect::<Vec<_>>(), vec![2, 3]);
    let (all, none) = split_compaction_changes(&events, 10);
    assert_eq!(all.len(), 3);
    assert!(none.is_empty());
    let domains = included_domains(&vec![change(1, "ui", "a", 1, 1), change(2, "net", "a", 1, 1), change(3, "ui", "a", 1, 1)]);
    assert_eq!(domains, vec!["net".to_string(), "ui".to_string()]);
}

#[test]
fn device_heads_take_manifest_frontier_and_change() {
    let head_change = change(8, "ui", "device-a", 5, 11);
    let snapshot_head = local_snapshot_device_head("default", "device-a", "manifest-9", &head_change, 1, 1);
    assert_eq!(snapshot_head.root_id, "settings/devices/device-a/head");
    assert_eq!(snapshot_head.device_sequence, 5);
    assert_eq!(snapshot_head.logical_clock, 11);
    assert_eq!(snapshot_head.latest_change_object_id, None);
    let frontiers = vec![
        ProfileSyncDeviceFrontier { device_id: "device-b".to_string(), latest_sequence: 3, latest_change_object_id: None },
        ProfileSyncDeviceFrontier { device_id: "device-a".to_string(), latest_sequence: 6, latest_change_object_id: Some("change-6".to_string()) },
    ];
    let position = local_device_frontier(&frontiers, "device-a").expect("frontier");
    assert_eq!(position, 1);
    let tail_head = local_tail_device_head("default", "device-a", "manifest-10", &frontiers[position], &head_change, 1, 1);
    assert_eq!(tail_head.device_sequence, 6);
    assert_eq!(tail_head.latest_change_object_id, Some("change-6".to_string()));
    assert_eq!(
        local_device_frontier(&frontiers, "device-z"),
        Err(StorageError::InvalidProfileSyncManifest("settings manifest has no frontier for local device device-z".to_string()))
    );
}

#[test]
fn pending_head_decisions() {
    let published = SyncSnapshotRecord {
        snapshot_id: "snap-3".to_string(),
        backend_object_id: Some("object-3".to_string()),
        covers_revision: 3,
        included_domains: vec!["ui".to_string()],
    };
    let mut unpublished = published.clone();
    unpublished.backend_object_id = None;
    assert!(snapshot_supports_incremental_tail(&Some(published.clone())));
    assert!(!snapshot_supports_incremental_tail(&Some(unpublished.clone())));
    assert!(!snapshot_supports_incremental_tail(&None));
    assert_eq!(snapshot_backend_object_id(&published), Ok("object-3".to_string()));
    assert_eq!(
        snapshot_backend_object_id(&unpublished),
        Err(StorageError::InvalidProfileSyncManifest("latest settings snapshot snap-3 has no backend object id".to_string()))
    );
    let latest = change(4, "ui", "device-a", 4, 1);
    assert!(device_head_covers_change(&Some(head("default", "r", "device-a")), &latest));
    let mut behind = head("default", "r", "device-a");
    behind.device_sequence = 3;
    assert!(!device_head_covers_change(&Some(behind), &latest));
    assert!(!device_head_covers_change(&None, &latest));
    assert_eq!(check_local_device_head_object("object-1", "object-1"), Ok(()));
    assert_eq!(
        check_local_device_head_object("object-1", "object-2"),
        Err(StorageError::InvalidProfileSyncManifest("stored local device head root object-1 resolved to mismatched object object-2".to_string()))
    );
}

fn snapshot_publication() -> PublishedLocalSettingsSnapshotHead {
    PublishedLocalSettingsSnapshotHead {
        publication: PublishedSettingsSnapshotManifest {
            manifest_object_id: "manifest".to_string(),
            manifest: ProfileSyncManifest { device_frontiers: Vec::new() },
            snapshot_object_id: "snapshot".to_string(),
            tail_change_object_ids: vec!["change-1".to_string(), "snapshot".to_string(), "change-2".to_string()],
        },
        device_head: PublishedProfileSyncDeviceHead {
            root_id: "settings/devices/device-a/head".to_string(),
            object_id: "head".to_string(),
            device_head: head("default", "settings/devices/device-a/head", "device-a"),
        },
        snapshot_record: SyncSnapshotRecord {
            snapshot_id: "snap".to_string(),
            backend_object_id: Some("snapshot".to_string()),
            covers_revision: 2,
            included_domains: Vec::new(),
        },
        settings_root: root("manifest"),
        device_head_root: root("head"),
    }
}

#[test]
fn published_object_ids_list_each_object_once_in_order() {
    let tail = PublishedSettingsTailManifest {
        manifest_object_id: "manifest".to_string(),
        manifest: ProfileSyncManifest { device_frontiers: Vec::new() },
        tail_change_object_ids: vec!["a".to_string(), "b".to_string(), "a".to_string()],
    };
    assert_eq!(tail.published_object_ids(), vec!["a".to_string(), "b".to_string(), "manifest".to_string()]);
    let published = snapshot_publication();
    assert_eq!(
        published.published_object_ids(),
        vec!["snapshot".to_string(), "change-1".to_string(), "change-2".to_string(), "manifest".to_string(), "head".to_string()]
    );
    let status = LocalSettingsHeadPublishStatus::PublishedFullSnapshot(published);
    assert!(!status.is_idle());
    assert_eq!(status.published_manifest_object_id(), Some("manifest"));
    assert!(LocalSettingsHeadPublishStatus::NoLocalSettingsChanges.is_idle());
    assert!(LocalSettingsHeadPublishStatus::NoLocalSettingsChanges.published_object_ids().is_empty());
}

#[test]
fn local_sync_loop_stops_when_idle_or_after_max_steps() {
    let mut sync_loop = LocalSettingsSyncLoop::new("default", "settings/latest", 2);
    assert_eq!(sync_loop.next_action(), LocalSyncLoopAction::PublishStep);
    sync_loop.record_step(LocalSettingsHeadPublishStatus::PublishedFullSnapshot(snapshot_publication()));
    assert_eq!(sync_loop.next_action(), LocalSyncLoopAction::PublishStep);
    sync_loop.record_step(LocalSettingsHeadPublishStatus::NoLocalSettingsChanges);
    assert_eq!(sync_loop.next_action(), LocalSyncLoopAction::Finished);
    assert!(sync_loop.run.is_idle());
    assert_eq!(sync_loop.run.published_step_count(), 1);
    assert_eq!(sync_loop.run.published_object_ids().len(), 5);

    let mut busy = LocalSettingsSyncLoop::new("default", "settings/latest", 1);
    busy.record_step(LocalSettingsHeadPublishStatus::PublishedFullSnapshot(snapshot_publication()));
    assert_eq!(
        busy.next_action(),
        LocalSyncLoopAction::Exhausted(ProfileSyncPublishError::LocalSyncLoopExhausted {
            profile: "default".to_string(),
            settings_root_id: "settings/latest".to_string(),
            max_steps: 1,
        })
    );
    let never = LocalSettingsSyncLoop::new("default", "settings/latest", 0);
    assert!(matches!(never.next_action(), LocalSyncLoopAction::Exhausted(_)));
}

#[test]
fn enabled_domain_events_merge_in_history_order_up_to_the_limit() {
    let calendar = vec![event(3, change(3, "calendar", "device-a", 2, 2))];
    let settings = vec![event(1, change(1, "settings", "device-a", 1, 1)), event(4, change(4, "settings", "device-a", 3, 3))];
    let first_batch = merge_enabled_settings_text_events(vec![calendar.clone(), settings.clone()], 2);
    assert_eq!(first_batch.iter().map(|e| e.change.id).collect::<Vec<_>>(), vec![1, 3]);
    let everything = merge_enabled_settings_text_events(vec![calendar, settings], 10);
    assert_eq!(everything.iter().map(|e| e.change.id).collect::<Vec<_>>(), vec![1, 3, 4]);
    let tie_a = event(5, change(10, "a", "device-a", 1, 1));
    let mut tie_b = event(5, change(10, "b", "device-a", 1, 1));
    tie_b.revision = tie_a.revision;
    let ties = merge_enabled_settings_text_events(vec![vec![tie_a], vec![tie_b]], 10);
    assert_eq!(ties.iter().map(|e| e.change.domain.as_str()).collect::<Vec<_>>(), vec!["a", "b"]);
}

#[test]
fn snapshot_manifest_inputs_are_checked_in_order() {
    let snapshot = ProfileSyncSettingsSnapshot {
        profile: "default".to_string(),
        schema_version: 1,
        included_domains: vec!["ui".to_string()],
    };
    let covered = vec![change(1, "ui", "d", 1, 1)];
    let mut bad_tail = change(2, "ui", "d", 2, 2);
    bad_tail.operation = "delete".to_string();
    assert_eq!(validate_snapshot_manifest_for_publish("default", &snapshot, &covered, &vec![change(3, "net", "d", 3, 3)], 1), Ok(()));
    assert_eq!(
        validate_snapshot_manifest_for_publish("default", &snapshot, &covered, &vec![bad_tail], 1),
        Err(StorageError::InvalidProfileSyncManifest(
            "tail change 2 operation delete is not supported by settings manifests".to_string()
        ))
    );
    assert_eq!(
        validate_snapshot_manifest_for_publish("default", &snapshot, &vec![change(4, "net", "d", 1, 1)], &Vec::new(), 1),
        Err(StorageError::InvalidProfileSyncManifest(
            "snapshot-covered change 4 domain net is not included in snapshot".to_string()
        ))
    );
    assert_eq!(check_existing_snapshot_object_id("object-1"), Ok(()));
    assert_eq!(
        check_existing_snapshot_object_id(""),
        Err(StorageError::InvalidProfileSyncManifest("settings snapshot backend object id is empty".to_string()))
    );
}

#[test]
fn pending_local_head_step_follows_snapshot_changes_and_head() {
    let published = SyncSnapshotRecord {
        snapshot_id: "snap-3".to_string(),
        backend_object_id: Some("object-3".to_string()),
        covers_revision: 3,
        included_domains: vec!["ui".to_string()],
    };
    let mut unpublished = published.clone();
    unpublished.backend_object_id = None;
    let changes = vec![change(4, "ui", "device-a", 5, 1), change(5, "ui", "device-a", 4, 9)];
    let mut behind_head = head("default", "r", "device-a");
    behind_head.device_sequence = 4;
    let behind = Some(behind_head);

    assert_eq!(pending_local_head_step(&None, "device-a", &changes, &behind), PendingLocalHeadStep::PublishFullSnapshot);
    assert_eq!(
        pending_local_head_step(&Some(unpublished), "device-a", &changes, &behind),
        PendingLocalHeadStep::PublishFullSnapshot
    );
    assert_eq!(
        pending_local_head_step(&Some(published.clone()), "device-b", &changes, &None),
        PendingLocalHeadStep::UpToDate
    );
    assert_eq!(
        pending_local_head_step(&Some(published.clone()), "device-a", &Vec::new(), &None),
        PendingLocalHeadStep::UpToDate
    );
    assert_eq!(
        pending_local_head_step(&Some(published.clone()), "device-a", &changes, &behind),
        PendingLocalHeadStep::PublishIncrementalTail
    );
    assert_eq!(
        pending_local_head_step(&Some(published.clone()), "device-a", &changes, &None),
        PendingLocalHeadStep::PublishIncrementalTail
    );
    let mut at_latest = head("default", "r", "device-a");
    at_latest.device_sequence = 5;
    assert_eq!(
        pending_local_head_step(&Some(published.clone()), "device-a", &changes, &Some(at_latest)),
        PendingLocalHeadStep::UpToDate
    );
}

#[test]
fn compaction_keeps_only_enabled_domain_events_in_order() {
    let events = vec![
        event(1, change(1, "settings", "device-a", 1, 1)),
        event(2, change(2, "chat", "device-a", 2, 2)),
        event(3, change(3, "calendar", "device-a", 3, 3)),
        event(4, change(4, "settings", "device-a", 4, 4)),
    ];
    let enabled = vec!["calendar".to_string(), "settings".to_string()];
    let kept = enabled_domain_events(&events, &enabled);
    assert_eq!(kept.iter().map(|e| e.change.id).collect::<Vec<_>>(), vec![1, 3, 4]);
    assert_eq!(kept[1], events[2]);
    assert!(enabled_domain_events(&events, &Vec::new()).is_empty());
}

#[test]
fn merged_events_are_the_given_events_in_history_order() {
    let first = vec![event(7, change(7, "a", "device-a", 1, 1)), event(2, change(2, "a", "device-a", 2, 2))];
    let second = vec![event(5, change(5, "b", "device-b", 1, 1)), event(1, change(1, "b", "device-b", 2, 2))];
    let merged = merge_enabled_settings_text_events(vec![first, second], 10);
    assert_eq!(merged.iter().map(|e| e.change.id).collect::<Vec<_>>(), vec![1, 2, 5, 7]);
}
