use slate_profile_sync::errors::ProfileSyncPublishError;
use slate_profile_sync::membership::{
    membership_log_for_records, membership_log_publication_gate, profile_sync_membership_log_root_id,
    settings_device_head_root_id, sync_membership_record_root_id, ProfileSyncMembershipLogPublicationPlan,
    ProfileSyncMembershipLogPublicationPlanStatus, SyncAccountMembershipRecord,
    PROFILE_SYNC_MEMBERSHIP_LOG_MAX_RECORDS, PROFILE_SYNC_MEMBERSHIP_LOG_SCHEMA_VERSION,
};

#[test]
fn membership_log_publication_plan_classifies_record_counts() {
    let empty = ProfileSyncMembershipLogPublicationPlan::for_record_count("default", "root", 0);
    assert_eq!(empty.status, ProfileSyncMembershipLogPublicationPlanStatus::Empty);
    assert!(empty.is_empty());
    assert!(!empty.is_publishable());
    assert!(!empty.requires_compaction());

    let capped = ProfileSyncMembershipLogPublicationPlan::for_record_count(
        "default",
        "root",
        PROFILE_SYNC_MEMBERSHIP_LOG_MAX_RECORDS,
    );
    assert_eq!(capped.status, ProfileSyncMembershipLogPublicationPlanStatus::Publishable);
    assert!(!capped.is_empty());
    assert!(capped.is_publishable());
    assert!(!capped.requires_compaction());

    let oversized = ProfileSyncMembershipLogPublicationPlan::for_record_count(
        "default",
        "root",
        PROFILE_SYNC_MEMBERSHIP_LOG_MAX_RECORDS + 1,
    );
    assert_eq!(oversized.status, ProfileSyncMembershipLogPublicationPlanStatus::TooLarge);
    assert!(!oversized.is_empty());
    assert!(!oversized.is_publishable());
    assert!(oversized.requires_compaction());
}

#[test]
fn membership_log_root_ids_follow_the_published_layout() {
    assert_eq!(profile_sync_membership_log_root_id(), "account/membership/log");
    assert_eq!(settings_device_head_root_id("device-a"), "settings/devices/device-a/head");
    assert_eq!(sync_membership_record_root_id("record-7"), "account/membership/record-7");
}

#[test]
fn membership_log_gate_skips_empty_logs_and_refuses_oversized_ones() {
    let empty = ProfileSyncMembershipLogPublicationPlan::for_record_count("default", "root", 0);
    assert_eq!(membership_log_publication_gate(&empty), Ok(false));

    let publishable = ProfileSyncMembershipLogPublicationPlan::for_record_count("default", "root", 3);
    assert_eq!(membership_log_publication_gate(&publishable), Ok(true));

    let oversized = ProfileSyncMembershipLogPublicationPlan::for_record_count("work", "root", 513);
    let error = membership_log_publication_gate(&oversized).expect_err("oversized log");
    assert_eq!(
        error,
        ProfileSyncPublishError::MembershipLogTooLarge {
            profile: "work".to_string(),
            max_records: 512,
            actual_records: 513,
        }
    );
    assert_eq!(
        error.message(),
        "profile sync membership log for profile work has 513 records, exceeding max 512"
    );
}

#[test]
fn membership_log_lists_each_record_with_its_published_object() {
    let records = vec![
        SyncAccountMembershipRecord {
            record_id: "r1".to_string(),
            membership_epoch: 1,
            record_kind: "enroll".to_string(),
            device_id: "device-a".to_string(),
            signer_device_id: "device-a".to_string(),
            signed_record: vec![1, 2, 3],
        },
        SyncAccountMembershipRecord {
            record_id: "r2".to_string(),
            membership_epoch: 2,
            record_kind: "revoke".to_string(),
            device_id: "device-b".to_string(),
            signer_device_id: "device-a".to_string(),
            signed_record: vec![4],
        },
    ];
    let object_ids = vec!["object-1".to_string(), "object-2".to_string()];
    let log = membership_log_for_records("default", &records, &object_ids);

    assert_eq!(log.profile, "default");
    assert_eq!(log.schema_version, PROFILE_SYNC_MEMBERSHIP_LOG_SCHEMA_VERSION);
    assert_eq!(log.records.len(), 2);
    assert_eq!(log.records[0].record_id, "r1");
    assert_eq!(log.records[0].root_id, "account/membership/r1");
    assert_eq!(log.records[0].object_id, "object-1");
    assert_eq!(log.records[1].membership_epoch, 2);
    assert_eq!(log.records[1].record_kind, "revoke");
    assert_eq!(log.records[1].device_id, "device-b");
    assert_eq!(log.records[1].signer_device_id, "device-a");
    assert_eq!(log.records[1].object_id, "object-2");
}
