use slate_profile_sync::retention::{BroadwebdProfileSyncRetentionStatus, SettingsSyncCycleProviderRetentionRun};

fn retention_status(object_id: &str, retained: bool, available: bool) -> BroadwebdProfileSyncRetentionStatus {
    BroadwebdProfileSyncRetentionStatus { object_id: object_id.to_string(), retained, available }
}

#[test]
fn retention_run_counts_retained_and_available_objects_separately() {
    let run = SettingsSyncCycleProviderRetentionRun {
        provider_index: 2,
        object_statuses: vec![
            retention_status("object-a", true, true),
            retention_status("object-b", true, false),
            retention_status("object-c", false, false),
        ],
    };
    assert_eq!(run.retained_count(), 2);
    assert_eq!(run.available_count(), 1);
    let empty = SettingsSyncCycleProviderRetentionRun { provider_index: 0, object_statuses: Vec::new() };
    assert_eq!(empty.retained_count(), 0);
    assert_eq!(empty.available_count(), 0);
}
