use slate_profile_sync::publish::ProfileSyncRootRecord;
use slate_profile_sync::runs::{
    cycle_retained_object_ids, root_pull_decision, shared_root_candidate_object_ids,
    ProfileSyncSettingsCandidateApplication, ProfileSyncSettingsCandidatePullApplyStatus, RootPullDecision,
};

#[test]
fn roots_are_fetched_only_when_they_changed() {
    assert_eq!(root_pull_decision(None, &None), RootPullDecision::NoPublishedRoot);
    let stored = Some(ProfileSyncRootRecord {
        profile: "default".to_string(),
        root_id: "account/membership/log".to_string(),
        object_id: "object-1".to_string(),
    });
    assert_eq!(
        root_pull_decision(Some("object-1".to_string()), &stored),
        RootPullDecision::Unchanged { object_id: "object-1".to_string() }
    );
    assert_eq!(
        root_pull_decision(Some("object-2".to_string()), &stored),
        RootPullDecision::Fetch { object_id: "object-2".to_string() }
    );
    assert_eq!(
        root_pull_decision(Some("object-2".to_string()), &None),
        RootPullDecision::Fetch { object_id: "object-2".to_string() }
    );
}

#[test]
fn retained_objects_merge_published_and_candidate_objects_once() {
    let status = ProfileSyncSettingsCandidatePullApplyStatus::Applied(vec![
        ProfileSyncSettingsCandidateApplication { sync_object_ids: vec!["m1".to_string(), "c1".to_string()] },
        ProfileSyncSettingsCandidateApplication { sync_object_ids: vec!["c1".to_string(), "m2".to_string()] },
    ]);
    let candidates = shared_root_candidate_object_ids(&status);
    assert_eq!(candidates, vec!["m1".to_string(), "c1".to_string(), "m2".to_string()]);
    let retained = cycle_retained_object_ids(vec!["p1".to_string(), "m1".to_string()], candidates);
    assert_eq!(retained, vec!["p1".to_string(), "m1".to_string(), "c1".to_string(), "m2".to_string()]);
    let unchanged = ProfileSyncSettingsCandidatePullApplyStatus::Unchanged {
        profile: "default".to_string(),
        root_id: "settings/latest".to_string(),
    };
    assert!(shared_root_candidate_object_ids(&unchanged).is_empty());
}
