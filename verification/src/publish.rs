//! Publishing local settings: what may be published, which change a device head describes,
//! and the device heads themselves.
use vstd::prelude::*;
use crate::text::{append_decimal_i64, append_str, owned, signed_decimal, str_equal, str_less, chars_lt, chars_lt_from};
use crate::membership_validation::{lemma_chars_lt_total, lemma_chars_lt_transitive};
use crate::errors::{ProfileSyncPublishError, StorageError, SyncObjectError};
use crate::membership::{settings_device_head_root_id, settings_device_head_root_id_spec};
use crate::object_ids::{
    unique_ids, extend_unique, push_unique_object_id, extend_unique_object_ids, lemma_extend_unique_concat,
    lemma_extend_unique_absorbs_unique_ids, lemma_extend_unique_single, extend_unique_object_ids_from,
    lemma_extend_unique, contains_string,
};

verus! {

/// A recorded change of one setting.
#[derive(Clone, Debug, PartialEq, Eq)]
pub struct SyncChangeRecord {
    pub id: i64,
    pub profile: String,
    pub domain: String,
    pub entity_key: String,
    pub operation: String,
    pub payload: String,
    pub device_id: String,
    pub device_sequence: i64,
    pub logical_clock: i64,
    pub created_at: i64,
}

impl SyncChangeRecord {
    /// A copy of this change.
    pub fn duplicate(&self) -> (copy: SyncChangeRecord)
        ensures
            copy == *self,
    {
        SyncChangeRecord {
            id: self.id,
            profile: self.profile.clone(),
            domain: self.domain.clone(),
            entity_key: self.entity_key.clone(),
            operation: self.operation.clone(),
            payload: self.payload.clone(),
            device_id: self.device_id.clone(),
            device_sequence: self.device_sequence,
            logical_clock: self.logical_clock,
            created_at: self.created_at,
        }
    }
}

/// The contents of a settings snapshot that publishing checks.
#[derive(Clone, Debug, PartialEq, Eq)]
pub struct ProfileSyncSettingsSnapshot {
    pub profile: String,
    pub schema_version: u32,
    pub included_domains: Vec<String>,
}

/// The head a device publishes to point at its latest settings manifest.
#[derive(Clone, Debug, PartialEq, Eq)]
pub struct ProfileSyncDeviceHead {
    pub profile: String,
    pub device_id: String,
    pub root_id: String,
    pub schema_version: u32,
    pub membership_epoch: i64,
    pub latest_manifest_object_id: String,
    pub latest_change_object_id: Option<String>,
    pub device_sequence: i64,
    pub logical_clock: i64,
    pub created_at: i64,
}

/// How far a manifest covers the changes of one device.
#[derive(Clone, Debug, PartialEq, Eq)]
pub struct ProfileSyncDeviceFrontier {
    pub device_id: String,
    pub latest_sequence: i64,
    pub latest_change_object_id: Option<String>,
}

/// The label and id of a change in a message.
pub open spec fn change_label(label: Seq<char>, change: SyncChangeRecord) -> Seq<char> {
    label + " "@ + signed_decimal(change.id as int)
}

/// What is wrong with publishing `change` in a manifest of `profile`, if anything: it belongs
/// to another profile, or its operation is not a text setting.
pub open spec fn change_problem(profile: Seq<char>, change: SyncChangeRecord, label: Seq<char>) -> Option<Seq<char>> {
    if change.profile@ != profile {
        Some(change_label(label, change) + " profile "@ + change.profile@ + " does not match manifest profile "@ + profile)
    } else if change.operation@ != "set_text"@ {
        Some(change_label(label, change) + " operation "@ + change.operation@ + " is not supported by settings manifests"@)
    } else {
        None
    }
}

/// The problem of the first change, from position `i` on, that cannot be published.
pub open spec fn first_change_problem(profile: Seq<char>, changes: Seq<SyncChangeRecord>, label: Seq<char>, i: int) -> Option<Seq<char>>
    decreases changes.len() - i,
{
    if i < 0 || i >= changes.len() {
        None
    } else {
        match change_problem(profile, changes[i], label) {
            Some(problem) => Some(problem),
            None => first_change_problem(profile, changes, label, i + 1),
        }
    }
}

/// Whether `result` is `Ok` when there is no problem, and the manifest error with the
/// problem's text otherwise.
pub open spec fn manifest_check_result(result: Result<(), StorageError>, problem: Option<Seq<char>>) -> bool {
    match problem {
        None => result is Ok,
        Some(text) => result matches Err(StorageError::InvalidProfileSyncManifest(m)) && m@ == text,
    }
}

/// Checks that every change belongs to `profile` and sets a text value; the first that does
/// not is reported, named by `label` and its id.
pub fn validate_setting_changes_for_publish(profile: &str, changes: &Vec<SyncChangeRecord>, label: &str) -> (result: Result<(), StorageError>)
    ensures
        manifest_check_result(result, first_change_problem(profile@, changes@, label@, 0)),
{
    let mut i: usize = 0;
    while i < changes.len()
        invariant
            i <= changes@.len(),
            first_change_problem(profile@, changes@, label@, 0) == first_change_problem(profile@, changes@, label@, i as int),
        decreases changes.len() - i,
    {
        let change = &changes[i];
        if !str_equal(change.profile.as_str(), profile) {
            let mut m = owned(label);
            append_str(&mut m, " ");
            append_decimal_i64(&mut m, change.id);
            append_str(&mut m, " profile ");
            append_str(&mut m, change.profile.as_str());
            append_str(&mut m, " does not match manifest profile ");
            append_str(&mut m, profile);
            return Err(StorageError::InvalidProfileSyncManifest(m));
        }
        if !str_equal(change.operation.as_str(), "set_text") {
            let mut m = owned(label);
            append_str(&mut m, " ");
            append_decimal_i64(&mut m, change.id);
            append_str(&mut m, " operation ");
            append_str(&mut m, change.operation.as_str());
            append_str(&mut m, " is not supported by settings manifests");
            return Err(StorageError::InvalidProfileSyncManifest(m));
        }
        i = i + 1;
    }
    Ok(())
}

/// The problem with publishing `changes` as a manifest tail: there are none, or one of them
/// cannot be published.
pub open spec fn tail_changes_problem(profile: Seq<char>, changes: Seq<SyncChangeRecord>) -> Option<Seq<char>> {
    if changes.len() == 0 {
        Some("settings manifest tail is empty"@)
    } else {
        first_change_problem(profile, changes, "tail change"@, 0)
    }
}

/// Checks that a manifest tail is not empty and that each of its changes can be published.
pub fn validate_tail_changes_for_publish(profile: &str, changes: &Vec<SyncChangeRecord>) -> (result: Result<(), StorageError>)
    ensures
        manifest_check_result(result, tail_changes_problem(profile@, changes@)),
{
    if changes.len() == 0 {
        return Err(StorageError::InvalidProfileSyncManifest(owned("settings manifest tail is empty")));
    }
    validate_setting_changes_for_publish(profile, changes, "tail change")
}

/// Checks that a snapshot belongs to `profile` and has the schema version `schema_version` that
/// the store writes.
pub fn validate_snapshot_for_publish(profile: &str, snapshot: &ProfileSyncSettingsSnapshot, schema_version: u32) -> (result: Result<(), StorageError>)
    ensures
        if snapshot.profile@ != profile@ {
            result matches Err(StorageError::InvalidProfileSyncManifest(m))
                && m@ == "snapshot profile "@ + snapshot.profile@ + " does not match manifest profile "@ + profile@
        } else if snapshot.schema_version != schema_version {
            result == Err::<(), StorageError>(StorageError::UnsupportedSyncSnapshotSchema(snapshot.schema_version))
        } else {
            result is Ok
        },
{
    if !str_equal(snapshot.profile.as_str(), profile) {
        let mut m = owned("snapshot profile ");
        append_str(&mut m, snapshot.profile.as_str());
        append_str(&mut m, " does not match manifest profile ");
        append_str(&mut m, profile);
        return Err(StorageError::InvalidProfileSyncManifest(m));
    }
    if snapshot.schema_version != schema_version {
        return Err(StorageError::UnsupportedSyncSnapshotSchema(snapshot.schema_version));
    }
    Ok(())
}

/// The first change, from position `i` on, whose domain the snapshot does not include.
pub open spec fn first_uncovered_change(domains: Seq<Seq<char>>, changes: Seq<SyncChangeRecord>, i: int) -> Option<SyncChangeRecord>
    decreases changes.len() - i,
{
    if i < 0 || i >= changes.len() {
        None
    } else if !domains.contains(changes[i].domain@) {
        Some(changes[i])
    } else {
        first_uncovered_change(domains, changes, i + 1)
    }
}

/// The problem with publishing `changes` as covered by `snapshot`: one cannot be published, or
/// one belongs to a domain the snapshot does not include.
pub open spec fn covered_changes_problem(profile: Seq<char>, snapshot: ProfileSyncSettingsSnapshot, changes: Seq<SyncChangeRecord>) -> Option<Seq<char>> {
    match first_change_problem(profile, changes, "snapshot-covered change"@, 0) {
        Some(problem) => Some(problem),
        None => match first_uncovered_change(snapshot.included_domains.deep_view(), changes, 0) {
            Some(change) => Some(change_label("snapshot-covered change"@, change) + " domain "@ + change.domain@ + " is not included in snapshot"@),
            None => None,
        },
    }
}

/// Checks that each change covered by a snapshot can be published and lies in a domain the
/// snapshot includes.
pub fn validate_snapshot_covered_changes_for_publish(
    profile: &str,
    snapshot: &ProfileSyncSettingsSnapshot,
    changes: &Vec<SyncChangeRecord>,
) -> (result: Result<(), StorageError>)
    ensures
        manifest_check_result(result, covered_changes_problem(profile@, *snapshot, changes@)),
{
    match validate_setting_changes_for_publish(profile, changes, "snapshot-covered change") {
        Err(e) => { return Err(e); },
        Ok(()) => {},
    }
    let ghost domains = snapshot.included_domains.deep_view();
    let mut i: usize = 0;
    while i < changes.len()
        invariant
            i <= changes@.len(),
            domains == snapshot.included_domains.deep_view(),
            first_change_problem(profile@, changes@, "snapshot-covered change"@, 0) is None,
            first_uncovered_change(domains, changes@, 0) == first_uncovered_change(domains, changes@, i as int),
        decreases changes.len() - i,
    {
        let change = &changes[i];
        if !crate::object_ids::contains_string(&snapshot.included_domains, change.domain.as_str()) {
            let mut m = owned("snapshot-covered change");
            append_str(&mut m, " ");
            append_decimal_i64(&mut m, change.id);
            append_str(&mut m, " domain ");
            append_str(&mut m, change.domain.as_str());
            append_str(&mut m, " is not included in snapshot");
            return Err(StorageError::InvalidProfileSyncManifest(m));
        }
        i = i + 1;
    }
    Ok(())
}

/// Whether `result` is the publish error for a device head that cannot be published, as the
/// checks of `validate_device_head_for_publish` find it.
pub open spec fn device_head_check(
    result: Result<(), ProfileSyncPublishError>,
    profile: Seq<char>,
    root_id: Seq<char>,
    head: ProfileSyncDeviceHead,
    signer_device_id: Seq<char>,
    schema_version: u32,
    object_kind: Seq<char>,
) -> bool {
    if root_id.len() == 0 {
        result matches Err(ProfileSyncPublishError::Storage(StorageError::InvalidSyncRootId(r))) && r@ == root_id
    } else if head.profile@ != profile {
        result matches Err(ProfileSyncPublishError::Storage(StorageError::InvalidProfileSyncManifest(m)))
            && m@ == "device head profile "@ + head.profile@ + " does not match publish profile "@ + profile
    } else if head.root_id@ != root_id {
        result matches Err(ProfileSyncPublishError::Storage(StorageError::InvalidProfileSyncManifest(m)))
            && m@ == "device head root "@ + head.root_id@ + " does not match publish root "@ + root_id
    } else if head.schema_version != schema_version {
        result matches Err(ProfileSyncPublishError::SyncObject(SyncObjectError::UnsupportedSchema { object_kind: k, schema_version: v }))
            && k@ == object_kind && v == head.schema_version
    } else if head.device_id@ != signer_device_id {
        result matches Err(ProfileSyncPublishError::SyncObject(SyncObjectError::DeviceKeyMismatch { expected_device_id: e, actual_device_id: a }))
            && e@ == signer_device_id && a@ == head.device_id@
    } else if head.latest_manifest_object_id@.len() == 0 {
        result matches Err(ProfileSyncPublishError::Storage(StorageError::InvalidProfileSyncManifest(m)))
            && m@ == "device head latest manifest object id is empty"@
    } else {
        result is Ok
    }
}

/// Checks that a device head may be published under `root_id` for `profile` by the signing
/// device `signer_device_id`, with the device-head schema version `schema_version` the store
/// writes (`object_kind` names device heads in the error). See `device_head_check`.
pub fn validate_device_head_for_publish(
    profile: &str,
    root_id: &str,
    device_head: &ProfileSyncDeviceHead,
    signer_device_id: &str,
    schema_version: u32,
    object_kind: &str,
) -> (result: Result<(), ProfileSyncPublishError>)
    ensures
        device_head_check(result, profile@, root_id@, *device_head, signer_device_id@, schema_version, object_kind@),
{
    if root_id.unicode_len() == 0 {
        return Err(ProfileSyncPublishError::Storage(StorageError::InvalidSyncRootId(owned(root_id))));
    }
    if !str_equal(device_head.profile.as_str(), profile) {
        let mut m = owned("device head profile ");
        append_str(&mut m, device_head.profile.as_str());
        append_str(&mut m, " does not match publish profile ");
        append_str(&mut m, profile);
        return Err(ProfileSyncPublishError::Storage(StorageError::InvalidProfileSyncManifest(m)));
    }
    if !str_equal(device_head.root_id.as_str(), root_id) {
        let mut m = owned("device head root ");
        append_str(&mut m, device_head.root_id.as_str());
        append_str(&mut m, " does not match publish root ");
        append_str(&mut m, root_id);
        return Err(ProfileSyncPublishError::Storage(StorageError::InvalidProfileSyncManifest(m)));
    }
    if device_head.schema_version != schema_version {
        return Err(ProfileSyncPublishError::SyncObject(SyncObjectError::UnsupportedSchema {
            object_kind: owned(object_kind),
            schema_version: device_head.schema_version,
        }));
    }
    if !str_equal(device_head.device_id.as_str(), signer_device_id) {
        return Err(ProfileSyncPublishError::SyncObject(SyncObjectError::DeviceKeyMismatch {
            expected_device_id: owned(signer_device_id),
            actual_device_id: device_head.device_id.clone(),
        }));
    }
    if device_head.latest_manifest_object_id.as_str().unicode_len() == 0 {
        return Err(ProfileSyncPublishError::Storage(StorageError::InvalidProfileSyncManifest(
            owned("device head latest manifest object id is empty"),
        )));
    }
    Ok(())
}

/// Whether change `a` orders strictly before change `b` by device sequence, then logical
/// clock, then creation time, then id.
pub open spec fn change_order_lt(a: SyncChangeRecord, b: SyncChangeRecord) -> bool {
    ||| a.device_sequence < b.device_sequence
    ||| a.device_sequence == b.device_sequence && a.logical_clock < b.logical_clock
    ||| a.device_sequence == b.device_sequence && a.logical_clock == b.logical_clock && a.created_at < b.created_at
    ||| a.device_sequence == b.device_sequence && a.logical_clock == b.logical_clock && a.created_at == b.created_at && a.id < b.id
}

/// Whether `changes[i]` is the latest change of the device `device_id`: a change of that
/// device no earlier-listed change of it orders after, and every later-listed change of it
/// orders strictly before (so of equal changes, the last listed).
pub open spec fn is_latest_device_change(changes: Seq<SyncChangeRecord>, device_id: Seq<char>, i: int) -> bool {
    &&& 0 <= i < changes.len()
    &&& changes[i].device_id@ == device_id
    &&& forall|j: int| 0 <= j < i && (#[trigger] changes[j]).device_id@ == device_id ==> !change_order_lt(changes[i], changes[j])
    &&& forall|j: int| i < j < changes.len() && (#[trigger] changes[j]).device_id@ == device_id ==> change_order_lt(changes[j], changes[i])
}

fn change_order_less(a: &SyncChangeRecord, b: &SyncChangeRecord) -> (less: bool)
    ensures
        less == change_order_lt(*a, *b),
{
    if a.device_sequence != b.device_sequence {
        a.device_sequence < b.device_sequence
    } else if a.logical_clock != b.logical_clock {
        a.logical_clock < b.logical_clock
    } else if a.created_at != b.created_at {
        a.created_at < b.created_at
    } else {
        a.id < b.id
    }
}

/// The position of the latest change of the device `device_id` (see
/// `is_latest_device_change`), or `None` when it made none of `changes`.
pub fn latest_local_device_change_for_head(device_id: &str, changes: &Vec<SyncChangeRecord>) -> (latest: Option<usize>)
    ensures
        match latest {
            Some(i) => is_latest_device_change(changes@, device_id@, i as int),
            None => forall|j: int| 0 <= j < changes@.len() ==> (#[trigger] changes@[j]).device_id@ != device_id@,
        },
{
    let mut best: Option<usize> = None;
    let mut i: usize = 0;
    while i < changes.len()
        invariant
            i <= changes@.len(),
            match best {
                Some(b) => b < i && changes@[b as int].device_id@ == device_id@
                    && (forall|j: int| 0 <= j < b && (#[trigger] changes@[j]).device_id@ == device_id@ ==> !change_order_lt(changes@[b as int], changes@[j]))
                    && (forall|j: int| b < j < i && (#[trigger] changes@[j]).device_id@ == device_id@ ==> change_order_lt(changes@[j], changes@[b as int])),
                None => forall|j: int| 0 <= j < i ==> (#[trigger] changes@[j]).device_id@ != device_id@,
            },
        decreases changes.len() - i,
    {
        let change = &changes[i];
        if str_equal(change.device_id.as_str(), device_id) {
            match best {
                None => {
                    best = Some(i);
                },
                Some(b) => {
                    if !change_order_less(change, &changes[b]) {
                        proof {
                            assert forall|j: int| 0 <= j < i && (#[trigger] changes@[j]).device_id@ == device_id@ implies !change_order_lt(changes@[i as int], changes@[j]) by {
                                if j < b {
                                    assert(!change_order_lt(changes@[b as int], changes@[j]));
                                } else if j > b {
                                    assert(change_order_lt(changes@[j], changes@[b as int]));
                                }
                            }
                        }
                        best = Some(i);
                    }
                },
            }
        }
        i = i + 1;
    }
    best
}

/// The position of the first frontier of the device `device_id`, or the error that the
/// manifest has none.
pub fn local_device_frontier(frontiers: &Vec<ProfileSyncDeviceFrontier>, device_id: &str) -> (found: Result<usize, StorageError>)
    ensures
        match found {
            Ok(i) => i < frontiers@.len() && frontiers@[i as int].device_id@ == device_id@
                && forall|j: int| 0 <= j < i ==> (#[trigger] frontiers@[j]).device_id@ != device_id@,
            Err(e) => (forall|j: int| 0 <= j < frontiers@.len() ==> (#[trigger] frontiers@[j]).device_id@ != device_id@)
                && (e matches StorageError::InvalidProfileSyncManifest(m)
                && m@ == "settings manifest has no frontier for local device "@ + device_id@),
        },
{
    let mut i: usize = 0;
    while i < frontiers.len()
        invariant
            i <= frontiers@.len(),
            forall|j: int| 0 <= j < i ==> (#[trigger] frontiers@[j]).device_id@ != device_id@,
        decreases frontiers.len() - i,
    {
        if str_equal(frontiers[i].device_id.as_str(), device_id) {
            return Ok(i);
        }
        i = i + 1;
    }
    let mut m = owned("settings manifest has no frontier for local device ");
    append_str(&mut m, device_id);
    Err(StorageError::InvalidProfileSyncManifest(m))
}

/// The device head of a full snapshot publication: it points at the new manifest, names no
/// change object, and takes its sequence, clock and time from the latest local change.
pub fn local_snapshot_device_head(
    profile: &str,
    local_device_id: &str,
    manifest_object_id: &str,
    head_change: &SyncChangeRecord,
    schema_version: u32,
    membership_epoch: i64,
) -> (head: ProfileSyncDeviceHead)
    ensures
        head.profile@ == profile@,
        head.device_id@ == local_device_id@,
        head.root_id@ == settings_device_head_root_id_spec(local_device_id@),
        head.schema_version == schema_version,
        head.membership_epoch == membership_epoch,
        head.latest_manifest_object_id@ == manifest_object_id@,
        head.latest_change_object_id is None,
        head.device_sequence == head_change.device_sequence,
        head.logical_clock == head_change.logical_clock,
        head.created_at == head_change.created_at,
{
    ProfileSyncDeviceHead {
        profile: owned(profile),
        device_id: owned(local_device_id),
        root_id: settings_device_head_root_id(local_device_id),
        schema_version,
        membership_epoch,
        latest_manifest_object_id: owned(manifest_object_id),
        latest_change_object_id: None,
        device_sequence: head_change.device_sequence,
        logical_clock: head_change.logical_clock,
        created_at: head_change.created_at,
    }
}

/// The device head of an incremental tail publication: it points at the new manifest, takes
/// the change object and sequence of the local device's frontier in it, and the clock and
/// time of the latest local change.
pub fn local_tail_device_head(
    profile: &str,
    local_device_id: &str,
    manifest_object_id: &str,
    frontier: &ProfileSyncDeviceFrontier,
    head_change: &SyncChangeRecord,
    schema_version: u32,
    membership_epoch: i64,
) -> (head: ProfileSyncDeviceHead)
    ensures
        head.profile@ == profile@,
        head.device_id@ == local_device_id@,
        head.root_id@ == settings_device_head_root_id_spec(local_device_id@),
        head.schema_version == schema_version,
        head.membership_epoch == membership_epoch,
        head.latest_manifest_object_id@ == manifest_object_id@,
        head.latest_change_object_id == frontier.latest_change_object_id,
        head.device_sequence == frontier.latest_sequence,
        head.logical_clock == head_change.logical_clock,
        head.created_at == head_change.created_at,
{
    ProfileSyncDeviceHead {
        profile: owned(profile),
        device_id: owned(local_device_id),
        root_id: settings_device_head_root_id(local_device_id),
        schema_version,
        membership_epoch,
        latest_manifest_object_id: owned(manifest_object_id),
        latest_change_object_id: frontier.latest_change_object_id.clone(),
        device_sequence: frontier.latest_sequence,
        logical_clock: head_change.logical_clock,
        created_at: head_change.created_at,
    }
}


/// Where a change stands in the local settings history.
#[derive(Clone, Copy, Debug, PartialEq, Eq, Structural)]
pub struct SyncSettingTextRevision {
    pub revision: i64,
    pub created_at: i64,
    pub change_id: i64,
}

/// A change of a text setting with its place in the history.
#[derive(Clone, Debug, PartialEq, Eq)]
pub struct SyncSettingTextEvent {
    pub revision: SyncSettingTextRevision,
    pub change: SyncChangeRecord,
}

/// The changes of `events`, in order.
pub open spec fn event_changes(events: Seq<SyncSettingTextEvent>) -> Seq<SyncChangeRecord> {
    events.map_values(|event: SyncSettingTextEvent| event.change)
}

/// The changes of `events` made by the device `device_id`, in order.
pub open spec fn device_changes(events: Seq<SyncSettingTextEvent>, device_id: Seq<char>) -> Seq<SyncChangeRecord>
    decreases events.len(),
{
    if events.len() == 0 {
        Seq::empty()
    } else if events.last().change.device_id@ == device_id {
        device_changes(events.drop_last(), device_id).push(events.last().change)
    } else {
        device_changes(events.drop_last(), device_id)
    }
}

/// The changes of `events` that the device `device_id` made, in order: the tail a device
/// publishes itself.
pub fn local_device_changes(events: &Vec<SyncSettingTextEvent>, device_id: &str) -> (changes: Vec<SyncChangeRecord>)
    ensures
        changes@ == device_changes(events@, device_id@),
{
    let mut changes: Vec<SyncChangeRecord> = Vec::new();
    let mut i: usize = 0;
    while i < events.len()
        invariant
            i <= events@.len(),
            changes@ == device_changes(events@.take(i as int), device_id@),
        decreases events.len() - i,
    {
        assert(events@.take(i as int + 1).drop_last() =~= events@.take(i as int));
        if str_equal(events[i].change.device_id.as_str(), device_id) {
            changes.push(events[i].change.duplicate());
        }
        i = i + 1;
    }
    assert(events@.take(events@.len() as int) =~= events@);
    changes
}

/// The number of leading events of `events` at or below revision `covers_revision`.
pub open spec fn covered_prefix_len(events: Seq<SyncSettingTextEvent>, covers_revision: i64, i: int) -> int
    decreases events.len() - i,
{
    if i < 0 || i >= events.len() || events[i].revision.revision > covers_revision {
        i
    } else {
        covered_prefix_len(events, covers_revision, i + 1)
    }
}

/// The changes of the leading events of `events` that a snapshot covering revision
/// `covers_revision` covers: those up to the first event above that revision.
pub fn covered_changes_through_revision(events: &Vec<SyncSettingTextEvent>, covers_revision: i64) -> (changes: Vec<SyncChangeRecord>)
    ensures
        changes@ == event_changes(events@.take(covered_prefix_len(events@, covers_revision, 0))),
{
    let mut changes: Vec<SyncChangeRecord> = Vec::new();
    let mut i: usize = 0;
    while i < events.len() && events[i].revision.revision <= covers_revision
        invariant
            i <= events@.len(),
            covered_prefix_len(events@, covers_revision, 0) == covered_prefix_len(events@, covers_revision, i as int),
            changes@ == event_changes(events@.take(i as int)),
        decreases events.len() - i,
    {
        changes.push(events[i].change.duplicate());
        i = i + 1;
        assert(changes@ =~= event_changes(events@.take(i as int)));
    }
    changes
}

/// The changes of `events` split for a compaction: the first `covered_count` are covered by
/// the new snapshot, the rest form its tail.
pub fn split_compaction_changes(events: &Vec<SyncSettingTextEvent>, covered_count: usize) -> (split: (Vec<SyncChangeRecord>, Vec<SyncChangeRecord>))
    ensures
        split.0@ == event_changes(events@.take(if covered_count <= events@.len() { covered_count as int } else { events@.len() as int })),
        split.1@ == event_changes(events@.skip(if covered_count <= events@.len() { covered_count as int } else { events@.len() as int })),
{
    let ghost cut: int = if covered_count <= events@.len() { covered_count as int } else { events@.len() as int };
    let mut covered: Vec<SyncChangeRecord> = Vec::new();
    let mut tail: Vec<SyncChangeRecord> = Vec::new();
    let mut i: usize = 0;
    while i < events.len()
        invariant
            i <= events@.len(),
            cut == (if covered_count <= events@.len() { covered_count as int } else { events@.len() as int }),
            i <= cut ==> covered@ == event_changes(events@.take(i as int)) && tail@.len() == 0,
            i > cut ==> covered@ == event_changes(events@.take(cut)) && tail@ == event_changes(events@.subrange(cut, i as int)),
        decreases events.len() - i,
    {
        if i < covered_count {
            covered.push(events[i].change.duplicate());
            assert(covered@ =~= event_changes(events@.take(i as int + 1)));
        } else {
            let ghost before = tail@;
            tail.push(events[i].change.duplicate());
            assert(tail@ =~= event_changes(events@.subrange(cut, i as int + 1)));
        }
        i = i + 1;
    }
    proof {
        if events@.len() <= cut {
            assert(events@.skip(cut) =~= Seq::<SyncSettingTextEvent>::empty());
            assert(event_changes(events@.skip(cut)) =~= tail@);
        } else {
            assert(events@.skip(cut) =~= events@.subrange(cut, events@.len() as int));
        }
    }
    (covered, tail)
}

/// Whether `s` is in strictly increasing code-point order (so holds no duplicates).
pub open spec fn strictly_sorted(s: Seq<Seq<char>>) -> bool {
    forall|a: int, b: int| 0 <= a < b < s.len() ==> chars_lt(#[trigger] s[a], #[trigger] s[b])
}

/// Whether some change of `changes` is in the domain `domain`.
pub open spec fn has_domain(changes: Seq<SyncChangeRecord>, domain: Seq<char>) -> bool {
    exists|i: int| 0 <= i < changes.len() && (#[trigger] changes[i]).domain@ == domain
}

proof fn lemma_chars_lt_from_irreflexive(a: Seq<char>, i: int)
    requires
        0 <= i,
    ensures
        !chars_lt_from(a, a, i),
    decreases a.len() - i,
{
    if i < a.len() {
        lemma_chars_lt_from_irreflexive(a, i + 1);
    }
}

// The included domains are a strictly sorted `Vec` in place of a `BTreeSet<String>`: vstd
// states what `BTreeSet` holds only for key types whose order it models (`obeys_cmp`), and
// `String` is not one of them, so the set's order and contents could not be proved.
/// Inserts `domain` into the strictly sorted `domains` unless it is there.
fn insert_sorted_domain(domains: &mut Vec<String>, domain: &str)
    requires
        strictly_sorted(old(domains).deep_view()),
    ensures
        strictly_sorted(final(domains).deep_view()),
        forall|d: Seq<char>| final(domains).deep_view().contains(d) <==> (old(domains).deep_view().contains(d) || d == domain@),
{
    let mut p: usize = 0;
    while p < domains.len() && str_less(domains[p].as_str(), domain)
        invariant
            p <= domains@.len(),
            strictly_sorted(domains.deep_view()),
            domains.deep_view() == old(domains).deep_view(),
            forall|a: int| 0 <= a < p ==> chars_lt(#[trigger] domains.deep_view()[a], domain@),
        decreases domains.len() - p,
    {
        p = p + 1;
    }
    let ghost before = domains.deep_view();
    if p < domains.len() && str_equal(domains[p].as_str(), domain) {
        assert(before[p as int] == domain@);
        return;
    }
    proof {
        if p < before.len() {
            assert(!chars_lt(before[p as int], domain@));
            assert(before[p as int] != domain@);
            lemma_chars_lt_total(before[p as int], domain@);
        }
    }
    domains.insert(p, owned(domain));
    let ghost after = domains.deep_view();
    assert(after =~= before.insert(p as int, domain@));
    assert forall|a: int, b: int| 0 <= a < b < after.len() implies chars_lt(#[trigger] after[a], #[trigger] after[b]) by {
        if b < p {
            assert(after[a] == before[a] && after[b] == before[b]);
        } else if b == p {
            assert(after[b] == domain@ && after[a] == before[a]);
        } else if a == p {
            assert(after[a] == domain@ && after[b] == before[b - 1]);
            if b - 1 > p {
                assert(chars_lt(before[p as int], before[b - 1]));
                lemma_chars_lt_transitive(domain@, before[p as int], before[b - 1]);
            }
        } else if a < p {
            assert(after[a] == before[a] && after[b] == before[b - 1]);
            if b - 1 == a {
                assert(false);
            }
        } else {
            assert(after[a] == before[a - 1] && after[b] == before[b - 1]);
        }
    }
    assert forall|d: Seq<char>| after.contains(d) <==> (before.contains(d) || d == domain@) by {
        if after.contains(d) {
            let k = choose|k: int| 0 <= k < after.len() && after[k] == d;
            if k < p {
                assert(before[k] == d);
            } else if k > p {
                assert(before[k - 1] == d);
            }
        }
        if before.contains(d) {
            let k = choose|k: int| 0 <= k < before.len() && before[k] == d;
            if k < p {
                assert(after[k] == d);
            } else {
                assert(after[k + 1] == d);
            }
        }
        if d == domain@ {
            assert(after[p as int] == d);
        }
    }
}

/// The domains of `changes`, each once, in code-point order: the domains a snapshot of those
/// changes includes.
pub fn included_domains(changes: &Vec<SyncChangeRecord>) -> (domains: Vec<String>)
    ensures
        strictly_sorted(domains.deep_view()),
        forall|d: Seq<char>| domains.deep_view().contains(d) <==> has_domain(changes@, d),
{
    let mut domains: Vec<String> = Vec::new();
    let mut i: usize = 0;
    while i < changes.len()
        invariant
            i <= changes@.len(),
            strictly_sorted(domains.deep_view()),
            forall|d: Seq<char>| domains.deep_view().contains(d) <==> has_domain(changes@.take(i as int), d),
        decreases changes.len() - i,
    {
        let ghost before = domains.deep_view();
        insert_sorted_domain(&mut domains, changes[i].domain.as_str());
        proof {
            let prefix = changes@.take(i as int + 1);
            assert forall|d: Seq<char>| domains.deep_view().contains(d) <==> has_domain(prefix, d) by {
                if has_domain(prefix, d) {
                    let k = choose|k: int| 0 <= k < prefix.len() && (#[trigger] prefix[k]).domain@ == d;
                    if k < i {
                        assert(changes@.take(i as int)[k] == prefix[k]);
                        assert(has_domain(changes@.take(i as int), d));
                    }
                }
                if has_domain(changes@.take(i as int), d) {
                    let k = choose|k: int| 0 <= k < i && (#[trigger] changes@.take(i as int)[k]).domain@ == d;
                    assert(prefix[k] == changes@.take(i as int)[k]);
                }
                if d == changes@[i as int].domain@ {
                    assert(prefix[i as int] == changes@[i as int]);
                }
            }
        }
        i = i + 1;
    }
    assert(changes@.take(changes@.len() as int) =~= changes@);
    domains
}


/// A settings snapshot the store recorded.
#[derive(Clone, Debug, PartialEq, Eq)]
pub struct SyncSnapshotRecord {
    pub snapshot_id: String,
    pub backend_object_id: Option<String>,
    pub covers_revision: i64,
    pub included_domains: Vec<String>,
}

/// The backend object of the latest snapshot, which an incremental tail builds on, or the
/// error that it was never published.
pub fn snapshot_backend_object_id(record: &SyncSnapshotRecord) -> (object_id: Result<String, StorageError>)
    ensures
        match record.backend_object_id {
            Some(id) => object_id == Ok::<String, StorageError>(id),
            None => object_id matches Err(StorageError::InvalidProfileSyncManifest(m))
                && m@ == "latest settings snapshot "@ + record.snapshot_id@ + " has no backend object id"@,
        },
{
    match &record.backend_object_id {
        Some(id) => Ok(id.clone()),
        None => {
            let mut m = owned("latest settings snapshot ");
            append_str(&mut m, record.snapshot_id.as_str());
            append_str(&mut m, " has no backend object id");
            Err(StorageError::InvalidProfileSyncManifest(m))
        },
    }
}

/// Whether the latest snapshot, if any, was published, so that local changes after it can be
/// published as an incremental tail.
pub fn snapshot_supports_incremental_tail(latest: &Option<SyncSnapshotRecord>) -> (supports: bool)
    ensures
        supports == (latest matches Some(record) && record.backend_object_id is Some),
{
    match latest {
        Some(record) => record.backend_object_id.is_some(),
        None => false,
    }
}

/// Whether the device head this device already published covers its latest change.
pub fn device_head_covers_change(device_head: &Option<ProfileSyncDeviceHead>, latest_change: &SyncChangeRecord) -> (covers: bool)
    ensures
        covers == (device_head matches Some(head) && head.device_sequence >= latest_change.device_sequence),
{
    match device_head {
        Some(head) => head.device_sequence >= latest_change.device_sequence,
        None => false,
    }
}

/// What an attempt to publish the local settings head does next.
#[derive(Clone, Copy, Debug, PartialEq, Eq, Structural)]
pub enum PendingLocalHeadStep {
    PublishFullSnapshot,
    UpToDate,
    PublishIncrementalTail,
}

/// Whether there is a latest snapshot and it was published, so that a tail can build on it.
pub open spec fn snapshot_published(latest: Option<SyncSnapshotRecord>) -> bool {
    latest matches Some(record) && record.backend_object_id is Some
}

/// Whether the device `device_id` made one of `changes`.
pub open spec fn has_device_change(changes: Seq<SyncChangeRecord>, device_id: Seq<char>) -> bool {
    exists|j: int| 0 <= j < changes.len() && (#[trigger] changes[j]).device_id@ == device_id
}

/// Whether a published device head covers `change`.
pub open spec fn head_covers(device_head: Option<ProfileSyncDeviceHead>, change: SyncChangeRecord) -> bool {
    device_head matches Some(head) && head.device_sequence >= change.device_sequence
}

/// A device has at most one latest change among `changes`.
pub proof fn lemma_latest_device_change_unique(changes: Seq<SyncChangeRecord>, device_id: Seq<char>, i: int, k: int)
    requires
        is_latest_device_change(changes, device_id, i),
        is_latest_device_change(changes, device_id, k),
    ensures
        i == k,
{
    if i < k {
        assert(change_order_lt(changes[k], changes[i]));
    } else if k < i {
        assert(change_order_lt(changes[i], changes[k]));
    }
}

/// A device that made one of `changes` has a latest change among them.
pub proof fn lemma_latest_device_change_exists(changes: Seq<SyncChangeRecord>, device_id: Seq<char>)
    requires
        has_device_change(changes, device_id),
    ensures
        exists|i: int| is_latest_device_change(changes, device_id, i),
    decreases changes.len(),
{
    let n = changes.len() - 1;
    let prefix = changes.drop_last();
    assert(forall|j: int| 0 <= j < prefix.len() ==> prefix[j] == changes[j]);
    if has_device_change(prefix, device_id) {
        lemma_latest_device_change_exists(prefix, device_id);
        let k = choose|k: int| is_latest_device_change(prefix, device_id, k);
        if changes[n].device_id@ == device_id && !change_order_lt(changes[n], changes[k]) {
            assert forall|j: int| 0 <= j < n && (#[trigger] changes[j]).device_id@ == device_id
                implies !change_order_lt(changes[n], changes[j]) by {
                if j < k {
                    assert(!change_order_lt(prefix[k], prefix[j]));
                } else if j > k {
                    assert(change_order_lt(prefix[j], prefix[k]));
                }
            }
            assert(is_latest_device_change(changes, device_id, n));
        } else {
            assert forall|j: int| 0 <= j < k && (#[trigger] changes[j]).device_id@ == device_id
                implies !change_order_lt(changes[k], changes[j]) by {
                assert(!change_order_lt(prefix[k], prefix[j]));
            }
            assert forall|j: int| k < j < changes.len() && (#[trigger] changes[j]).device_id@ == device_id
                implies change_order_lt(changes[j], changes[k]) by {
                if j < n {
                    assert(change_order_lt(prefix[j], prefix[k]));
                }
            }
            assert(is_latest_device_change(changes, device_id, k));
        }
    } else {
        let w = choose|j: int| 0 <= j < changes.len() && (#[trigger] changes[j]).device_id@ == device_id;
        if w < n {
            assert(prefix[w].device_id@ == device_id);
        }
        assert(changes[n].device_id@ == device_id);
        assert forall|j: int| 0 <= j < n && (#[trigger] changes[j]).device_id@ == device_id
            implies !change_order_lt(changes[n], changes[j]) by {
            assert(prefix[j].device_id@ == device_id);
        }
        assert(is_latest_device_change(changes, device_id, n));
    }
}

/// Decides what an attempt to publish the local settings head does: a full snapshot unless the
/// latest snapshot was published; on a published snapshot, nothing when this device made no
/// change after it or when its published head already covers its latest change, and an
/// incremental tail otherwise. `local_tail_changes` are the changes after the snapshot, and
/// `device_head` is this device's published head; it is read only when there is a latest change.
pub fn pending_local_head_step(
    latest_snapshot: &Option<SyncSnapshotRecord>,
    local_device_id: &str,
    local_tail_changes: &Vec<SyncChangeRecord>,
    device_head: &Option<ProfileSyncDeviceHead>,
) -> (step: PendingLocalHeadStep)
    ensures
        !snapshot_published(*latest_snapshot) ==> step == PendingLocalHeadStep::PublishFullSnapshot,
        snapshot_published(*latest_snapshot) && !has_device_change(local_tail_changes@, local_device_id@)
            ==> step == PendingLocalHeadStep::UpToDate,
        forall|i: int| snapshot_published(*latest_snapshot)
            && #[trigger] is_latest_device_change(local_tail_changes@, local_device_id@, i)
            ==> step == (if head_covers(*device_head, local_tail_changes@[i]) {
                PendingLocalHeadStep::UpToDate
            } else {
                PendingLocalHeadStep::PublishIncrementalTail
            }),
{
    if !snapshot_supports_incremental_tail(latest_snapshot) {
        return PendingLocalHeadStep::PublishFullSnapshot;
    }
    match latest_local_device_change_for_head(local_device_id, local_tail_changes) {
        None => PendingLocalHeadStep::UpToDate,
        Some(position) => {
            proof {
                assert forall|i: int| #[trigger] is_latest_device_change(local_tail_changes@, local_device_id@, i)
                    implies i == position by {
                    lemma_latest_device_change_unique(local_tail_changes@, local_device_id@, i, position as int);
                }
            }
            if device_head_covers_change(device_head, &local_tail_changes[position]) {
                PendingLocalHeadStep::UpToDate
            } else {
                PendingLocalHeadStep::PublishIncrementalTail
            }
        },
    }
}

/// Checks that the stored root of this device's head resolved to the object it names.
pub fn check_local_device_head_object(root_object_id: &str, resolved_object_id: &str) -> (result: Result<(), StorageError>)
    ensures
        root_object_id@ == resolved_object_id@ ==> result is Ok,
        root_object_id@ != resolved_object_id@ ==> (result matches Err(StorageError::InvalidProfileSyncManifest(m))
            && m@ == "stored local device head root "@ + root_object_id@ + " resolved to mismatched object "@ + resolved_object_id@),
{
    if str_equal(root_object_id, resolved_object_id) {
        Ok(())
    } else {
        let mut m = owned("stored local device head root ");
        append_str(&mut m, root_object_id);
        append_str(&mut m, " resolved to mismatched object ");
        append_str(&mut m, resolved_object_id);
        Err(StorageError::InvalidProfileSyncManifest(m))
    }
}

/// A profile-sync root as the store records it.
#[derive(Clone, Debug, PartialEq, Eq)]
pub struct ProfileSyncRootRecord {
    pub profile: String,
    pub root_id: String,
    pub object_id: String,
}

/// What a published manifest says that publishing reads: its device frontiers.
#[derive(Clone, Debug, PartialEq, Eq)]
pub struct ProfileSyncManifest {
    pub device_frontiers: Vec<ProfileSyncDeviceFrontier>,
}

/// A manifest published with a tail of changes.
#[derive(Clone, Debug, PartialEq, Eq)]
pub struct PublishedSettingsTailManifest {
    pub manifest_object_id: String,
    pub manifest: ProfileSyncManifest,
    pub tail_change_object_ids: Vec<String>,
}

/// A manifest published with a snapshot and a tail of changes.
#[derive(Clone, Debug, PartialEq, Eq)]
pub struct PublishedSettingsSnapshotManifest {
    pub manifest_object_id: String,
    pub manifest: ProfileSyncManifest,
    pub snapshot_object_id: String,
    pub tail_change_object_ids: Vec<String>,
}

/// A published device head.
#[derive(Clone, Debug, PartialEq, Eq)]
pub struct PublishedProfileSyncDeviceHead {
    pub root_id: String,
    pub object_id: String,
    pub device_head: ProfileSyncDeviceHead,
}

/// A full snapshot of local settings, published with this device's head.
#[derive(Clone, Debug, PartialEq, Eq)]
pub struct PublishedLocalSettingsSnapshotHead {
    pub publication: PublishedSettingsSnapshotManifest,
    pub device_head: PublishedProfileSyncDeviceHead,
    pub snapshot_record: SyncSnapshotRecord,
    pub settings_root: ProfileSyncRootRecord,
    pub device_head_root: ProfileSyncRootRecord,
}

/// An incremental tail of local changes, published with this device's head.
#[derive(Clone, Debug, PartialEq, Eq)]
pub struct PublishedLocalSettingsTailHead {
    pub publication: PublishedSettingsSnapshotManifest,
    pub device_head: PublishedProfileSyncDeviceHead,
    pub snapshot_record: SyncSnapshotRecord,
    pub settings_root: ProfileSyncRootRecord,
    pub device_head_root: ProfileSyncRootRecord,
}

/// The objects of a tail manifest publication, with repeats: the tail changes, then the
/// manifest.
pub open spec fn tail_manifest_objects(p: PublishedSettingsTailManifest) -> Seq<Seq<char>> {
    p.tail_change_object_ids.deep_view().push(p.manifest_object_id@)
}

/// The objects of a snapshot manifest publication, with repeats: the snapshot, the tail
/// changes, then the manifest.
pub open spec fn snapshot_manifest_objects(p: PublishedSettingsSnapshotManifest) -> Seq<Seq<char>> {
    (seq![p.snapshot_object_id@] + p.tail_change_object_ids.deep_view()).push(p.manifest_object_id@)
}

/// The objects of a local head publication, with repeats: those of its manifest publication,
/// the device head, the settings root object, and the device-head root object.
pub open spec fn local_head_objects(
    publication: PublishedSettingsSnapshotManifest,
    device_head: PublishedProfileSyncDeviceHead,
    settings_root: ProfileSyncRootRecord,
    device_head_root: ProfileSyncRootRecord,
) -> Seq<Seq<char>> {
    snapshot_manifest_objects(publication) + seq![device_head.object_id@, settings_root.object_id@, device_head_root.object_id@]
}

impl PublishedSettingsTailManifest {
    /// The objects of this publication, each once, in order of first occurrence.
    pub fn published_object_ids(&self) -> (object_ids: Vec<String>)
        ensures
            object_ids.deep_view() == unique_ids(tail_manifest_objects(*self)),
    {
        let mut object_ids: Vec<String> = Vec::new();
        assert(object_ids.deep_view() =~= Seq::<Seq<char>>::empty());
        proof {
            lemma_extend_unique_concat(Seq::empty(), self.tail_change_object_ids.deep_view(), seq![self.manifest_object_id@]);
            lemma_extend_unique_single(extend_unique(Seq::empty(), self.tail_change_object_ids.deep_view()), self.manifest_object_id@);
        }
        extend_unique_object_ids_from(&mut object_ids, &self.tail_change_object_ids);
        push_unique_object_id(&mut object_ids, self.manifest_object_id.as_str());
        assert(tail_manifest_objects(*self) =~= self.tail_change_object_ids.deep_view() + seq![self.manifest_object_id@]);
        object_ids
    }
}

impl PublishedSettingsSnapshotManifest {
    /// The objects of this publication, each once, in order of first occurrence.
    pub fn published_object_ids(&self) -> (object_ids: Vec<String>)
        ensures
            object_ids.deep_view() == unique_ids(snapshot_manifest_objects(*self)),
    {
        let mut object_ids: Vec<String> = Vec::new();
        assert(object_ids.deep_view() =~= Seq::<Seq<char>>::empty());
        let ghost first = seq![self.snapshot_object_id@];
        let ghost tail = self.tail_change_object_ids.deep_view();
        let ghost last = seq![self.manifest_object_id@];
        push_unique_object_id(&mut object_ids, self.snapshot_object_id.as_str());
        proof {
            lemma_extend_unique_single(Seq::empty(), self.snapshot_object_id@);
        }
        extend_unique_object_ids_from(&mut object_ids, &self.tail_change_object_ids);
        push_unique_object_id(&mut object_ids, self.manifest_object_id.as_str());
        proof {
            lemma_extend_unique_single(extend_unique(Seq::empty(), first + tail), self.manifest_object_id@);
            lemma_extend_unique_concat(Seq::empty(), first, tail);
            lemma_extend_unique_concat(Seq::empty(), first + tail, last);
            assert(snapshot_manifest_objects(*self) =~= first + tail + last);
        }
        object_ids
    }
}

impl PublishedProfileSyncDeviceHead {
    /// The object of this publication: the device head.
    pub fn published_object_ids(&self) -> (object_ids: Vec<String>)
        ensures
            object_ids.deep_view() == seq![self.object_id@],
    {
        let mut object_ids: Vec<String> = Vec::new();
        object_ids.push(self.object_id.clone());
        assert(object_ids.deep_view() =~= seq![self.object_id@]);
        object_ids
    }
}

/// The objects of a local head publication, each once, in order of first occurrence.
fn local_head_object_ids(
    publication: &PublishedSettingsSnapshotManifest,
    device_head: &PublishedProfileSyncDeviceHead,
    settings_root: &ProfileSyncRootRecord,
    device_head_root: &ProfileSyncRootRecord,
) -> (object_ids: Vec<String>)
    ensures
        object_ids.deep_view() == unique_ids(local_head_objects(*publication, *device_head, *settings_root, *device_head_root)),
{
    let ghost p = snapshot_manifest_objects(*publication);
    let ghost h = seq![device_head.object_id@];
    let ghost r = seq![settings_root.object_id@];
    let ghost d = seq![device_head_root.object_id@];
    let mut object_ids: Vec<String> = Vec::new();
    assert(object_ids.deep_view() =~= Seq::<Seq<char>>::empty());
    extend_unique_object_ids(&mut object_ids, publication.published_object_ids());
    extend_unique_object_ids(&mut object_ids, device_head.published_object_ids());
    push_unique_object_id(&mut object_ids, settings_root.object_id.as_str());
    push_unique_object_id(&mut object_ids, device_head_root.object_id.as_str());
    proof {
        lemma_extend_unique_absorbs_unique_ids(Seq::empty(), p);
        lemma_extend_unique_single(extend_unique(Seq::empty(), p + h), settings_root.object_id@);
        lemma_extend_unique_single(extend_unique(Seq::empty(), p + h + r), device_head_root.object_id@);
        lemma_extend_unique_concat(Seq::empty(), p, h);
        lemma_extend_unique_concat(Seq::empty(), p + h, r);
        lemma_extend_unique_concat(Seq::empty(), p + h + r, d);
        assert(local_head_objects(*publication, *device_head, *settings_root, *device_head_root) =~= p + h + r + d);
    }
    object_ids
}

impl PublishedLocalSettingsSnapshotHead {
    /// The objects of this publication, each once, in order of first occurrence.
    pub fn published_object_ids(&self) -> (object_ids: Vec<String>)
        ensures
            object_ids.deep_view() == unique_ids(local_head_objects(self.publication, self.device_head, self.settings_root, self.device_head_root)),
    {
        local_head_object_ids(&self.publication, &self.device_head, &self.settings_root, &self.device_head_root)
    }
}

impl PublishedLocalSettingsTailHead {
    /// The objects of this publication, each once, in order of first occurrence.
    pub fn published_object_ids(&self) -> (object_ids: Vec<String>)
        ensures
            object_ids.deep_view() == unique_ids(local_head_objects(self.publication, self.device_head, self.settings_root, self.device_head_root)),
    {
        local_head_object_ids(&self.publication, &self.device_head, &self.settings_root, &self.device_head_root)
    }
}

/// What one attempt to publish the local settings head did.
#[derive(Clone, Debug, PartialEq, Eq)]
pub enum LocalSettingsHeadPublishStatus {
    PublishedFullSnapshot(PublishedLocalSettingsSnapshotHead),
    PublishedIncrementalTail(PublishedLocalSettingsTailHead),
    NoLocalSettingsChanges,
    UpToDate { snapshot_record: SyncSnapshotRecord },
}

/// Whether a publish attempt found nothing left to publish.
pub open spec fn status_idle(status: LocalSettingsHeadPublishStatus) -> bool {
    status is NoLocalSettingsChanges || status is UpToDate
}

/// The objects a publish attempt published, each once, in order of first occurrence.
pub open spec fn status_object_ids(status: LocalSettingsHeadPublishStatus) -> Seq<Seq<char>> {
    match status {
        LocalSettingsHeadPublishStatus::PublishedFullSnapshot(p) =>
            unique_ids(local_head_objects(p.publication, p.device_head, p.settings_root, p.device_head_root)),
        LocalSettingsHeadPublishStatus::PublishedIncrementalTail(p) =>
            unique_ids(local_head_objects(p.publication, p.device_head, p.settings_root, p.device_head_root)),
        _ => Seq::empty(),
    }
}

impl LocalSettingsHeadPublishStatus {
    /// Whether this attempt found nothing left to publish.
    pub fn is_idle(&self) -> (idle: bool)
        ensures
            idle == status_idle(*self),
    {
        match self {
            LocalSettingsHeadPublishStatus::NoLocalSettingsChanges => true,
            LocalSettingsHeadPublishStatus::UpToDate { .. } => true,
            _ => false,
        }
    }

    /// The manifest this attempt published, if it published one.
    pub fn published_manifest_object_id(&self) -> (manifest_object_id: Option<&str>)
        ensures
            match *self {
                LocalSettingsHeadPublishStatus::PublishedFullSnapshot(p) => manifest_object_id matches Some(id) && id@ == p.publication.manifest_object_id@,
                LocalSettingsHeadPublishStatus::PublishedIncrementalTail(p) => manifest_object_id matches Some(id) && id@ == p.publication.manifest_object_id@,
                _ => manifest_object_id is None,
            },
    {
        match self {
            LocalSettingsHeadPublishStatus::PublishedFullSnapshot(published) => Some(published.publication.manifest_object_id.as_str()),
            LocalSettingsHeadPublishStatus::PublishedIncrementalTail(published) => Some(published.publication.manifest_object_id.as_str()),
            _ => None,
        }
    }

    /// The objects this attempt published, each once, in order of first occurrence.
    pub fn published_object_ids(&self) -> (object_ids: Vec<String>)
        ensures
            object_ids.deep_view() == status_object_ids(*self),
    {
        match self {
            LocalSettingsHeadPublishStatus::PublishedFullSnapshot(published) => published.published_object_ids(),
            LocalSettingsHeadPublishStatus::PublishedIncrementalTail(published) => published.published_object_ids(),
            _ => {
                let none: Vec<String> = Vec::new();
                assert(none.deep_view() =~= Seq::<Seq<char>>::empty());
                none
            },
        }
    }
}

/// The publish attempts of one local settings sync.
#[derive(Clone, Debug, PartialEq, Eq)]
pub struct LocalSettingsSyncRun {
    pub profile: String,
    pub settings_root_id: String,
    pub steps: Vec<LocalSettingsHeadPublishStatus>,
}

/// The number of attempts of `steps` that published a manifest.
pub open spec fn published_steps(steps: Seq<LocalSettingsHeadPublishStatus>) -> nat
    decreases steps.len(),
{
    if steps.len() == 0 {
        0
    } else {
        published_steps(steps.drop_last()) + if status_idle(steps.last()) { 0nat } else { 1nat }
    }
}

/// The objects the attempts of `steps` published, each once, in order of first occurrence.
pub open spec fn steps_object_ids(steps: Seq<LocalSettingsHeadPublishStatus>) -> Seq<Seq<char>>
    decreases steps.len(),
{
    if steps.len() == 0 {
        Seq::empty()
    } else {
        extend_unique(steps_object_ids(steps.drop_last()), status_object_ids(steps.last()))
    }
}

impl LocalSettingsSyncRun {
    /// Whether the last attempt found nothing left to publish.
    pub fn is_idle(&self) -> (idle: bool)
        ensures
            idle == (self.steps@.len() > 0 && status_idle(self.steps@.last())),
    {
        if self.steps.len() == 0 {
            false
        } else {
            self.steps[self.steps.len() - 1].is_idle()
        }
    }

    /// The number of attempts that published a manifest.
    pub fn published_step_count(&self) -> (count: usize)
        ensures
            count == published_steps(self.steps@),
    {
        let mut count: usize = 0;
        let mut i: usize = 0;
        while i < self.steps.len()
            invariant
                i <= self.steps@.len(),
                count == published_steps(self.steps@.take(i as int)),
                count <= i,
            decreases self.steps.len() - i,
        {
            assert(self.steps@.take(i as int + 1).drop_last() =~= self.steps@.take(i as int));
            if self.steps[i].published_manifest_object_id().is_some() {
                count = count + 1;
            }
            i = i + 1;
        }
        assert(self.steps@.take(self.steps@.len() as int) =~= self.steps@);
        count
    }

    /// The objects the attempts published, each once, in order of first occurrence.
    pub fn published_object_ids(&self) -> (object_ids: Vec<String>)
        ensures
            object_ids.deep_view() == steps_object_ids(self.steps@),
    {
        let mut object_ids: Vec<String> = Vec::new();
        let mut i: usize = 0;
        while i < self.steps.len()
            invariant
                i <= self.steps@.len(),
                object_ids.deep_view() == steps_object_ids(self.steps@.take(i as int)),
            decreases self.steps.len() - i,
        {
            assert(self.steps@.take(i as int + 1).drop_last() =~= self.steps@.take(i as int));
            extend_unique_object_ids(&mut object_ids, self.steps[i].published_object_ids());
            i = i + 1;
        }
        assert(self.steps@.take(self.steps@.len() as int) =~= self.steps@);
        object_ids
    }
}

/// What the local settings sync loop does next.
#[derive(Clone, Debug, PartialEq, Eq)]
pub enum LocalSyncLoopAction {
    PublishStep,
    Finished,
    Exhausted(ProfileSyncPublishError),
}

/// The local settings sync loop: it makes publish attempts until one finds nothing left to
/// publish, and gives up after `max_steps` attempts.
#[derive(Clone, Debug, PartialEq, Eq)]
pub struct LocalSettingsSyncLoop {
    pub run: LocalSettingsSyncRun,
    pub max_steps: u32,
}

/// The loop's invariant: at most `max_steps` attempts were made, and every attempt before the
/// last one published something.
pub open spec fn local_sync_loop_wf(l: LocalSettingsSyncLoop) -> bool {
    &&& l.run.steps@.len() <= l.max_steps
    &&& forall|j: int| 0 <= j < l.run.steps@.len() - 1 ==> !status_idle(#[trigger] l.run.steps@[j])
}

/// What the loop does next in state `l`: it is finished once an attempt found nothing to
/// publish, exhausted after `max_steps` attempts otherwise, and makes another attempt else.
pub open spec fn local_sync_loop_next(l: LocalSettingsSyncLoop) -> LocalSyncLoopAction {
    if l.run.steps@.len() > 0 && status_idle(l.run.steps@.last()) {
        LocalSyncLoopAction::Finished
    } else if l.run.steps@.len() >= l.max_steps {
        LocalSyncLoopAction::Exhausted(ProfileSyncPublishError::LocalSyncLoopExhausted {
            profile: l.run.profile,
            settings_root_id: l.run.settings_root_id,
            max_steps: l.max_steps,
        })
    } else {
        LocalSyncLoopAction::PublishStep
    }
}

impl LocalSettingsSyncLoop {
    /// A loop for `profile` and `settings_root_id` that has made no attempt.
    pub fn new(profile: &str, settings_root_id: &str, max_steps: u32) -> (l: LocalSettingsSyncLoop)
        ensures
            l.run.profile@ == profile@,
            l.run.settings_root_id@ == settings_root_id@,
            l.run.steps@.len() == 0,
            l.max_steps == max_steps,
            local_sync_loop_wf(l),
    {
        LocalSettingsSyncLoop {
            run: LocalSettingsSyncRun { profile: owned(profile), settings_root_id: owned(settings_root_id), steps: Vec::new() },
            max_steps,
        }
    }

    /// What the loop does next (see `local_sync_loop_next`).
    pub fn next_action(&self) -> (action: LocalSyncLoopAction)
        ensures
            action == local_sync_loop_next(*self),
    {
        if self.run.is_idle() {
            LocalSyncLoopAction::Finished
        } else if self.run.steps.len() >= self.max_steps as usize {
            LocalSyncLoopAction::Exhausted(ProfileSyncPublishError::LocalSyncLoopExhausted {
                profile: self.run.profile.clone(),
                settings_root_id: self.run.settings_root_id.clone(),
                max_steps: self.max_steps,
            })
        } else {
            LocalSyncLoopAction::PublishStep
        }
    }

    /// Records the outcome of the attempt the loop asked for.
    pub fn record_step(&mut self, step: LocalSettingsHeadPublishStatus)
        requires
            local_sync_loop_wf(*old(self)),
            local_sync_loop_next(*old(self)) == LocalSyncLoopAction::PublishStep,
        ensures
            local_sync_loop_wf(*final(self)),
            final(self).run.steps@ == old(self).run.steps@.push(step),
            final(self).run.profile == old(self).run.profile,
            final(self).run.settings_root_id == old(self).run.settings_root_id,
            final(self).max_steps == old(self).max_steps,
    {
        self.run.steps.push(step);
    }
}

/// The loop never makes more than `max_steps` attempts, and when it finishes, its last attempt
/// found nothing to publish and every earlier one published something.
pub proof fn lemma_local_sync_loop_bounded(l: LocalSettingsSyncLoop)
    requires
        local_sync_loop_wf(l),
    ensures
        l.run.steps@.len() <= l.max_steps,
        local_sync_loop_next(l) == LocalSyncLoopAction::Finished ==> {
            &&& status_idle(l.run.steps@.last())
            &&& forall|j: int| 0 <= j < l.run.steps@.len() - 1 ==> !status_idle(#[trigger] l.run.steps@[j])
        },
        local_sync_loop_next(l) is PublishStep ==> l.run.steps@.len() < l.max_steps,
{
}


/// The objects a local settings sync published are listed once each, and are exactly the
/// objects its attempts published.
pub proof fn lemma_steps_object_ids(steps: Seq<LocalSettingsHeadPublishStatus>)
    ensures
        steps_object_ids(steps).no_duplicates(),
        forall|x: Seq<char>| #[trigger] steps_object_ids(steps).contains(x)
            <==> exists|k: int| 0 <= k < steps.len() && #[trigger] status_object_ids(steps[k]).contains(x),
    decreases steps.len(),
{
    if steps.len() > 0 {
        let rest = steps.drop_last();
        lemma_steps_object_ids(rest);
        lemma_extend_unique(steps_object_ids(rest), status_object_ids(steps.last()));
        assert forall|x: Seq<char>| #[trigger] steps_object_ids(steps).contains(x)
            <==> exists|k: int| 0 <= k < steps.len() && #[trigger] status_object_ids(steps[k]).contains(x) by {
            if steps_object_ids(steps).contains(x) {
                if steps_object_ids(rest).contains(x) {
                    let k = choose|k: int| 0 <= k < rest.len() && #[trigger] status_object_ids(rest[k]).contains(x);
                    assert(steps[k] == rest[k]);
                } else {
                    assert(status_object_ids(steps[steps.len() - 1]).contains(x));
                }
            }
            if exists|k: int| 0 <= k < steps.len() && #[trigger] status_object_ids(steps[k]).contains(x) {
                let k = choose|k: int| 0 <= k < steps.len() && #[trigger] status_object_ids(steps[k]).contains(x);
                if k < steps.len() - 1 {
                    assert(rest[k] == steps[k]);
                    assert(steps_object_ids(rest).contains(x));
                }
            }
        }
    }
}


/// Whether history position `a` comes strictly before `b`: by revision, then creation time,
/// then change id.
pub open spec fn revision_lt(a: SyncSettingTextRevision, b: SyncSettingTextRevision) -> bool {
    ||| a.revision < b.revision
    ||| a.revision == b.revision && a.created_at < b.created_at
    ||| a.revision == b.revision && a.created_at == b.created_at && a.change_id < b.change_id
}

/// The position at which `event` joins the sorted `events`: after every event that does not
/// come after it.
pub open spec fn insertion_point(events: Seq<SyncSettingTextEvent>, event: SyncSettingTextEvent, i: int) -> int
    decreases events.len() - i,
{
    if i < 0 || i >= events.len() {
        events.len() as int
    } else if revision_lt(event.revision, events[i].revision) {
        i
    } else {
        insertion_point(events, event, i + 1)
    }
}

/// `events` ordered by history position; events at the same position keep their order.
pub open spec fn history_order(events: Seq<SyncSettingTextEvent>) -> Seq<SyncSettingTextEvent>
    decreases events.len(),
{
    if events.len() == 0 {
        Seq::empty()
    } else {
        let sorted = history_order(events.drop_last());
        sorted.insert(insertion_point(sorted, events.last(), 0), events.last())
    }
}

/// The events of `groups`, one group after another.
pub open spec fn grouped_events(groups: Seq<Vec<SyncSettingTextEvent>>) -> Seq<SyncSettingTextEvent>
    decreases groups.len(),
{
    if groups.len() == 0 {
        Seq::empty()
    } else {
        grouped_events(groups.drop_last()) + groups.last()@
    }
}

/// Whether `events` is in history order.
pub open spec fn in_history_order(events: Seq<SyncSettingTextEvent>) -> bool {
    forall|a: int, b: int| 0 <= a < b < events.len() ==> !revision_lt(#[trigger] events[b].revision, #[trigger] events[a].revision)
}

fn insertion_position(events: &Vec<SyncSettingTextEvent>, event: &SyncSettingTextEvent) -> (position: usize)
    ensures
        position == insertion_point(events@, *event, 0),
{
    let mut i: usize = 0;
    while i < events.len()
        invariant
            i <= events@.len(),
            insertion_point(events@, *event, 0) == insertion_point(events@, *event, i as int),
        decreases events.len() - i,
    {
        let a = &event.revision;
        let b = &events[i].revision;
        let before = a.revision < b.revision
            || (a.revision == b.revision && a.created_at < b.created_at)
            || (a.revision == b.revision && a.created_at == b.created_at && a.change_id < b.change_id);
        if before {
            return i;
        }
        i = i + 1;
    }
    i
}

/// The enabled domains' setting events, given per domain: all of them in history order (events
/// at the same position keep the order of their domains and within them), at most `limit`.
pub fn merge_enabled_settings_text_events(per_domain: Vec<Vec<SyncSettingTextEvent>>, limit: u32) -> (events: Vec<SyncSettingTextEvent>)
    ensures
        ({
            let all = history_order(grouped_events(per_domain@));
            events@ == all.take(if limit as int <= all.len() { limit as int } else { all.len() as int })
        }),
{
    let mut sorted: Vec<SyncSettingTextEvent> = Vec::new();
    let mut groups = per_domain;
    let ghost all_groups = groups@;
    let ghost mut taken_groups: Seq<Vec<SyncSettingTextEvent>> = Seq::empty();
    while groups.len() > 0
        invariant
            all_groups == taken_groups + groups@,
            sorted@ == history_order(grouped_events(taken_groups)),
        decreases groups.len(),
    {
        let mut group = groups.remove(0);
        let ghost group_events = group@;
        let ghost base = grouped_events(taken_groups);
        proof {
            let before = taken_groups;
            taken_groups = taken_groups.push(group);
            assert(taken_groups.drop_last() =~= before);
            assert(all_groups =~= taken_groups + groups@);
        }
        let ghost mut taken: Seq<SyncSettingTextEvent> = Seq::empty();
        while group.len() > 0
            invariant
                group_events == taken + group@,
                sorted@ == history_order(base + taken),
            decreases group.len(),
        {
            let event = group.remove(0);
            proof {
                let before = taken;
                taken = taken.push(event);
                assert(group_events =~= taken + group@);
                assert((base + taken).drop_last() =~= base + before);
                assert((base + taken).last() == event);
            }
            let position = insertion_position(&sorted, &event);
            proof {
                lemma_insertion_point(sorted@, event, 0);
            }
            sorted.insert(position, event);
        }
        proof {
            assert(taken =~= group_events);
        }
    }
    assert(taken_groups =~= all_groups);
    let ghost full = sorted@;
    let keep: usize = if (limit as usize) < sorted.len() { limit as usize } else { sorted.len() };
    sorted.truncate(keep);
    assert(sorted@ =~= full.take(keep as int));
    sorted
}

/// The events of `events` whose change belongs to one of `domains`, in order.
pub open spec fn events_in_domains(events: Seq<SyncSettingTextEvent>, domains: Seq<Seq<char>>) -> Seq<SyncSettingTextEvent>
    decreases events.len(),
{
    if events.len() == 0 {
        Seq::empty()
    } else if domains.contains(events.last().change.domain@) {
        events_in_domains(events.drop_last(), domains).push(events.last())
    } else {
        events_in_domains(events.drop_last(), domains)
    }
}

/// The events of `events` whose change belongs to an enabled domain, in order: the events a
/// compaction covers or leaves as its tail.
pub fn enabled_domain_events(events: &Vec<SyncSettingTextEvent>, enabled_domains: &Vec<String>) -> (kept: Vec<SyncSettingTextEvent>)
    ensures
        kept@ == events_in_domains(events@, enabled_domains.deep_view()),
{
    let mut kept: Vec<SyncSettingTextEvent> = Vec::new();
    let mut i: usize = 0;
    while i < events.len()
        invariant
            i <= events@.len(),
            kept@ == events_in_domains(events@.take(i as int), enabled_domains.deep_view()),
        decreases events.len() - i,
    {
        assert(events@.take(i as int + 1).drop_last() =~= events@.take(i as int));
        if contains_string(enabled_domains, events[i].change.domain.as_str()) {
            let event = SyncSettingTextEvent { revision: events[i].revision, change: events[i].change.duplicate() };
            kept.push(event);
        }
        i = i + 1;
    }
    assert(events@.take(i as int) =~= events@);
    kept
}

/// Ordering by history position keeps exactly the given events, each as often as it was given.
pub proof fn lemma_history_order_permutes(events: Seq<SyncSettingTextEvent>)
    ensures
        history_order(events).to_multiset() == events.to_multiset(),
    decreases events.len(),
{
    if events.len() == 0 {
        assert(events =~= Seq::<SyncSettingTextEvent>::empty());
    } else {
        let rest = events.drop_last();
        let e = events.last();
        lemma_history_order_permutes(rest);
        lemma_history_order_sorted(rest);
        let sorted = history_order(rest);
        lemma_insertion_point(sorted, e, 0);
        vstd::seq_lib::to_multiset_insert(sorted, insertion_point(sorted, e, 0), e);
        vstd::seq_lib::to_multiset_build(rest, e);
        assert(events =~= rest.push(e));
    }
}

proof fn lemma_revision_order(a: SyncSettingTextRevision, b: SyncSettingTextRevision, c: SyncSettingTextRevision)
    ensures
        revision_lt(a, b) ==> !revision_lt(b, a),
        !revision_lt(a, b) && !revision_lt(b, c) ==> !revision_lt(a, c),
        revision_lt(a, b) && revision_lt(b, c) ==> revision_lt(a, c),
        !revision_lt(a, b) ==> (revision_lt(b, a) || (a.revision == b.revision && a.created_at == b.created_at && a.change_id == b.change_id)),
{
}

proof fn lemma_insertion_point(events: Seq<SyncSettingTextEvent>, event: SyncSettingTextEvent, i: int)
    requires
        0 <= i <= events.len(),
    ensures
        i <= insertion_point(events, event, i) <= events.len(),
        forall|j: int| i <= j < insertion_point(events, event, i) ==> !revision_lt(event.revision, #[trigger] events[j].revision),
        insertion_point(events, event, i) < events.len() ==> revision_lt(event.revision, events[insertion_point(events, event, i)].revision),
    decreases events.len() - i,
{
    if i < events.len() && !revision_lt(event.revision, events[i].revision) {
        lemma_insertion_point(events, event, i + 1);
    }
}

/// Ordering by history position yields the events in history order, as many as were given.
pub proof fn lemma_history_order_sorted(events: Seq<SyncSettingTextEvent>)
    ensures
        in_history_order(history_order(events)),
        history_order(events).len() == events.len(),
    decreases events.len(),
{
    if events.len() > 0 {
        let rest = events.drop_last();
        lemma_history_order_sorted(rest);
        let sorted = history_order(rest);
        let e = events.last();
        let p = insertion_point(sorted, e, 0);
        lemma_insertion_point(sorted, e, 0);
        let next = sorted.insert(p, e);
        assert forall|a: int, b: int| 0 <= a < b < next.len() implies !revision_lt(#[trigger] next[b].revision, #[trigger] next[a].revision) by {
            if b < p {
                assert(next[a] == sorted[a] && next[b] == sorted[b]);
            } else if b == p {
                assert(next[b] == e && next[a] == sorted[a]);
                lemma_revision_order(sorted[a].revision, e.revision, e.revision);
                assert(!revision_lt(e.revision, sorted[a].revision));
                lemma_revision_order(e.revision, sorted[a].revision, e.revision);
            } else if a == p {
                assert(next[a] == e && next[b] == sorted[b - 1]);
                assert(revision_lt(e.revision, sorted[p].revision));
                if b - 1 > p {
                    assert(!revision_lt(sorted[b - 1].revision, sorted[p].revision));
                    lemma_revision_order(e.revision, sorted[p].revision, sorted[b - 1].revision);
                    lemma_revision_order(sorted[b - 1].revision, sorted[p].revision, e.revision);
                }
                lemma_revision_order(e.revision, sorted[b - 1].revision, e.revision);
            } else if a < p {
                assert(next[a] == sorted[a] && next[b] == sorted[b - 1]);
            } else {
                assert(next[a] == sorted[a - 1] && next[b] == sorted[b - 1]);
            }
        }
    }
}


/// The problem with publishing a snapshot manifest for `snapshot`, covering `covered_changes`
/// and followed by `tail_changes`, checked in order: the snapshot itself, the covered changes,
/// then the tail changes.
pub open spec fn snapshot_manifest_inputs_check(
    result: Result<(), StorageError>,
    profile: Seq<char>,
    snapshot: ProfileSyncSettingsSnapshot,
    covered_changes: Seq<SyncChangeRecord>,
    tail_changes: Seq<SyncChangeRecord>,
    schema_version: u32,
) -> bool {
    if snapshot.profile@ != profile {
        result matches Err(StorageError::InvalidProfileSyncManifest(m))
            && m@ == "snapshot profile "@ + snapshot.profile@ + " does not match manifest profile "@ + profile
    } else if snapshot.schema_version != schema_version {
        result == Err::<(), StorageError>(StorageError::UnsupportedSyncSnapshotSchema(snapshot.schema_version))
    } else if covered_changes_problem(profile, snapshot, covered_changes) is Some {
        manifest_check_result(result, covered_changes_problem(profile, snapshot, covered_changes))
    } else {
        manifest_check_result(result, first_change_problem(profile, tail_changes, "tail change"@, 0))
    }
}

/// Checks what a snapshot manifest is built from (see `snapshot_manifest_inputs_check`).
pub fn validate_snapshot_manifest_for_publish(
    profile: &str,
    snapshot: &ProfileSyncSettingsSnapshot,
    covered_changes: &Vec<SyncChangeRecord>,
    tail_changes: &Vec<SyncChangeRecord>,
    schema_version: u32,
) -> (result: Result<(), StorageError>)
    ensures
        snapshot_manifest_inputs_check(result, profile@, *snapshot, covered_changes@, tail_changes@, schema_version),
{
    match validate_snapshot_for_publish(profile, snapshot, schema_version) {
        Err(e) => { return Err(e); },
        Ok(()) => {},
    }
    match validate_snapshot_covered_changes_for_publish(profile, snapshot, covered_changes) {
        Err(e) => { return Err(e); },
        Ok(()) => {},
    }
    validate_setting_changes_for_publish(profile, tail_changes, "tail change")
}

/// Checks that an already published snapshot, which a manifest is to build on, names its
/// backend object.
pub fn check_existing_snapshot_object_id(snapshot_object_id: &str) -> (result: Result<(), StorageError>)
    ensures
        snapshot_object_id@.len() == 0 ==> (result matches Err(StorageError::InvalidProfileSyncManifest(m))
            && m@ == "settings snapshot backend object id is empty"@),
        snapshot_object_id@.len() != 0 ==> result is Ok,
{
    if snapshot_object_id.unicode_len() == 0 {
        Err(StorageError::InvalidProfileSyncManifest(owned("settings snapshot backend object id is empty")))
    } else {
        Ok(())
    }
}

} // verus!
