//! Account membership logs: publication planning, root ids, and validation of received logs.
use vstd::prelude::*;
use crate::object_ids::{extend_unique, push_unique_object_id, unique_ids};
use crate::text::{append_str, owned};
use crate::errors::ProfileSyncPublishError;

verus! {

/// Schema version written into, and required of, membership logs.
pub const PROFILE_SYNC_MEMBERSHIP_LOG_SCHEMA_VERSION: u8 = 1;

/// Largest number of membership records a published membership log may hold.
pub const PROFILE_SYNC_MEMBERSHIP_LOG_MAX_RECORDS: usize = 512;

/// Root id under which a profile's membership log is published.
pub fn profile_sync_membership_log_root_id() -> (root_id: String)
    ensures
        root_id@ == "account/membership/log"@,
{
    owned("account/membership/log")
}

/// One published membership record, as listed in a membership log.
#[derive(Clone, Debug, PartialEq, Eq)]
pub struct ProfileSyncMembershipLogEntry {
    pub record_id: String,
    pub root_id: String,
    pub object_id: String,
    pub membership_epoch: i64,
    pub record_kind: String,
    pub device_id: String,
    pub signer_device_id: String,
}

/// The list of a profile's published membership records.
#[derive(Clone, Debug, PartialEq, Eq)]
pub struct ProfileSyncMembershipLog {
    pub profile: String,
    pub schema_version: u8,
    pub records: Vec<ProfileSyncMembershipLogEntry>,
}

/// A signed membership record published under its own root.
#[derive(Clone, Debug, PartialEq, Eq)]
pub struct PublishedProfileSyncMembershipRecord {
    pub profile: String,
    pub root_id: String,
    pub object_id: String,
    pub signed_record: Vec<u8>,
}

/// A membership log published under its root, with the object that holds it.
#[derive(Clone, Debug, PartialEq, Eq)]
pub struct PublishedProfileSyncMembershipLog {
    pub profile: String,
    pub root_id: String,
    pub object_id: String,
    pub log: ProfileSyncMembershipLog,
}

/// What a membership log of a given size allows.
#[derive(Clone, Copy, Debug, PartialEq, Eq, Structural)]
pub enum ProfileSyncMembershipLogPublicationPlanStatus {
    Empty,
    Publishable,
    TooLarge,
}

/// The publication plan for a profile's membership log of a given record count.
#[derive(Clone, Debug, PartialEq, Eq)]
pub struct ProfileSyncMembershipLogPublicationPlan {
    pub profile: String,
    pub root_id: String,
    pub record_count: usize,
    pub max_records: usize,
    pub status: ProfileSyncMembershipLogPublicationPlanStatus,
}

/// The plan status for a log of `record_count` records.
pub open spec fn publication_status(record_count: nat) -> ProfileSyncMembershipLogPublicationPlanStatus {
    if record_count == 0 {
        ProfileSyncMembershipLogPublicationPlanStatus::Empty
    } else if record_count > PROFILE_SYNC_MEMBERSHIP_LOG_MAX_RECORDS {
        ProfileSyncMembershipLogPublicationPlanStatus::TooLarge
    } else {
        ProfileSyncMembershipLogPublicationPlanStatus::Publishable
    }
}

impl ProfileSyncMembershipLogPublicationPlan {
    /// Plans publication of a log of `record_count` records: empty logs are not published,
    /// logs above the record limit need compaction first.
    pub fn for_record_count(profile: &str, root_id: &str, record_count: usize) -> (plan: Self)
        ensures
            plan.profile@ == profile@,
            plan.root_id@ == root_id@,
            plan.record_count == record_count,
            plan.max_records == PROFILE_SYNC_MEMBERSHIP_LOG_MAX_RECORDS,
            plan.status == publication_status(record_count as nat),
    {
        let status = if record_count == 0 {
            ProfileSyncMembershipLogPublicationPlanStatus::Empty
        } else if record_count > PROFILE_SYNC_MEMBERSHIP_LOG_MAX_RECORDS {
            ProfileSyncMembershipLogPublicationPlanStatus::TooLarge
        } else {
            ProfileSyncMembershipLogPublicationPlanStatus::Publishable
        };
        ProfileSyncMembershipLogPublicationPlan {
            profile: owned(profile),
            root_id: owned(root_id),
            record_count,
            max_records: PROFILE_SYNC_MEMBERSHIP_LOG_MAX_RECORDS,
            status,
        }
    }

    /// Whether there is nothing to publish.
    pub fn is_empty(&self) -> (empty: bool)
        ensures
            empty == (self.status == ProfileSyncMembershipLogPublicationPlanStatus::Empty),
    {
        self.status == ProfileSyncMembershipLogPublicationPlanStatus::Empty
    }

    /// Whether the log can be published as it is.
    pub fn is_publishable(&self) -> (publishable: bool)
        ensures
            publishable == (self.status == ProfileSyncMembershipLogPublicationPlanStatus::Publishable),
    {
        self.status == ProfileSyncMembershipLogPublicationPlanStatus::Publishable
    }

    /// Whether the log exceeds the record limit and must be compacted before publication.
    pub fn requires_compaction(&self) -> (too_large: bool)
        ensures
            too_large == (self.status == ProfileSyncMembershipLogPublicationPlanStatus::TooLarge),
    {
        self.status == ProfileSyncMembershipLogPublicationPlanStatus::TooLarge
    }
}

/// Every record count gets exactly one plan status: empty at zero, publishable up to the record
/// limit, too large above it.
pub proof fn lemma_publication_status_partition(record_count: nat)
    ensures
        (publication_status(record_count) == ProfileSyncMembershipLogPublicationPlanStatus::Empty) <==> record_count == 0,
        (publication_status(record_count) == ProfileSyncMembershipLogPublicationPlanStatus::Publishable) <==> (1 <= record_count <= PROFILE_SYNC_MEMBERSHIP_LOG_MAX_RECORDS),
        (publication_status(record_count) == ProfileSyncMembershipLogPublicationPlanStatus::TooLarge) <==> record_count > PROFILE_SYNC_MEMBERSHIP_LOG_MAX_RECORDS,
{
}

/// The object ids of the entries of a log, in order.
pub open spec fn entry_object_ids(records: Seq<ProfileSyncMembershipLogEntry>) -> Seq<Seq<char>> {
    records.map_values(|e: ProfileSyncMembershipLogEntry| e.object_id@)
}

impl PublishedProfileSyncMembershipLog {
    /// The objects this publication consists of: each record object, then the log object,
    /// each listed once, in order of first occurrence.
    pub fn published_object_ids(&self) -> (object_ids: Vec<String>)
        ensures
            object_ids.deep_view() == unique_ids(entry_object_ids(self.log.records@).push(self.object_id@)),
    {
        let mut object_ids: Vec<String> = Vec::new();
        let ghost all = entry_object_ids(self.log.records@).push(self.object_id@);
        let mut i: usize = 0;
        while i < self.log.records.len()
            invariant
                i <= self.log.records.len(),
                all == entry_object_ids(self.log.records@).push(self.object_id@),
                object_ids.deep_view() == extend_unique(Seq::empty(), all.take(i as int)),
            decreases self.log.records.len() - i,
        {
            proof {
                assert(all.take(i + 1).drop_last() =~= all.take(i as int));
                assert(all.take(i + 1).last() == self.log.records@[i as int].object_id@);
            }
            push_unique_object_id(&mut object_ids, self.log.records[i].object_id.as_str());
            i = i + 1;
        }
        proof {
            assert(all.take(i + 1).drop_last() =~= all.take(i as int));
            assert(all.take(i + 1) =~= all);
        }
        push_unique_object_id(&mut object_ids, self.object_id.as_str());
        object_ids
    }
}

/// Root id of a device's settings head: `settings/devices/<device_id>/head`.
pub open spec fn settings_device_head_root_id_spec(device_id: Seq<char>) -> Seq<char> {
    "settings/devices/"@ + device_id + "/head"@
}

/// Root id of a membership record: `account/membership/<record_id>`.
pub open spec fn sync_membership_record_root_id_spec(record_id: Seq<char>) -> Seq<char> {
    "account/membership/"@ + record_id
}

/// Root id under which a device publishes its settings head.
pub fn settings_device_head_root_id(device_id: &str) -> (root_id: String)
    ensures
        root_id@ == settings_device_head_root_id_spec(device_id@),
{
    let mut root_id = owned("settings/devices/");
    append_str(&mut root_id, device_id);
    append_str(&mut root_id, "/head");
    root_id
}

/// Root id under which a membership record is published.
pub fn sync_membership_record_root_id(record_id: &str) -> (root_id: String)
    ensures
        root_id@ == sync_membership_record_root_id_spec(record_id@),
{
    let mut root_id = owned("account/membership/");
    append_str(&mut root_id, record_id);
    root_id
}

/// Distinct membership records get distinct roots: the root id determines the record id.
pub proof fn lemma_sync_membership_record_root_id_injective(a: Seq<char>, b: Seq<char>)
    ensures
        sync_membership_record_root_id_spec(a) == sync_membership_record_root_id_spec(b) ==> a == b,
{
    let p = "account/membership/"@;
    if sync_membership_record_root_id_spec(a) == sync_membership_record_root_id_spec(b) {
        assert((p + a).subrange(p.len() as int, (p + a).len() as int) =~= a);
        assert((p + b).subrange(p.len() as int, (p + b).len() as int) =~= b);
    }
}

/// Distinct devices get distinct settings head roots: the root id determines the device id.
pub proof fn lemma_settings_device_head_root_id_injective(a: Seq<char>, b: Seq<char>)
    ensures
        settings_device_head_root_id_spec(a) == settings_device_head_root_id_spec(b) ==> a == b,
{
    let p = "settings/devices/"@;
    let q = "/head"@;
    if settings_device_head_root_id_spec(a) == settings_device_head_root_id_spec(b) {
        assert((p + a + q).subrange(p.len() as int, (p.len() + a.len()) as int) =~= a);
        assert((p + b + q).subrange(p.len() as int, (p.len() + b.len()) as int) =~= b);
        assert((p + a + q).len() == (p + b + q).len());
    }
}


/// A signed membership record as the store holds it.
#[derive(Clone, Debug, PartialEq, Eq)]
pub struct SyncAccountMembershipRecord {
    pub record_id: String,
    pub membership_epoch: i64,
    pub record_kind: String,
    pub device_id: String,
    pub signer_device_id: String,
    pub signed_record: Vec<u8>,
}

/// The error for a membership log above the record limit.
pub fn membership_log_too_large(plan: &ProfileSyncMembershipLogPublicationPlan) -> (error: ProfileSyncPublishError)
    ensures
        error matches ProfileSyncPublishError::MembershipLogTooLarge { profile, max_records, actual_records }
            && profile@ == plan.profile@ && max_records == plan.max_records && actual_records == plan.record_count,
{
    ProfileSyncPublishError::MembershipLogTooLarge {
        profile: plan.profile.clone(),
        max_records: plan.max_records,
        actual_records: plan.record_count,
    }
}

/// Whether a membership log with this plan is published: not when it is empty, and an error
/// when it is above the record limit.
pub fn membership_log_publication_gate(plan: &ProfileSyncMembershipLogPublicationPlan) -> (publish: Result<bool, ProfileSyncPublishError>)
    ensures
        match plan.status {
            ProfileSyncMembershipLogPublicationPlanStatus::Empty => publish == Ok::<bool, ProfileSyncPublishError>(false),
            ProfileSyncMembershipLogPublicationPlanStatus::Publishable => publish == Ok::<bool, ProfileSyncPublishError>(true),
            ProfileSyncMembershipLogPublicationPlanStatus::TooLarge => publish matches Err(ProfileSyncPublishError::MembershipLogTooLarge { profile, max_records, actual_records })
                && profile@ == plan.profile@ && max_records == plan.max_records && actual_records == plan.record_count,
        },
{
    if plan.is_empty() {
        return Ok(false);
    }
    if plan.requires_compaction() {
        return Err(membership_log_too_large(plan));
    }
    Ok(true)
}

/// Whether `entry` lists `record`, published as the object `object_id`.
pub open spec fn entry_lists_record(entry: ProfileSyncMembershipLogEntry, record: SyncAccountMembershipRecord, object_id: Seq<char>) -> bool {
    &&& entry.record_id@ == record.record_id@
    &&& entry.root_id@ == sync_membership_record_root_id_spec(record.record_id@)
    &&& entry.object_id@ == object_id
    &&& entry.membership_epoch == record.membership_epoch
    &&& entry.record_kind@ == record.record_kind@
    &&& entry.device_id@ == record.device_id@
    &&& entry.signer_device_id@ == record.signer_device_id@
}

/// The membership log of `profile` listing `records` in order, where `object_ids[k]` is the
/// object the k-th record was published as.
pub fn membership_log_for_records(
    profile: &str,
    records: &Vec<SyncAccountMembershipRecord>,
    object_ids: &Vec<String>,
) -> (log: ProfileSyncMembershipLog)
    requires
        object_ids@.len() == records@.len(),
    ensures
        log.profile@ == profile@,
        log.schema_version == PROFILE_SYNC_MEMBERSHIP_LOG_SCHEMA_VERSION,
        log.records@.len() == records@.len(),
        forall|k: int| 0 <= k < records@.len() ==> entry_lists_record(#[trigger] log.records@[k], records@[k], object_ids@[k]@),
{
    let mut entries: Vec<ProfileSyncMembershipLogEntry> = Vec::new();
    let mut i: usize = 0;
    while i < records.len()
        invariant
            i <= records@.len(),
            object_ids@.len() == records@.len(),
            entries@.len() == i,
            forall|k: int| 0 <= k < i ==> entry_lists_record(#[trigger] entries@[k], records@[k], object_ids@[k]@),
        decreases records.len() - i,
    {
        let record = &records[i];
        entries.push(ProfileSyncMembershipLogEntry {
            record_id: record.record_id.clone(),
            root_id: sync_membership_record_root_id(record.record_id.as_str()),
            object_id: object_ids[i].clone(),
            membership_epoch: record.membership_epoch,
            record_kind: record.record_kind.clone(),
            device_id: record.device_id.clone(),
            signer_device_id: record.signer_device_id.clone(),
        });
        i = i + 1;
    }
    ProfileSyncMembershipLog {
        profile: owned(profile),
        schema_version: PROFILE_SYNC_MEMBERSHIP_LOG_SCHEMA_VERSION,
        records: entries,
    }
}

} // verus!
