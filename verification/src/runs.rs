//! What a settings sync cycle did: what it received, what it published, what providers
//! retained, and how healthy the profile was before and after.
use vstd::prelude::*;
use crate::text::str_equal;
use crate::health::{SettingsSyncHealthReport, report_degraded};
use crate::membership::{
    ProfileSyncMembershipLog, PublishedProfileSyncMembershipLog, entry_object_ids,
    settings_device_head_root_id, settings_device_head_root_id_spec,
};
use crate::object_ids::{unique_ids, extend_unique, extend_unique_object_ids, lemma_extend_unique_absorbs_unique_ids};
use crate::publish::{LocalSettingsSyncRun, ProfileSyncDeviceHead, ProfileSyncRootRecord, published_steps, steps_object_ids};
use crate::retention::{SettingsSyncCycleProviderRetentionRun, fully_retained_in, retained_provider_count};
use crate::discovery::SyncDevicePublicKeyRecord;

verus! {

/// A signed membership record the store applied.
#[derive(Clone, Debug, PartialEq, Eq)]
pub struct SyncAccountMembershipRecordApplication {
    pub record_id: String,
}

/// What pulling one membership record root did.
#[derive(Clone, Debug, PartialEq, Eq)]
pub enum ProfileSyncMembershipRecordPullStatus {
    NoPublishedRoot { profile: String, root_id: String },
    Unchanged { profile: String, root_id: String, object_id: String },
    Applied { root: ProfileSyncRootRecord, application: SyncAccountMembershipRecordApplication },
}

/// What pulling the membership log root did.
#[derive(Clone, Debug, PartialEq, Eq)]
pub enum ProfileSyncMembershipLogPullStatus {
    NoPublishedRoot { profile: String, root_id: String },
    Unchanged { profile: String, root_id: String, object_id: String },
    Applied {
        root: ProfileSyncRootRecord,
        log: ProfileSyncMembershipLog,
        applications: Vec<SyncAccountMembershipRecordApplication>,
    },
}

impl ProfileSyncMembershipLogPullStatus {
    /// The number of membership records the pull applied.
    pub fn applied_count(&self) -> (count: usize)
        ensures
            count == (match *self {
                ProfileSyncMembershipLogPullStatus::Applied { applications, .. } => applications@.len(),
                _ => 0,
            }),
    {
        match self {
            ProfileSyncMembershipLogPullStatus::Applied { applications, .. } => applications.len(),
            _ => 0,
        }
    }
}

/// What to do about a published root.
#[derive(Clone, Debug, PartialEq, Eq)]
pub enum RootPullDecision {
    NoPublishedRoot,
    Unchanged { object_id: String },
    Fetch { object_id: String },
}

/// What to do about a root, given the object it resolves to at the backend (if it is
/// published) and the root the store recorded: nothing when it is not published or the store
/// already records that object, else fetch and apply the object.
pub fn root_pull_decision(resolved_object_id: Option<String>, stored_root: &Option<ProfileSyncRootRecord>) -> (decision: RootPullDecision)
    ensures
        match resolved_object_id {
            None => decision is NoPublishedRoot,
            Some(id) => if (stored_root matches Some(root) && root.object_id@ == id@) {
                decision == RootPullDecision::Unchanged { object_id: id }
            } else {
                decision == RootPullDecision::Fetch { object_id: id }
            },
        },
{
    match resolved_object_id {
        None => RootPullDecision::NoPublishedRoot,
        Some(id) => {
            let unchanged = match stored_root {
                Some(root) => str_equal(root.object_id.as_str(), id.as_str()),
                None => false,
            };
            if unchanged {
                RootPullDecision::Unchanged { object_id: id }
            } else {
                RootPullDecision::Fetch { object_id: id }
            }
        },
    }
}

/// What pulling a trusted device's settings head did.
#[derive(Clone, Debug, PartialEq, Eq)]
pub enum BroadwebdTrustedDeviceHeadSyncStatus {
    NoPublishedRoot { profile: String, root_id: String },
    Unchanged { profile: String, root_id: String, object_id: String },
    Applied { device_head: ProfileSyncDeviceHead, root: ProfileSyncRootRecord },
}

/// The outcome of pulling one trusted device's settings.
#[derive(Clone, Debug, PartialEq, Eq)]
pub struct TrustedSettingsDeviceSyncResult {
    pub device_id: String,
    pub root_id: String,
    pub status: BroadwebdTrustedDeviceHeadSyncStatus,
}

/// The outcomes of pulling the settings of every trusted device of a profile.
#[derive(Clone, Debug, PartialEq, Eq)]
pub struct TrustedSettingsSyncRun {
    pub profile: String,
    pub devices: Vec<TrustedSettingsDeviceSyncResult>,
}

/// The number of device pulls of `devices` that applied settings.
pub open spec fn applied_devices(devices: Seq<TrustedSettingsDeviceSyncResult>) -> nat
    decreases devices.len(),
{
    if devices.len() == 0 {
        0
    } else {
        applied_devices(devices.drop_last()) + if devices.last().status is Applied { 1nat } else { 0nat }
    }
}

impl TrustedSettingsSyncRun {
    /// The number of devices whose settings were applied.
    pub fn applied_count(&self) -> (count: usize)
        ensures
            count == applied_devices(self.devices@),
    {
        let mut count: usize = 0;
        let mut i: usize = 0;
        while i < self.devices.len()
            invariant
                i <= self.devices@.len(),
                count == applied_devices(self.devices@.take(i as int)),
                count <= i,
            decreases self.devices.len() - i,
        {
            assert(self.devices@.take(i as int + 1).drop_last() =~= self.devices@.take(i as int));
            match &self.devices[i].status {
                BroadwebdTrustedDeviceHeadSyncStatus::Applied { .. } => {
                    count = count + 1;
                },
                _ => {},
            }
            i = i + 1;
        }
        assert(self.devices@.take(self.devices@.len() as int) =~= self.devices@);
        count
    }
}

/// The device-head roots to pull for trusted remote devices: for each, its device id and the
/// root of its settings head, in order.
pub fn device_head_pull_targets(devices: &Vec<SyncDevicePublicKeyRecord>) -> (targets: Vec<(String, String)>)
    ensures
        targets@.len() == devices@.len(),
        forall|k: int| 0 <= k < devices@.len() ==> {
            &&& (#[trigger] targets@[k]).0@ == devices@[k].device_id@
            &&& targets@[k].1@ == settings_device_head_root_id_spec(devices@[k].device_id@)
        },
{
    let mut targets: Vec<(String, String)> = Vec::new();
    let mut i: usize = 0;
    while i < devices.len()
        invariant
            i <= devices@.len(),
            targets@.len() == i,
            forall|k: int| 0 <= k < i ==> {
                &&& (#[trigger] targets@[k]).0@ == devices@[k].device_id@
                &&& targets@[k].1@ == settings_device_head_root_id_spec(devices@[k].device_id@)
            },
        decreases devices.len() - i,
    {
        let device_id = devices[i].device_id.clone();
        let root_id = settings_device_head_root_id(device_id.as_str());
        targets.push((device_id, root_id));
        i = i + 1;
    }
    targets
}

/// One local publish loop and one receive pass of a profile's settings.
#[derive(Clone, Debug, PartialEq, Eq)]
pub struct SettingsSyncCycleRun {
    pub profile: String,
    pub settings_root_id: String,
    pub publish: LocalSettingsSyncRun,
    pub receive: TrustedSettingsSyncRun,
}

impl SettingsSyncCycleRun {
    /// The number of publish attempts that published a manifest.
    pub fn published_step_count(&self) -> (count: usize)
        ensures
            count == published_steps(self.publish.steps@),
    {
        self.publish.published_step_count()
    }

    /// The number of devices whose settings were applied.
    pub fn applied_count(&self) -> (count: usize)
        ensures
            count == applied_devices(self.receive.devices@),
    {
        self.receive.applied_count()
    }

    /// The objects the cycle published, each once, in order of first occurrence.
    pub fn published_object_ids(&self) -> (object_ids: Vec<String>)
        ensures
            object_ids.deep_view() == steps_object_ids(self.publish.steps@),
    {
        self.publish.published_object_ids()
    }
}

/// A cycle that also pulled and published the membership log.
#[derive(Clone, Debug, PartialEq, Eq)]
pub struct SettingsSyncCycleWithMembershipLogRun {
    pub pulled_membership_log: ProfileSyncMembershipLogPullStatus,
    pub cycle: SettingsSyncCycleRun,
    pub published_membership_log: Option<PublishedProfileSyncMembershipLog>,
}

/// The objects of a membership log publication, with repeats: each record object, then the log.
pub open spec fn membership_log_objects(published: PublishedProfileSyncMembershipLog) -> Seq<Seq<char>> {
    entry_object_ids(published.log.records@).push(published.object_id@)
}

/// The objects of a cycle with a membership log: those the settings publish loop published,
/// then those of the membership log publication, if any, each once.
pub open spec fn membership_cycle_object_ids(run: SettingsSyncCycleWithMembershipLogRun) -> Seq<Seq<char>> {
    match run.published_membership_log {
        Some(published) => extend_unique(steps_object_ids(run.cycle.publish.steps@), membership_log_objects(published)),
        None => steps_object_ids(run.cycle.publish.steps@),
    }
}

impl SettingsSyncCycleWithMembershipLogRun {
    /// The number of membership records the pull applied.
    pub fn pulled_membership_application_count(&self) -> (count: usize)
        ensures
            count == (match self.pulled_membership_log {
                ProfileSyncMembershipLogPullStatus::Applied { applications, .. } => applications@.len(),
                _ => 0,
            }),
    {
        self.pulled_membership_log.applied_count()
    }

    /// The objects the cycle published (see `membership_cycle_object_ids`).
    pub fn published_object_ids(&self) -> (object_ids: Vec<String>)
        ensures
            object_ids.deep_view() == membership_cycle_object_ids(*self),
    {
        let mut object_ids = self.cycle.published_object_ids();
        match &self.published_membership_log {
            Some(published) => {
                proof {
                    lemma_extend_unique_absorbs_unique_ids(object_ids.deep_view(), membership_log_objects(*published));
                }
                extend_unique_object_ids(&mut object_ids, published.published_object_ids());
            },
            None => {},
        }
        object_ids
    }
}

/// A cycle with a membership log whose objects providers were asked to retain.
#[derive(Clone, Debug, PartialEq, Eq)]
pub struct SettingsSyncCycleWithMembershipLogRetentionRun {
    pub cycle: SettingsSyncCycleWithMembershipLogRun,
    pub retained_object_ids: Vec<String>,
    pub retention: Vec<SettingsSyncCycleProviderRetentionRun>,
}

impl SettingsSyncCycleWithMembershipLogRetentionRun {
    /// The number of providers that retained every one of a non-empty set of objects.
    pub fn retained_provider_count(&self) -> (count: usize)
        ensures
            count == fully_retained_in(self.retention@),
    {
        retained_provider_count(&self.retention)
    }
}

/// A cycle with the profile's health before and after it.
#[derive(Clone, Debug, PartialEq, Eq)]
pub struct SettingsSyncCycleWithHealthRun {
    pub before_health: SettingsSyncHealthReport,
    pub cycle: SettingsSyncCycleRun,
    pub after_health: SettingsSyncHealthReport,
}

impl SettingsSyncCycleWithHealthRun {
    /// Whether the profile was degraded before the cycle.
    pub fn degraded_before(&self) -> (degraded: bool)
        ensures
            degraded == report_degraded(self.before_health),
    {
        self.before_health.degraded()
    }

    /// Whether the profile was degraded after the cycle.
    pub fn degraded_after(&self) -> (degraded: bool)
        ensures
            degraded == report_degraded(self.after_health),
    {
        self.after_health.degraded()
    }
}

/// A cycle whose published objects providers were asked to retain, with health before and
/// after it.
#[derive(Clone, Debug, PartialEq, Eq)]
pub struct SettingsSyncCycleWithRetentionRun {
    pub before_health: SettingsSyncHealthReport,
    pub cycle: SettingsSyncCycleRun,
    pub retention: Vec<SettingsSyncCycleProviderRetentionRun>,
    pub after_health: SettingsSyncHealthReport,
}

impl SettingsSyncCycleWithRetentionRun {
    /// Whether the profile was degraded before the cycle.
    pub fn degraded_before(&self) -> (degraded: bool)
        ensures
            degraded == report_degraded(self.before_health),
    {
        self.before_health.degraded()
    }

    /// Whether the profile was degraded after the cycle.
    pub fn degraded_after(&self) -> (degraded: bool)
        ensures
            degraded == report_degraded(self.after_health),
    {
        self.after_health.degraded()
    }

    /// The number of providers that retained every one of a non-empty set of objects.
    pub fn retained_provider_count(&self) -> (count: usize)
        ensures
            count == fully_retained_in(self.retention@),
    {
        retained_provider_count(&self.retention)
    }
}

/// One settings manifest candidate of the shared root that was applied, with the sync objects
/// it consists of.
#[derive(Clone, Debug, PartialEq, Eq)]
pub struct ProfileSyncSettingsCandidateApplication {
    pub sync_object_ids: Vec<String>,
}

/// What pulling the candidates of the shared settings root did.
#[derive(Clone, Debug, PartialEq, Eq)]
pub enum ProfileSyncSettingsCandidatePullApplyStatus {
    NoPublishedRoot { profile: String, root_id: String },
    Unchanged { profile: String, root_id: String },
    Applied(Vec<ProfileSyncSettingsCandidateApplication>),
}

/// The sync objects of the applied candidates `applications`, each once, in order.
pub open spec fn candidate_objects(applications: Seq<ProfileSyncSettingsCandidateApplication>) -> Seq<Seq<char>>
    decreases applications.len(),
{
    if applications.len() == 0 {
        Seq::empty()
    } else {
        extend_unique(candidate_objects(applications.drop_last()), applications.last().sync_object_ids.deep_view())
    }
}

/// The sync objects of the applied shared-root candidates, each once, in order.
pub open spec fn shared_root_objects(status: ProfileSyncSettingsCandidatePullApplyStatus) -> Seq<Seq<char>> {
    match status {
        ProfileSyncSettingsCandidatePullApplyStatus::Applied(applications) => candidate_objects(applications@),
        _ => Seq::empty(),
    }
}

/// The number of shared-root candidates applied.
pub open spec fn shared_root_applications(status: ProfileSyncSettingsCandidatePullApplyStatus) -> nat {
    match status {
        ProfileSyncSettingsCandidatePullApplyStatus::Applied(applications) => applications@.len(),
        _ => 0,
    }
}

/// The sync objects of the applied shared-root candidates, each once, in order.
pub fn shared_root_candidate_object_ids(status: &ProfileSyncSettingsCandidatePullApplyStatus) -> (object_ids: Vec<String>)
    ensures
        object_ids.deep_view() == shared_root_objects(*status),
{
    let mut object_ids: Vec<String> = Vec::new();
    assert(object_ids.deep_view() =~= Seq::<Seq<char>>::empty());
    match status {
        ProfileSyncSettingsCandidatePullApplyStatus::Applied(applications) => {
            let mut i: usize = 0;
            while i < applications.len()
                invariant
                    i <= applications@.len(),
                    object_ids.deep_view() == candidate_objects(applications@.take(i as int)),
                decreases applications.len() - i,
            {
                assert(applications@.take(i as int + 1).drop_last() =~= applications@.take(i as int));
                crate::object_ids::extend_unique_object_ids_from(&mut object_ids, &applications[i].sync_object_ids);
                i = i + 1;
            }
            assert(applications@.take(applications@.len() as int) =~= applications@);
        },
        _ => {},
    }
    object_ids
}

/// The number of shared-root candidates applied.
fn shared_root_candidate_application_count(status: &ProfileSyncSettingsCandidatePullApplyStatus) -> (count: usize)
    ensures
        count == shared_root_applications(*status),
{
    match status {
        ProfileSyncSettingsCandidatePullApplyStatus::Applied(applications) => applications.len(),
        _ => 0,
    }
}

/// A cycle that also pulled the shared settings root's candidates, with health before and
/// after it.
#[derive(Clone, Debug, PartialEq, Eq)]
pub struct SettingsSyncCycleWithSharedRootCandidatesRun {
    pub before_health: SettingsSyncHealthReport,
    pub cycle: SettingsSyncCycleRun,
    pub shared_root_candidates: ProfileSyncSettingsCandidatePullApplyStatus,
    pub after_health: SettingsSyncHealthReport,
}

impl SettingsSyncCycleWithSharedRootCandidatesRun {
    /// Whether the profile was degraded before the cycle.
    pub fn degraded_before(&self) -> (degraded: bool)
        ensures
            degraded == report_degraded(self.before_health),
    {
        self.before_health.degraded()
    }

    /// Whether the profile was degraded after the cycle.
    pub fn degraded_after(&self) -> (degraded: bool)
        ensures
            degraded == report_degraded(self.after_health),
    {
        self.after_health.degraded()
    }

    /// The number of shared-root candidates applied.
    pub fn shared_root_candidate_application_count(&self) -> (count: usize)
        ensures
            count == shared_root_applications(self.shared_root_candidates),
    {
        shared_root_candidate_application_count(&self.shared_root_candidates)
    }

    /// The sync objects of the applied shared-root candidates, each once, in order.
    pub fn shared_root_candidate_object_ids(&self) -> (object_ids: Vec<String>)
        ensures
            object_ids.deep_view() == shared_root_objects(self.shared_root_candidates),
    {
        shared_root_candidate_object_ids(&self.shared_root_candidates)
    }
}

/// A cycle that pulled the shared root's candidates and asked providers to retain its objects
/// and the candidates' objects, with health before and after it.
#[derive(Clone, Debug, PartialEq, Eq)]
pub struct SettingsSyncCycleWithSharedRootRetentionRun {
    pub before_health: SettingsSyncHealthReport,
    pub cycle: SettingsSyncCycleRun,
    pub shared_root_candidates: ProfileSyncSettingsCandidatePullApplyStatus,
    pub retained_object_ids: Vec<String>,
    pub retention: Vec<SettingsSyncCycleProviderRetentionRun>,
    pub after_health: SettingsSyncHealthReport,
}

impl SettingsSyncCycleWithSharedRootRetentionRun {
    /// Whether the profile was degraded before the cycle.
    pub fn degraded_before(&self) -> (degraded: bool)
        ensures
            degraded == report_degraded(self.before_health),
    {
        self.before_health.degraded()
    }

    /// Whether the profile was degraded after the cycle.
    pub fn degraded_after(&self) -> (degraded: bool)
        ensures
            degraded == report_degraded(self.after_health),
    {
        self.after_health.degraded()
    }

    /// The number of shared-root candidates applied.
    pub fn shared_root_candidate_application_count(&self) -> (count: usize)
        ensures
            count == shared_root_applications(self.shared_root_candidates),
    {
        shared_root_candidate_application_count(&self.shared_root_candidates)
    }

    /// The sync objects of the applied shared-root candidates, each once, in order.
    pub fn shared_root_candidate_object_ids(&self) -> (object_ids: Vec<String>)
        ensures
            object_ids.deep_view() == shared_root_objects(self.shared_root_candidates),
    {
        shared_root_candidate_object_ids(&self.shared_root_candidates)
    }

    /// The number of providers that retained every one of a non-empty set of objects.
    pub fn retained_provider_count(&self) -> (count: usize)
        ensures
            count == fully_retained_in(self.retention@),
    {
        retained_provider_count(&self.retention)
    }
}

/// The objects a cycle asks providers to retain: those it published, then the objects of the
/// shared-root candidates it applied, each once, in order of first occurrence.
pub fn cycle_retained_object_ids(published: Vec<String>, candidates: Vec<String>) -> (object_ids: Vec<String>)
    ensures
        object_ids.deep_view() == unique_ids(published.deep_view() + candidates.deep_view()),
{
    let mut object_ids: Vec<String> = Vec::new();
    assert(object_ids.deep_view() =~= Seq::<Seq<char>>::empty());
    let ghost p = published.deep_view();
    let ghost c = candidates.deep_view();
    extend_unique_object_ids(&mut object_ids, published);
    extend_unique_object_ids(&mut object_ids, candidates);
    proof {
        crate::object_ids::lemma_extend_unique_concat(Seq::empty(), p, c);
    }
    object_ids
}

/// A pre-cycle check that also pulled the membership log.
#[derive(Clone, Debug, PartialEq, Eq)]
pub struct SettingsSyncCyclePreflightWithMembershipLog {
    pub pulled_membership_log: ProfileSyncMembershipLogPullStatus,
    pub preflight: crate::scheduling::SettingsSyncCyclePreflight,
}

impl SettingsSyncCyclePreflightWithMembershipLog {
    /// The number of membership records the pull applied.
    pub fn pulled_membership_application_count(&self) -> (count: usize)
        ensures
            count == (match self.pulled_membership_log {
                ProfileSyncMembershipLogPullStatus::Applied { applications, .. } => applications@.len(),
                _ => 0,
            }),
    {
        self.pulled_membership_log.applied_count()
    }
}

} // verus!
