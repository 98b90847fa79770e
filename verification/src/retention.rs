//! Retention providers: which objects each provider retained, and which providers a scheduled
//! cycle asks to retain.
use vstd::prelude::*;

verus! {

/// Whether a provider retained an object and can serve it.
#[derive(Clone, Debug, PartialEq, Eq)]
pub struct BroadwebdProfileSyncRetentionStatus {
    pub object_id: String,
    pub retained: bool,
    pub available: bool,
}

/// A root published together with the objects it depends on.
#[derive(Clone, Debug, PartialEq, Eq)]
pub struct BroadwebdProfileSyncRootPublication {
    pub profile: String,
    pub root_id: String,
    pub root_object_id: String,
    pub dependency_object_ids: Vec<String>,
}

/// The retention outcome at one provider: the status of each object it was asked to retain.
#[derive(Clone, Debug, PartialEq, Eq)]
pub struct SettingsSyncCycleProviderRetentionRun {
    pub provider_index: usize,
    pub object_statuses: Vec<BroadwebdProfileSyncRetentionStatus>,
}

/// The number of statuses in `s` that are retained.
pub open spec fn retained_in(s: Seq<BroadwebdProfileSyncRetentionStatus>) -> nat
    decreases s.len(),
{
    if s.len() == 0 {
        0
    } else {
        retained_in(s.drop_last()) + if s.last().retained { 1nat } else { 0nat }
    }
}

/// The number of statuses in `s` that are available.
pub open spec fn available_in(s: Seq<BroadwebdProfileSyncRetentionStatus>) -> nat
    decreases s.len(),
{
    if s.len() == 0 {
        0
    } else {
        available_in(s.drop_last()) + if s.last().available { 1nat } else { 0nat }
    }
}

/// A provider run that retained every one of a non-empty set of objects.
pub open spec fn fully_retained(run: SettingsSyncCycleProviderRetentionRun) -> bool {
    run.object_statuses.len() > 0 && retained_in(run.object_statuses@) == run.object_statuses.len()
}

/// The number of provider runs that retained every one of a non-empty set of objects.
pub open spec fn fully_retained_in(runs: Seq<SettingsSyncCycleProviderRetentionRun>) -> nat
    decreases runs.len(),
{
    if runs.len() == 0 {
        0
    } else {
        fully_retained_in(runs.drop_last()) + if fully_retained(runs.last()) { 1nat } else { 0nat }
    }
}

proof fn lemma_retained_in_bound(s: Seq<BroadwebdProfileSyncRetentionStatus>)
    ensures
        retained_in(s) <= s.len(),
        available_in(s) <= s.len(),
    decreases s.len(),
{
    if s.len() > 0 {
        lemma_retained_in_bound(s.drop_last());
    }
}

proof fn lemma_fully_retained_in_bound(runs: Seq<SettingsSyncCycleProviderRetentionRun>)
    ensures
        fully_retained_in(runs) <= runs.len(),
    decreases runs.len(),
{
    if runs.len() > 0 {
        lemma_fully_retained_in_bound(runs.drop_last());
    }
}

impl SettingsSyncCycleProviderRetentionRun {
    /// The number of objects the provider was asked to retain.
    pub fn object_count(&self) -> (count: usize)
        ensures
            count == self.object_statuses.len(),
    {
        self.object_statuses.len()
    }

    /// The number of objects the provider reports as retained.
    pub fn retained_count(&self) -> (count: usize)
        ensures
            count == retained_in(self.object_statuses@),
            count <= self.object_statuses.len(),
    {
        let mut count: usize = 0;
        let mut i: usize = 0;
        while i < self.object_statuses.len()
            invariant
                i <= self.object_statuses.len(),
                count == retained_in(self.object_statuses@.take(i as int)),
                count <= i,
            decreases self.object_statuses.len() - i,
        {
            assert(self.object_statuses@.take(i + 1).drop_last() =~= self.object_statuses@.take(i as int));
            if self.object_statuses[i].retained {
                count = count + 1;
            }
            i = i + 1;
        }
        assert(self.object_statuses@.take(i as int) =~= self.object_statuses@);
        count
    }

    /// The number of objects the provider reports as available.
    pub fn available_count(&self) -> (count: usize)
        ensures
            count == available_in(self.object_statuses@),
            count <= self.object_statuses.len(),
    {
        let mut count: usize = 0;
        let mut i: usize = 0;
        while i < self.object_statuses.len()
            invariant
                i <= self.object_statuses.len(),
                count == available_in(self.object_statuses@.take(i as int)),
                count <= i,
            decreases self.object_statuses.len() - i,
        {
            assert(self.object_statuses@.take(i + 1).drop_last() =~= self.object_statuses@.take(i as int));
            if self.object_statuses[i].available {
                count = count + 1;
            }
            i = i + 1;
        }
        assert(self.object_statuses@.take(i as int) =~= self.object_statuses@);
        count
    }
}

/// The number of providers that retained every one of a non-empty set of objects.
pub fn retained_provider_count(retention: &Vec<SettingsSyncCycleProviderRetentionRun>) -> (count: usize)
    ensures
        count == fully_retained_in(retention@),
        count <= retention.len(),
{
    let mut count: usize = 0;
    let mut i: usize = 0;
    while i < retention.len()
        invariant
            i <= retention.len(),
            count == fully_retained_in(retention@.take(i as int)),
            count <= i,
        decreases retention.len() - i,
    {
        assert(retention@.take(i + 1).drop_last() =~= retention@.take(i as int));
        let run = &retention[i];
        let objects = run.object_count();
        if objects > 0 && objects == run.retained_count() {
            count = count + 1;
        }
        i = i + 1;
    }
    assert(retention@.take(i as int) =~= retention@);
    count
}

/// The roles a discovered provider offers, as far as retention selection reads them.
#[derive(Clone, Copy, Debug, PartialEq, Eq, Structural)]
pub struct ProfileSyncProviderRoles {
    pub availability: bool,
    pub object_transfer: bool,
}

/// A provider discovered for a profile.
#[derive(Clone, Debug, PartialEq, Eq)]
pub struct ProfileSyncProviderRecord {
    pub provider_id: String,
    pub roles: ProfileSyncProviderRoles,
}

/// Whether a provider can retain objects: it offers both availability and object transfer.
pub open spec fn retention_capable(provider: ProfileSyncProviderRecord) -> bool {
    provider.roles.availability && provider.roles.object_transfer
}

/// The providers of `s` that can retain objects, in order.
pub open spec fn retention_capable_in(s: Seq<ProfileSyncProviderRecord>) -> Seq<ProfileSyncProviderRecord>
    decreases s.len(),
{
    if s.len() == 0 {
        s
    } else if retention_capable(s.last()) {
        retention_capable_in(s.drop_last()).push(s.last())
    } else {
        retention_capable_in(s.drop_last())
    }
}

/// The discovered providers that can retain objects, in discovery order.
pub fn retention_provider_candidates(providers: Vec<ProfileSyncProviderRecord>) -> (candidates: Vec<ProfileSyncProviderRecord>)
    ensures
        candidates@ == retention_capable_in(providers@),
{
    let mut candidates: Vec<ProfileSyncProviderRecord> = Vec::new();
    let mut rest = providers;
    let ghost all = rest@;
    let ghost mut taken: Seq<ProfileSyncProviderRecord> = Seq::empty();
    while rest.len() > 0
        invariant
            all == taken + rest@,
            candidates@ == retention_capable_in(taken),
        decreases rest.len(),
    {
        let provider = rest.remove(0);
        let keep = provider.roles.availability && provider.roles.object_transfer;
        proof {
            let before = taken;
            taken = taken.push(provider);
            assert(taken.drop_last() =~= before);
            assert(all =~= taken + rest@);
        }
        if keep {
            candidates.push(provider);
        }
    }
    assert(taken =~= all);
    candidates
}

} // verus!
