//! Scheduled settings sync cycles: the preflight state and the choice of retention providers.
use vstd::prelude::*;
use crate::health::SettingsSyncHealthReport;
use crate::object_ids::{contains_string, lemma_unique_ids, push_unique, push_unique_object_id, unique_ids};
use crate::retention::{ProfileSyncProviderRecord, fully_retained_in};
use crate::health::report_degraded;
use crate::policy::{
    ProfileSyncPolicyError, SettingsSyncCyclePolicy, first_failure, maximum_failure, minimum_failure, policy_result_is,
};
use crate::membership::ProfileSyncMembershipLogPublicationPlan;
use crate::runs::{
    SettingsSyncCycleWithSharedRootRetentionRun, SettingsSyncCycleWithMembershipLogRetentionRun,
    SettingsSyncCyclePreflightWithMembershipLog,
};
use crate::text::owned;

verus! {

/// What a cycle established before it ran: credentials, trusted devices, retention candidates
/// and provider health.
#[derive(Clone, Debug, PartialEq, Eq)]
pub struct SettingsSyncCyclePreflight {
    pub profile: String,
    pub settings_root_id: String,
    pub local_device_id: String,
    pub signer_device_id: String,
    pub active_key_id: String,
    pub trusted_remote_device_count: usize,
    pub retention_provider_candidates: Vec<ProfileSyncProviderRecord>,
    pub before_health: SettingsSyncHealthReport,
}

/// A retention provider the caller offers for a cycle: its id and the daemon that reaches it.
pub struct SettingsSyncRetentionProviderHandle<'a, D> {
    pub provider_id: &'a str,
    pub daemon: &'a D,
}

impl<'a, D> SettingsSyncRetentionProviderHandle<'a, D> {
    /// A handle for the provider `provider_id`, reached through `daemon`.
    pub fn new(provider_id: &'a str, daemon: &'a D) -> (handle: Self)
        ensures
            handle.provider_id == provider_id,
            handle.daemon == daemon,
    {
        SettingsSyncRetentionProviderHandle { provider_id, daemon }
    }
}

/// How the offered retention providers of a cycle were sorted.
#[derive(Clone, Debug, PartialEq, Eq)]
pub struct SettingsSyncScheduledCyclePlan {
    pub preflight: SettingsSyncCyclePreflight,
    pub selected_retention_provider_ids: Vec<String>,
    pub stale_retention_provider_ids: Vec<String>,
    pub offline_retention_provider_ids: Vec<String>,
    pub undiscovered_retention_provider_ids: Vec<String>,
    pub duplicate_retention_provider_ids: Vec<String>,
}

/// The plan together with the daemons of the selected providers, in selection order.
pub struct SelectedSettingsSyncRetentionProviders<'a, D> {
    pub plan: SettingsSyncScheduledCyclePlan,
    pub daemons: Vec<&'a D>,
}

/// Where an offered provider id lands.
pub enum RetentionProviderClass {
    Candidate,
    Stale,
    Offline,
    Undiscovered,
}

/// The ids of the discovered retention candidates.
pub open spec fn candidate_ids(candidates: Seq<ProfileSyncProviderRecord>) -> Seq<Seq<char>> {
    candidates.map_values(|p: ProfileSyncProviderRecord| p.provider_id@)
}

/// The provider ids of offered handles, in order.
pub open spec fn handle_ids<'a, D>(handles: Seq<SettingsSyncRetentionProviderHandle<'a, D>>) -> Seq<Seq<char>> {
    handles.map_values(|h: SettingsSyncRetentionProviderHandle<'a, D>| h.provider_id@)
}

/// An offered id is a candidate when discovery lists it as retention-capable; otherwise it is
/// stale or offline when provider health lists it so (stale first), else undiscovered.
pub open spec fn provider_class(
    candidates: Seq<Seq<char>>,
    stale: Seq<Seq<char>>,
    offline: Seq<Seq<char>>,
    id: Seq<char>,
) -> RetentionProviderClass {
    if candidates.contains(id) {
        RetentionProviderClass::Candidate
    } else if stale.contains(id) {
        RetentionProviderClass::Stale
    } else if offline.contains(id) {
        RetentionProviderClass::Offline
    } else {
        RetentionProviderClass::Undiscovered
    }
}

/// The offered ids that fall in `class`, in offer order, repeats included.
pub open spec fn ids_in_class(
    ids: Seq<Seq<char>>,
    candidates: Seq<Seq<char>>,
    stale: Seq<Seq<char>>,
    offline: Seq<Seq<char>>,
    class: RetentionProviderClass,
) -> Seq<Seq<char>>
    decreases ids.len(),
{
    if ids.len() == 0 {
        ids
    } else if provider_class(candidates, stale, offline, ids.last()) == class {
        ids_in_class(ids.drop_last(), candidates, stale, offline, class).push(ids.last())
    } else {
        ids_in_class(ids.drop_last(), candidates, stale, offline, class)
    }
}

/// The offered candidate ids that were already offered earlier, in offer order.
pub open spec fn repeated_candidate_ids(ids: Seq<Seq<char>>, candidates: Seq<Seq<char>>) -> Seq<Seq<char>>
    decreases ids.len(),
{
    if ids.len() == 0 {
        ids
    } else if candidates.contains(ids.last()) && ids.drop_last().contains(ids.last()) {
        repeated_candidate_ids(ids.drop_last(), candidates).push(ids.last())
    } else {
        repeated_candidate_ids(ids.drop_last(), candidates)
    }
}

proof fn lemma_ids_in_class_contains(
    ids: Seq<Seq<char>>,
    candidates: Seq<Seq<char>>,
    stale: Seq<Seq<char>>,
    offline: Seq<Seq<char>>,
    class: RetentionProviderClass,
    y: Seq<char>,
)
    ensures
        ids_in_class(ids, candidates, stale, offline, class).contains(y)
            <==> (ids.contains(y) && provider_class(candidates, stale, offline, y) == class),
    decreases ids.len(),
{
    if ids.len() > 0 {
        lemma_ids_in_class_contains(ids.drop_last(), candidates, stale, offline, class, y);
        let rest = ids_in_class(ids.drop_last(), candidates, stale, offline, class);
        if ids.contains(y) {
            let k = choose|k: int| 0 <= k < ids.len() && ids[k] == y;
            if k < ids.len() - 1 {
                assert(ids.drop_last()[k] == y);
            }
        }
        if ids.drop_last().contains(y) {
            let k = choose|k: int| 0 <= k < ids.len() - 1 && ids.drop_last()[k] == y;
            assert(ids[k] == y);
        }
        if provider_class(candidates, stale, offline, ids.last()) == class {
            let r = rest.push(ids.last());
            if r.contains(y) {
                let k = choose|k: int| 0 <= k < r.len() && r[k] == y;
                if k < rest.len() {
                    assert(rest[k] == y);
                }
            }
            if rest.contains(y) {
                let k = choose|k: int| 0 <= k < rest.len() && rest[k] == y;
                assert(r[k] == y);
            }
            assert(r[rest.len() as int] == ids.last());
        }
    }
}

proof fn lemma_unique_push(s: Seq<Seq<char>>, x: Seq<char>)
    ensures
        unique_ids(s.push(x)) == push_unique(unique_ids(s), x),
{
    assert(s.push(x).drop_last() =~= s);
}

/// The position of the first `x` in `s` at or after `i`, or -1 when there is none.
pub open spec fn first_index_from(s: Seq<Seq<char>>, x: Seq<char>, i: int) -> int
    decreases s.len() - i,
{
    if i < 0 || i >= s.len() {
        -1
    } else if s[i] == x {
        i
    } else {
        first_index_from(s, x, i + 1)
    }
}

/// The position of the first `x` in `s`, or -1 when there is none.
pub open spec fn first_index(s: Seq<Seq<char>>, x: Seq<char>) -> int {
    first_index_from(s, x, 0)
}

proof fn lemma_first_index_from(s: Seq<Seq<char>>, x: Seq<char>, i: int, o: int)
    requires
        0 <= i <= o < s.len(),
        s[o] == x,
        forall|j: int| 0 <= j < o ==> s[j] != x,
    ensures
        first_index_from(s, x, i) == o,
    decreases o - i,
{
    if i < o {
        lemma_first_index_from(s, x, i + 1, o);
    }
}

/// Each selected daemon is the daemon of the first offered handle with the selected id.
pub open spec fn daemons_of_first_handles<'a, D>(
    handles: Seq<SettingsSyncRetentionProviderHandle<'a, D>>,
    selected_ids: Seq<Seq<char>>,
    daemons: Seq<&'a D>,
) -> bool {
    &&& forall|k: int| 0 <= k < daemons.len() ==> 0 <= #[trigger] first_index(handle_ids(handles), selected_ids[k]) < handles.len()
    &&& forall|k: int| 0 <= k < daemons.len() ==> #[trigger] daemons[k] == handles[first_index(handle_ids(handles), selected_ids[k])].daemon
}

/// Sorts the offered retention providers of a cycle: candidates discovered as
/// retention-capable are selected (once each, with the daemon of their first handle; repeats
/// are listed as duplicates); the others are listed as stale or offline when provider health
/// says so, else as undiscovered. Each list keeps offer order and holds each id once.
#[verifier::spinoff_prover]
#[verifier::rlimit(80)]
pub fn select_settings_sync_retention_provider_handles<'a, D>(
    preflight: SettingsSyncCyclePreflight,
    retention_provider_handles: &[SettingsSyncRetentionProviderHandle<'a, D>],
) -> (selected: SelectedSettingsSyncRetentionProviders<'a, D>)
    ensures
        ({
            let ids = handle_ids(retention_provider_handles@);
            let c = candidate_ids(preflight.retention_provider_candidates@);
            let st = preflight.before_health.provider_health.stale_online_provider_ids.deep_view();
            let off = preflight.before_health.provider_health.offline_provider_ids.deep_view();
            let plan = selected.plan;
            &&& plan.preflight == preflight
            &&& plan.selected_retention_provider_ids.deep_view() == unique_ids(ids_in_class(ids, c, st, off, RetentionProviderClass::Candidate))
            &&& plan.stale_retention_provider_ids.deep_view() == unique_ids(ids_in_class(ids, c, st, off, RetentionProviderClass::Stale))
            &&& plan.offline_retention_provider_ids.deep_view() == unique_ids(ids_in_class(ids, c, st, off, RetentionProviderClass::Offline))
            &&& plan.undiscovered_retention_provider_ids.deep_view() == unique_ids(ids_in_class(ids, c, st, off, RetentionProviderClass::Undiscovered))
            &&& plan.duplicate_retention_provider_ids.deep_view() == unique_ids(repeated_candidate_ids(ids, c))
            &&& selected.daemons.len() == plan.selected_retention_provider_ids.len()
            &&& daemons_of_first_handles(retention_provider_handles@, plan.selected_retention_provider_ids.deep_view(), selected.daemons@)
        }),
{
    let ghost ids = handle_ids(retention_provider_handles@);
    let ghost c = candidate_ids(preflight.retention_provider_candidates@);
    let ghost st = preflight.before_health.provider_health.stale_online_provider_ids.deep_view();
    let ghost off = preflight.before_health.provider_health.offline_provider_ids.deep_view();
    let mut selected_ids: Vec<String> = Vec::new();
    let mut stale_ids: Vec<String> = Vec::new();
    let mut offline_ids: Vec<String> = Vec::new();
    let mut undiscovered_ids: Vec<String> = Vec::new();
    let mut duplicate_ids: Vec<String> = Vec::new();
    let mut daemons: Vec<&'a D> = Vec::new();
    let ghost mut origins: Seq<int> = Seq::empty();
    let mut i: usize = 0;
    while i < retention_provider_handles.len()
        invariant
            i <= retention_provider_handles.len(),
            ids == handle_ids(retention_provider_handles@),
            c == candidate_ids(preflight.retention_provider_candidates@),
            st == preflight.before_health.provider_health.stale_online_provider_ids.deep_view(),
            off == preflight.before_health.provider_health.offline_provider_ids.deep_view(),
            selected_ids.deep_view() == unique_ids(ids_in_class(ids.take(i as int), c, st, off, RetentionProviderClass::Candidate)),
            stale_ids.deep_view() == unique_ids(ids_in_class(ids.take(i as int), c, st, off, RetentionProviderClass::Stale)),
            offline_ids.deep_view() == unique_ids(ids_in_class(ids.take(i as int), c, st, off, RetentionProviderClass::Offline)),
            undiscovered_ids.deep_view() == unique_ids(ids_in_class(ids.take(i as int), c, st, off, RetentionProviderClass::Undiscovered)),
            duplicate_ids.deep_view() == unique_ids(repeated_candidate_ids(ids.take(i as int), c)),
            daemons.len() == selected_ids.len(),
            origins.len() == daemons.len(),
            forall|k: int| #![trigger origins[k]] 0 <= k < daemons.len() ==> {
                &&& 0 <= origins[k] < i
                &&& ids[origins[k]] == selected_ids.deep_view()[k]
                &&& daemons@[k] == retention_provider_handles@[origins[k]].daemon
                &&& forall|j: int| 0 <= j < origins[k] ==> #[trigger] ids[j] != ids[origins[k]]
            },
        decreases retention_provider_handles.len() - i,
    {
        let handle = &retention_provider_handles[i];
        let id = handle.provider_id;
        let ghost old_daemons = daemons@;
        let ghost old_selected = selected_ids.deep_view();
        let ghost old_origins = origins;
        let ghost prefix = ids.take(i as int);
        let ghost next = ids.take(i + 1);
        proof {
            assert(next.drop_last() =~= prefix);
            assert(next.last() == id@);
            assert(ids[i as int] == id@);
            lemma_unique_push(ids_in_class(prefix, c, st, off, RetentionProviderClass::Candidate), id@);
            lemma_unique_push(ids_in_class(prefix, c, st, off, RetentionProviderClass::Stale), id@);
            lemma_unique_push(ids_in_class(prefix, c, st, off, RetentionProviderClass::Offline), id@);
            lemma_unique_push(ids_in_class(prefix, c, st, off, RetentionProviderClass::Undiscovered), id@);
            lemma_unique_push(repeated_candidate_ids(prefix, c), id@);
        }
        let is_candidate = provider_listed(&preflight.retention_provider_candidates, id);
        if !is_candidate {
            if contains_string(&preflight.before_health.provider_health.stale_online_provider_ids, id) {
                push_unique_object_id(&mut stale_ids, id);
            } else if contains_string(&preflight.before_health.provider_health.offline_provider_ids, id) {
                push_unique_object_id(&mut offline_ids, id);
            } else {
                push_unique_object_id(&mut undiscovered_ids, id);
            }
        } else {
            proof {
                lemma_unique_ids(ids_in_class(prefix, c, st, off, RetentionProviderClass::Candidate));
                lemma_ids_in_class_contains(prefix, c, st, off, RetentionProviderClass::Candidate, id@);
            }
            if contains_string(&selected_ids, id) {
                push_unique_object_id(&mut duplicate_ids, id);
            } else {
                push_unique_object_id(&mut selected_ids, id);
                daemons.push(handle.daemon);
                proof {
                    assert(!prefix.contains(id@));
                    assert forall|j: int| 0 <= j < i implies ids[j] != ids[i as int] by {
                        assert(prefix[j] == ids[j]);
                    }
                    origins = origins.push(i as int);
                }
            }
        }
        proof {
            assert forall|k: int| #![trigger origins[k]] 0 <= k < daemons.len() implies {
                &&& 0 <= origins[k] < i + 1
                &&& ids[origins[k]] == selected_ids.deep_view()[k]
                &&& daemons@[k] == retention_provider_handles@[origins[k]].daemon
                &&& forall|j: int| 0 <= j < origins[k] ==> #[trigger] ids[j] != ids[origins[k]]
            } by {
                if k < old_daemons.len() {
                    assert(daemons@[k] == old_daemons[k]);
                    assert(selected_ids.deep_view()[k] == old_selected[k]);
                    assert(origins[k] == old_origins[k]);
                }
            }
        }
        i = i + 1;
    }
    proof {
        assert(ids.take(i as int) =~= ids);
        assert forall|k: int| #![trigger daemons@[k]] 0 <= k < daemons.len() implies exists|i0: int| {
            &&& 0 <= i0 < retention_provider_handles.len()
            &&& #[trigger] ids[i0] == selected_ids.deep_view()[k]
            &&& daemons@[k] == retention_provider_handles@[i0].daemon
            &&& forall|j: int| 0 <= j < i0 ==> ids[j] != ids[i0]
        } by {
            let i0 = origins[k];
            assert(ids[i0] == selected_ids.deep_view()[k]);
        }
    }
    let selected = SelectedSettingsSyncRetentionProviders {
        plan: SettingsSyncScheduledCyclePlan {
            preflight,
            selected_retention_provider_ids: selected_ids,
            stale_retention_provider_ids: stale_ids,
            offline_retention_provider_ids: offline_ids,
            undiscovered_retention_provider_ids: undiscovered_ids,
            duplicate_retention_provider_ids: duplicate_ids,
        },
        daemons,
    };
    proof {
        let hs = retention_provider_handles@;
        let sel = selected.plan.selected_retention_provider_ids.deep_view();
        let ds = selected.daemons@;
        assert forall|k: int| 0 <= k < ds.len() implies 0 <= #[trigger] first_index(handle_ids(hs), sel[k]) < hs.len()
            && ds[k] == hs[first_index(handle_ids(hs), sel[k])].daemon by {
            let o = origins[k];
            assert forall|j: int| 0 <= j < o implies handle_ids(hs)[j] != sel[k] by {
                assert(ids[j] != ids[o]);
            }
            lemma_first_index_from(handle_ids(hs), sel[k], 0, o);
        }
        assert(daemons_of_first_handles(hs, sel, ds));
    }
    selected
}

/// Whether a discovered provider has the id `id`.
fn provider_listed(providers: &Vec<ProfileSyncProviderRecord>, id: &str) -> (listed: bool)
    ensures
        listed == candidate_ids(providers@).contains(id@),
{
    let mut i: usize = 0;
    while i < providers.len()
        invariant
            i <= providers.len(),
            forall|j: int| 0 <= j < i ==> providers@[j].provider_id@ != id@,
        decreases providers.len() - i,
    {
        if crate::text::str_equal(providers[i].provider_id.as_str(), id) {
            assert(candidate_ids(providers@)[i as int] == id@);
            return true;
        }
        i = i + 1;
    }
    proof {
        if candidate_ids(providers@).contains(id@) {
            let j = choose|j: int| 0 <= j < providers.len() && candidate_ids(providers@)[j] == id@;
            assert(providers@[j].provider_id@ != id@);
        }
    }
    false
}


impl SettingsSyncScheduledCyclePlan {
    /// The number of discovered retention-provider candidates.
    pub fn retention_candidate_count(&self) -> (count: usize)
        ensures
            count == self.preflight.retention_provider_candidates@.len(),
    {
        self.preflight.retention_provider_candidates.len()
    }

    /// The number of selected retention providers.
    pub fn selected_retention_provider_count(&self) -> (count: usize)
        ensures
            count == self.selected_retention_provider_ids@.len(),
    {
        self.selected_retention_provider_ids.len()
    }

    /// The number of offered providers that are stale.
    pub fn stale_retention_provider_count(&self) -> (count: usize)
        ensures
            count == self.stale_retention_provider_ids@.len(),
    {
        self.stale_retention_provider_ids.len()
    }

    /// The number of offered providers that are offline.
    pub fn offline_retention_provider_count(&self) -> (count: usize)
        ensures
            count == self.offline_retention_provider_ids@.len(),
    {
        self.offline_retention_provider_ids.len()
    }

    /// The number of offered providers that were not discovered.
    pub fn undiscovered_retention_provider_count(&self) -> (count: usize)
        ensures
            count == self.undiscovered_retention_provider_ids@.len(),
    {
        self.undiscovered_retention_provider_ids.len()
    }

    /// The number of repeated offers of selected providers.
    pub fn duplicate_retention_provider_count(&self) -> (count: usize)
        ensures
            count == self.duplicate_retention_provider_ids@.len(),
    {
        self.duplicate_retention_provider_ids.len()
    }

    /// Whether the profile was degraded before the cycle.
    pub fn degraded_before(&self) -> (degraded: bool)
        ensures
            degraded == report_degraded(self.preflight.before_health),
    {
        self.preflight.before_health.degraded()
    }
}

/// Checks a provider selection against the policy before the cycle runs: no selected
/// provider may be stale, then none offline, then enough must be selected. The policy's
/// refusal carries the health before the cycle.
pub fn check_scheduled_retention_selection<R>(
    policy: &SettingsSyncCyclePolicy<R>,
    plan: &SettingsSyncScheduledCyclePlan,
) -> (result: Result<(), ProfileSyncPolicyError>)
    ensures
        policy_result_is(
            result,
            first_failure(
                first_failure(
                    maximum_failure("stale selected retention providers"@, 0, plan.stale_retention_provider_ids@.len()),
                    maximum_failure("offline selected retention providers"@, 0, plan.offline_retention_provider_ids@.len()),
                ),
                minimum_failure("selected retention providers"@, policy.minimum_selected_spec(), plan.selected_retention_provider_ids@.len()),
            ),
            plan.preflight.before_health,
        ),
{
    match policy.check_selected_retention_provider_freshness(
        plan.stale_retention_provider_count(),
        plan.offline_retention_provider_count(),
        &plan.preflight.before_health,
    ) {
        Err(e) => { return Err(e); },
        Ok(()) => {},
    }
    policy.check_selected_retention_provider_count(plan.selected_retention_provider_count(), &plan.preflight.before_health)
}

/// What a scheduler checks and selects before a cycle: the membership log's publication plan
/// and the cycle's plan.
#[derive(Clone, Debug, PartialEq, Eq)]
pub struct SettingsSyncScheduledMembershipCyclePlan {
    pub membership_log_publication: ProfileSyncMembershipLogPublicationPlan,
    pub cycle: SettingsSyncScheduledCyclePlan,
}

impl SettingsSyncScheduledMembershipCyclePlan {
    /// The number of discovered retention-provider candidates.
    pub fn retention_candidate_count(&self) -> (count: usize)
        ensures
            count == self.cycle.preflight.retention_provider_candidates@.len(),
    {
        self.cycle.retention_candidate_count()
    }

    /// The number of selected retention providers.
    pub fn selected_retention_provider_count(&self) -> (count: usize)
        ensures
            count == self.cycle.selected_retention_provider_ids@.len(),
    {
        self.cycle.selected_retention_provider_count()
    }

    /// The number of offered providers that are stale.
    pub fn stale_retention_provider_count(&self) -> (count: usize)
        ensures
            count == self.cycle.stale_retention_provider_ids@.len(),
    {
        self.cycle.stale_retention_provider_count()
    }

    /// The number of offered providers that are offline.
    pub fn offline_retention_provider_count(&self) -> (count: usize)
        ensures
            count == self.cycle.offline_retention_provider_ids@.len(),
    {
        self.cycle.offline_retention_provider_count()
    }

    /// The number of offered providers that were not discovered.
    pub fn undiscovered_retention_provider_count(&self) -> (count: usize)
        ensures
            count == self.cycle.undiscovered_retention_provider_ids@.len(),
    {
        self.cycle.undiscovered_retention_provider_count()
    }

    /// The number of repeated offers of selected providers.
    pub fn duplicate_retention_provider_count(&self) -> (count: usize)
        ensures
            count == self.cycle.duplicate_retention_provider_ids@.len(),
    {
        self.cycle.duplicate_retention_provider_count()
    }

    /// Whether the profile was degraded before the cycle.
    pub fn degraded_before(&self) -> (degraded: bool)
        ensures
            degraded == report_degraded(self.cycle.preflight.before_health),
    {
        self.cycle.degraded_before()
    }
}

/// A scheduled cycle: its selection of retention providers and what it did.
#[derive(Clone, Debug, PartialEq, Eq)]
pub struct SettingsSyncScheduledCycleRun {
    pub preflight: SettingsSyncCyclePreflight,
    pub selected_retention_provider_ids: Vec<String>,
    pub stale_retention_provider_ids: Vec<String>,
    pub offline_retention_provider_ids: Vec<String>,
    pub undiscovered_retention_provider_ids: Vec<String>,
    pub duplicate_retention_provider_ids: Vec<String>,
    pub cycle: SettingsSyncCycleWithSharedRootRetentionRun,
}

impl SettingsSyncScheduledCycleRun {
    /// The number of selected retention providers.
    pub fn selected_retention_provider_count(&self) -> (count: usize)
        ensures
            count == self.selected_retention_provider_ids@.len(),
    {
        self.selected_retention_provider_ids.len()
    }

    /// The number of offered providers that were not discovered.
    pub fn undiscovered_retention_provider_count(&self) -> (count: usize)
        ensures
            count == self.undiscovered_retention_provider_ids@.len(),
    {
        self.undiscovered_retention_provider_ids.len()
    }

    /// The number of offered providers that are stale.
    pub fn stale_retention_provider_count(&self) -> (count: usize)
        ensures
            count == self.stale_retention_provider_ids@.len(),
    {
        self.stale_retention_provider_ids.len()
    }

    /// The number of offered providers that are offline.
    pub fn offline_retention_provider_count(&self) -> (count: usize)
        ensures
            count == self.offline_retention_provider_ids@.len(),
    {
        self.offline_retention_provider_ids.len()
    }

    /// The number of repeated offers of selected providers.
    pub fn duplicate_retention_provider_count(&self) -> (count: usize)
        ensures
            count == self.duplicate_retention_provider_ids@.len(),
    {
        self.duplicate_retention_provider_ids.len()
    }

    /// The number of providers that retained every one of a non-empty set of objects.
    pub fn retained_provider_count(&self) -> (count: usize)
        ensures
            count == fully_retained_in(self.cycle.retention@),
    {
        self.cycle.retained_provider_count()
    }

    /// Whether the profile was degraded before the cycle.
    pub fn degraded_before(&self) -> (degraded: bool)
        ensures
            degraded == report_degraded(self.cycle.before_health),
    {
        self.cycle.degraded_before()
    }

    /// Whether the profile was degraded after the cycle.
    pub fn degraded_after(&self) -> (degraded: bool)
        ensures
            degraded == report_degraded(self.cycle.after_health),
    {
        self.cycle.degraded_after()
    }
}

/// A scheduled cycle with a membership log: its selection of retention providers and what it
/// did.
#[derive(Clone, Debug, PartialEq, Eq)]
pub struct SettingsSyncScheduledMembershipCycleRun {
    pub preflight: SettingsSyncCyclePreflightWithMembershipLog,
    pub selected_retention_provider_ids: Vec<String>,
    pub stale_retention_provider_ids: Vec<String>,
    pub offline_retention_provider_ids: Vec<String>,
    pub undiscovered_retention_provider_ids: Vec<String>,
    pub duplicate_retention_provider_ids: Vec<String>,
    pub cycle: SettingsSyncCycleWithMembershipLogRetentionRun,
}

impl SettingsSyncScheduledMembershipCycleRun {
    /// The number of selected retention providers.
    pub fn selected_retention_provider_count(&self) -> (count: usize)
        ensures
            count == self.selected_retention_provider_ids@.len(),
    {
        self.selected_retention_provider_ids.len()
    }

    /// The number of offered providers that were not discovered.
    pub fn undiscovered_retention_provider_count(&self) -> (count: usize)
        ensures
            count == self.undiscovered_retention_provider_ids@.len(),
    {
        self.undiscovered_retention_provider_ids.len()
    }

    /// The number of offered providers that are stale.
    pub fn stale_retention_provider_count(&self) -> (count: usize)
        ensures
            count == self.stale_retention_provider_ids@.len(),
    {
        self.stale_retention_provider_ids.len()
    }

    /// The number of offered providers that are offline.
    pub fn offline_retention_provider_count(&self) -> (count: usize)
        ensures
            count == self.offline_retention_provider_ids@.len(),
    {
        self.offline_retention_provider_ids.len()
    }

    /// The number of repeated offers of selected providers.
    pub fn duplicate_retention_provider_count(&self) -> (count: usize)
        ensures
            count == self.duplicate_retention_provider_ids@.len(),
    {
        self.duplicate_retention_provider_ids.len()
    }

    /// The number of providers that retained every one of a non-empty set of objects.
    pub fn retained_provider_count(&self) -> (count: usize)
        ensures
            count == fully_retained_in(self.cycle.retention@),
    {
        self.cycle.retained_provider_count()
    }
}

/// What a scheduler runs: a profile's settings root under a cycle policy.
#[derive(Clone, Debug, PartialEq, Eq)]
pub struct SettingsSyncSchedulerConfig<R> {
    pub profile: String,
    pub settings_root_id: String,
    pub policy: SettingsSyncCyclePolicy<R>,
}

impl<R> SettingsSyncSchedulerConfig<R> {
    /// A scheduler configuration for `profile` and `settings_root_id` under `policy`.
    pub fn new(profile: &str, settings_root_id: &str, policy: SettingsSyncCyclePolicy<R>) -> (config: Self)
        ensures
            config.profile@ == profile@,
            config.settings_root_id@ == settings_root_id@,
            config.policy == policy,
    {
        SettingsSyncSchedulerConfig { profile: owned(profile), settings_root_id: owned(settings_root_id), policy }
    }
}


/// The selection sorts the offered provider ids into four duplicate-free lists: every offered
/// id is listed in the list of its class, and an id listed in a class was offered and belongs
/// to that class; so selected providers are discovered retention candidates, and no id is in
/// two lists.
pub proof fn lemma_retention_selection_partitions_offered_ids(
    ids: Seq<Seq<char>>,
    candidates: Seq<Seq<char>>,
    stale: Seq<Seq<char>>,
    offline: Seq<Seq<char>>,
)
    ensures
        forall|class: RetentionProviderClass| #[trigger] unique_ids(ids_in_class(ids, candidates, stale, offline, class)).no_duplicates(),
        forall|x: Seq<char>| ids.contains(x) ==> #[trigger] unique_ids(ids_in_class(ids, candidates, stale, offline, provider_class(candidates, stale, offline, x))).contains(x),
        forall|class: RetentionProviderClass, x: Seq<char>| #[trigger] unique_ids(ids_in_class(ids, candidates, stale, offline, class)).contains(x)
            ==> ids.contains(x) && provider_class(candidates, stale, offline, x) == class,
        forall|x: Seq<char>| #[trigger] unique_ids(ids_in_class(ids, candidates, stale, offline, RetentionProviderClass::Candidate)).contains(x)
            ==> candidates.contains(x),
{
    assert forall|class: RetentionProviderClass| #[trigger] unique_ids(ids_in_class(ids, candidates, stale, offline, class)).no_duplicates() by {
        lemma_unique_ids(ids_in_class(ids, candidates, stale, offline, class));
    }
    assert forall|x: Seq<char>| ids.contains(x) implies #[trigger] unique_ids(ids_in_class(ids, candidates, stale, offline, provider_class(candidates, stale, offline, x))).contains(x) by {
        let class = provider_class(candidates, stale, offline, x);
        lemma_unique_ids(ids_in_class(ids, candidates, stale, offline, class));
        lemma_ids_in_class_contains(ids, candidates, stale, offline, class, x);
    }
    assert forall|class: RetentionProviderClass, x: Seq<char>| #[trigger] unique_ids(ids_in_class(ids, candidates, stale, offline, class)).contains(x)
        implies ids.contains(x) && provider_class(candidates, stale, offline, x) == class by {
        lemma_unique_ids(ids_in_class(ids, candidates, stale, offline, class));
        lemma_ids_in_class_contains(ids, candidates, stale, offline, class, x);
    }
    assert forall|x: Seq<char>| #[trigger] unique_ids(ids_in_class(ids, candidates, stale, offline, RetentionProviderClass::Candidate)).contains(x)
        implies candidates.contains(x) by {
        lemma_unique_ids(ids_in_class(ids, candidates, stale, offline, RetentionProviderClass::Candidate));
        lemma_ids_in_class_contains(ids, candidates, stale, offline, RetentionProviderClass::Candidate, x);
    }
}

} // verus!
