//! Health reports of a profile's sync providers and roots, and the issues they list.
use vstd::prelude::*;
use crate::text::owned;

verus! {

/// Provider health of a profile, as the sync daemon reports it.
#[derive(Clone, Debug, PartialEq, Eq)]
pub struct ProfileSyncProviderHealth {
    pub profile: String,
    pub known_providers: usize,
    pub online_providers: usize,
    pub offline_providers: usize,
    pub fresh_online_providers: usize,
    pub stale_online_providers: usize,
    pub fresh_online_provider_ids: Vec<String>,
    pub stale_online_provider_ids: Vec<String>,
    pub offline_provider_ids: Vec<String>,
    pub minimum_provider_seen_sequence: u64,
    pub object_transfer_providers: usize,
    pub availability_providers: usize,
    pub mutable_root_providers: usize,
    pub retained_objects: usize,
    pub degraded: bool,
    pub message: String,
}

/// Health of one published root of a profile, as the sync daemon reports it.
#[derive(Clone, Debug, PartialEq, Eq)]
pub struct ProfileSyncRootHealth {
    pub profile: String,
    pub root_id: String,
    pub visible_candidates: usize,
    pub delayed_candidates: usize,
    pub delayed_publisher_provider_ids: Vec<String>,
    pub latest_object_id: Option<String>,
    pub latest_object_available: bool,
    pub latest_object_available_provider_ids: Vec<String>,
    pub latest_object_stale_provider_ids: Vec<String>,
    pub latest_object_offline_provider_ids: Vec<String>,
    pub delayed_object_provider_ids: Vec<String>,
    pub unavailable_retaining_provider_ids: Vec<String>,
    pub online_retaining_providers: usize,
    pub minimum_online_retaining_providers: usize,
    pub degraded: bool,
    pub message: String,
}

/// Health of the providers, the settings root, and the local device-head root of a profile.
#[derive(Clone, Debug, PartialEq, Eq)]
pub struct SettingsSyncHealthReport {
    pub profile: String,
    pub settings_root_id: String,
    pub local_device_head_root_id: String,
    pub provider_health: ProfileSyncProviderHealth,
    pub settings_root_health: ProfileSyncRootHealth,
    pub local_device_head_root_health: ProfileSyncRootHealth,
}

/// The part of a profile's sync setup that a health issue is about.
#[derive(Clone, Copy, Debug, PartialEq, Eq, Structural)]
pub enum SettingsSyncHealthIssueComponent {
    Providers,
    SettingsRoot,
    LocalDeviceHeadRoot,
}

/// A degraded component, with its root and the daemon's message.
#[derive(Clone, Debug, PartialEq, Eq)]
pub struct SettingsSyncHealthIssue {
    pub component: SettingsSyncHealthIssueComponent,
    pub root_id: Option<String>,
    pub message: String,
}

/// How a provider fails to serve the latest object of a root.
#[derive(Clone, Copy, Debug, PartialEq, Eq, Structural)]
pub enum SettingsSyncRootObjectProviderIssueKind {
    Delayed,
    Stale,
    Offline,
    RetainedUnavailable,
}

/// One provider that fails to serve the latest object of a root.
#[derive(Clone, Debug, PartialEq, Eq)]
pub struct SettingsSyncRootObjectProviderIssue {
    pub component: SettingsSyncHealthIssueComponent,
    pub root_id: String,
    pub object_id: Option<String>,
    pub provider_id: String,
    pub kind: SettingsSyncRootObjectProviderIssueKind,
}

impl DeepView for SettingsSyncHealthIssue {
    type V = (SettingsSyncHealthIssueComponent, Option<Seq<char>>, Seq<char>);

    open spec fn deep_view(&self) -> Self::V {
        (self.component, self.root_id.deep_view(), self.message@)
    }
}

impl DeepView for SettingsSyncRootObjectProviderIssue {
    type V = (SettingsSyncHealthIssueComponent, Seq<char>, Option<Seq<char>>, Seq<char>, SettingsSyncRootObjectProviderIssueKind);

    open spec fn deep_view(&self) -> Self::V {
        (self.component, self.root_id@, self.object_id.deep_view(), self.provider_id@, self.kind)
    }
}

/// A copy of an optional string.
pub fn copy_option_string(value: &Option<String>) -> (copy: Option<String>)
    ensures
        copy.deep_view() == value.deep_view(),
{
    match value {
        Some(s) => Some(s.clone()),
        None => None,
    }
}

/// A copy of a string list.
pub fn copy_strings(values: &Vec<String>) -> (copy: Vec<String>)
    ensures
        copy.deep_view() == values.deep_view(),
{
    let mut copy: Vec<String> = Vec::new();
    let mut i: usize = 0;
    while i < values.len()
        invariant
            i <= values.len(),
            copy.deep_view() == values.deep_view().take(i as int),
        decreases values.len() - i,
    {
        let item = values[i].clone();
        assert(item@ == values.deep_view()[i as int]);
        let ghost before = copy.deep_view();
        copy.push(item);
        assert(copy.deep_view() =~= before.push(item@));
        assert(copy.deep_view() =~= values.deep_view().take(i + 1));
        i = i + 1;
    }
    assert(values.deep_view().take(values.len() as int) =~= values.deep_view());
    copy
}

/// The issues a degraded component contributes: the providers first, then the settings root,
/// then the local device-head root.
pub open spec fn degradation_issues_spec(report: SettingsSyncHealthReport) -> Seq<(SettingsSyncHealthIssueComponent, Option<Seq<char>>, Seq<char>)> {
    let providers = if report.provider_health.degraded {
        seq![(SettingsSyncHealthIssueComponent::Providers, None, report.provider_health.message@)]
    } else {
        Seq::empty()
    };
    let settings = if report.settings_root_health.degraded {
        seq![(SettingsSyncHealthIssueComponent::SettingsRoot, Some(report.settings_root_id@), report.settings_root_health.message@)]
    } else {
        Seq::empty()
    };
    let head = if report.local_device_head_root_health.degraded {
        seq![(SettingsSyncHealthIssueComponent::LocalDeviceHeadRoot, Some(report.local_device_head_root_id@), report.local_device_head_root_health.message@)]
    } else {
        Seq::empty()
    };
    providers + settings + head
}

/// Where an issue of a report stands: providers first, then the settings root, then the local
/// device-head root.
pub open spec fn component_rank(component: SettingsSyncHealthIssueComponent) -> int {
    match component {
        SettingsSyncHealthIssueComponent::Providers => 0,
        SettingsSyncHealthIssueComponent::SettingsRoot => 1,
        SettingsSyncHealthIssueComponent::LocalDeviceHeadRoot => 2,
    }
}

/// Whether `issue` describes its component of `report`: the component is degraded, the issue
/// carries that component's message, and it names that component's root (none for providers).
pub open spec fn issue_describes_component(
    report: SettingsSyncHealthReport,
    issue: (SettingsSyncHealthIssueComponent, Option<Seq<char>>, Seq<char>),
) -> bool {
    match issue.0 {
        SettingsSyncHealthIssueComponent::Providers => report.provider_health.degraded && issue.1 is None
            && issue.2 == report.provider_health.message@,
        SettingsSyncHealthIssueComponent::SettingsRoot => report.settings_root_health.degraded
            && issue.1 == Some(report.settings_root_id@) && issue.2 == report.settings_root_health.message@,
        SettingsSyncHealthIssueComponent::LocalDeviceHeadRoot => report.local_device_head_root_health.degraded
            && issue.1 == Some(report.local_device_head_root_id@) && issue.2 == report.local_device_head_root_health.message@,
    }
}

/// A report lists one issue per degraded component and no other: each issue names its own
/// component's root and message, no component is listed twice, and as many issues are listed as
/// components are degraded.
pub proof fn lemma_degradation_issues_name_their_components(report: SettingsSyncHealthReport)
    ensures
        forall|k: int| 0 <= k < degradation_issues_spec(report).len()
            ==> issue_describes_component(report, #[trigger] degradation_issues_spec(report)[k]),
        forall|a: int, b: int| 0 <= a < b < degradation_issues_spec(report).len()
            ==> component_rank((#[trigger] degradation_issues_spec(report)[a]).0)
                < component_rank((#[trigger] degradation_issues_spec(report)[b]).0),
        degradation_issues_spec(report).len() == (if report.provider_health.degraded { 1int } else { 0int })
            + (if report.settings_root_health.degraded { 1int } else { 0int })
            + (if report.local_device_head_root_health.degraded { 1int } else { 0int }),
{
    let issues = degradation_issues_spec(report);
    assert forall|k: int| 0 <= k < issues.len() implies issue_describes_component(report, #[trigger] issues[k]) by {
    }
}

/// The issues for one kind: one per listed provider, in list order.
pub open spec fn provider_issues_spec(
    component: SettingsSyncHealthIssueComponent,
    root_id: Seq<char>,
    object_id: Option<Seq<char>>,
    kind: SettingsSyncRootObjectProviderIssueKind,
    provider_ids: Seq<Seq<char>>,
) -> Seq<(SettingsSyncHealthIssueComponent, Seq<char>, Option<Seq<char>>, Seq<char>, SettingsSyncRootObjectProviderIssueKind)> {
    provider_ids.map_values(|provider_id: Seq<char>| (component, root_id, object_id, provider_id, kind))
}

/// The issues of one root: delayed, then stale, then offline, then retained-but-unavailable
/// providers of its latest object.
pub open spec fn root_provider_issues_spec(
    component: SettingsSyncHealthIssueComponent,
    root_id: Seq<char>,
    health: ProfileSyncRootHealth,
) -> Seq<(SettingsSyncHealthIssueComponent, Seq<char>, Option<Seq<char>>, Seq<char>, SettingsSyncRootObjectProviderIssueKind)> {
    let object_id = health.latest_object_id.deep_view();
    provider_issues_spec(component, root_id, object_id, SettingsSyncRootObjectProviderIssueKind::Delayed, health.delayed_object_provider_ids.deep_view())
        + provider_issues_spec(component, root_id, object_id, SettingsSyncRootObjectProviderIssueKind::Stale, health.latest_object_stale_provider_ids.deep_view())
        + provider_issues_spec(component, root_id, object_id, SettingsSyncRootObjectProviderIssueKind::Offline, health.latest_object_offline_provider_ids.deep_view())
        + provider_issues_spec(component, root_id, object_id, SettingsSyncRootObjectProviderIssueKind::RetainedUnavailable, health.unavailable_retaining_provider_ids.deep_view())
}

/// The issues of the settings root, then those of the local device-head root.
pub open spec fn root_object_provider_issues_spec(report: SettingsSyncHealthReport) -> Seq<(SettingsSyncHealthIssueComponent, Seq<char>, Option<Seq<char>>, Seq<char>, SettingsSyncRootObjectProviderIssueKind)> {
    root_provider_issues_spec(SettingsSyncHealthIssueComponent::SettingsRoot, report.settings_root_id@, report.settings_root_health)
        + root_provider_issues_spec(SettingsSyncHealthIssueComponent::LocalDeviceHeadRoot, report.local_device_head_root_id@, report.local_device_head_root_health)
}

/// Whether any component of a report is degraded.
pub open spec fn report_degraded(report: SettingsSyncHealthReport) -> bool {
    report.provider_health.degraded || report.settings_root_health.degraded || report.local_device_head_root_health.degraded
}

/// Appends one issue per provider in `provider_ids`, all for the same root, object and kind.
pub fn append_settings_sync_root_object_provider_issue_kind(
    issues: &mut Vec<SettingsSyncRootObjectProviderIssue>,
    component: SettingsSyncHealthIssueComponent,
    root_id: &str,
    object_id: Option<String>,
    kind: SettingsSyncRootObjectProviderIssueKind,
    provider_ids: &[String],
)
    ensures
        final(issues).deep_view() == old(issues).deep_view()
            + provider_issues_spec(component, root_id@, object_id.deep_view(), kind, provider_ids.deep_view()),
{
    let ghost start = issues.deep_view();
    let ghost all = provider_issues_spec(component, root_id@, object_id.deep_view(), kind, provider_ids.deep_view());
    let mut i: usize = 0;
    while i < provider_ids.len()
        invariant
            i <= provider_ids.len(),
            all == provider_issues_spec(component, root_id@, object_id.deep_view(), kind, provider_ids.deep_view()),
            issues.deep_view() == start + all.take(i as int),
        decreases provider_ids.len() - i,
    {
        let issue = SettingsSyncRootObjectProviderIssue {
            component,
            root_id: owned(root_id),
            object_id: copy_option_string(&object_id),
            provider_id: provider_ids[i].clone(),
            kind,
        };
        assert(issue.deep_view() == all[i as int]);
        let ghost before = issues.deep_view();
        issues.push(issue);
        assert(issues.deep_view() =~= before.push(issue.deep_view()));
        assert(issues.deep_view() =~= start + all.take(i + 1));
        i = i + 1;
    }
    assert(all.take(provider_ids.len() as int) =~= all);
}

/// Appends the issues of one root: delayed, stale, offline, then retained-but-unavailable
/// providers of its latest object.
pub fn append_settings_sync_root_object_provider_issues(
    issues: &mut Vec<SettingsSyncRootObjectProviderIssue>,
    component: SettingsSyncHealthIssueComponent,
    root_id: &str,
    health: &ProfileSyncRootHealth,
)
    ensures
        final(issues).deep_view() == old(issues).deep_view() + root_provider_issues_spec(component, root_id@, *health),
{
    let ghost start = issues.deep_view();
    append_settings_sync_root_object_provider_issue_kind(
        issues,
        component,
        root_id,
        copy_option_string(&health.latest_object_id),
        SettingsSyncRootObjectProviderIssueKind::Delayed,
        health.delayed_object_provider_ids.as_slice(),
    );
    append_settings_sync_root_object_provider_issue_kind(
        issues,
        component,
        root_id,
        copy_option_string(&health.latest_object_id),
        SettingsSyncRootObjectProviderIssueKind::Stale,
        health.latest_object_stale_provider_ids.as_slice(),
    );
    append_settings_sync_root_object_provider_issue_kind(
        issues,
        component,
        root_id,
        copy_option_string(&health.latest_object_id),
        SettingsSyncRootObjectProviderIssueKind::Offline,
        health.latest_object_offline_provider_ids.as_slice(),
    );
    append_settings_sync_root_object_provider_issue_kind(
        issues,
        component,
        root_id,
        copy_option_string(&health.latest_object_id),
        SettingsSyncRootObjectProviderIssueKind::RetainedUnavailable,
        health.unavailable_retaining_provider_ids.as_slice(),
    );
    assert(issues.deep_view() =~= start + root_provider_issues_spec(component, root_id@, *health));
}

impl SettingsSyncHealthReport {
    /// Whether the providers or either root are degraded.
    pub fn degraded(&self) -> (degraded: bool)
        ensures
            degraded == report_degraded(*self),
    {
        self.provider_health.degraded || self.settings_root_health.degraded
            || self.local_device_head_root_health.degraded
    }

    /// Whether nothing is degraded.
    pub fn healthy(&self) -> (healthy: bool)
        ensures
            healthy == !report_degraded(*self),
    {
        !self.degraded()
    }

    /// Whether the providers are degraded.
    pub fn provider_degraded(&self) -> (degraded: bool)
        ensures
            degraded == self.provider_health.degraded,
    {
        self.provider_health.degraded
    }

    /// Whether the settings root is degraded.
    pub fn settings_root_degraded(&self) -> (degraded: bool)
        ensures
            degraded == self.settings_root_health.degraded,
    {
        self.settings_root_health.degraded
    }

    /// Whether the local device-head root is degraded.
    pub fn local_device_head_root_degraded(&self) -> (degraded: bool)
        ensures
            degraded == self.local_device_head_root_health.degraded,
    {
        self.local_device_head_root_health.degraded
    }

    /// How many of the two roots are degraded.
    pub fn degraded_root_count(&self) -> (count: usize)
        ensures
            count == (if self.settings_root_health.degraded { 1usize } else { 0usize })
                + (if self.local_device_head_root_health.degraded { 1usize } else { 0usize }),
    {
        let settings: usize = if self.settings_root_degraded() { 1 } else { 0 };
        let head: usize = if self.local_device_head_root_degraded() { 1 } else { 0 };
        settings + head
    }

    /// One issue per degraded component: providers, settings root, local device-head root.
    pub fn degradation_issues(&self) -> (issues: Vec<SettingsSyncHealthIssue>)
        ensures
            issues.deep_view() == degradation_issues_spec(*self),
    {
        let mut issues: Vec<SettingsSyncHealthIssue> = Vec::new();
        if self.provider_degraded() {
            issues.push(SettingsSyncHealthIssue {
                component: SettingsSyncHealthIssueComponent::Providers,
                root_id: None,
                message: self.provider_health.message.clone(),
            });
        }
        let ghost after_providers = issues.deep_view();
        if self.settings_root_degraded() {
            issues.push(SettingsSyncHealthIssue {
                component: SettingsSyncHealthIssueComponent::SettingsRoot,
                root_id: Some(self.settings_root_id.clone()),
                message: self.settings_root_health.message.clone(),
            });
        }
        let ghost after_settings = issues.deep_view();
        if self.local_device_head_root_degraded() {
            issues.push(SettingsSyncHealthIssue {
                component: SettingsSyncHealthIssueComponent::LocalDeviceHeadRoot,
                root_id: Some(self.local_device_head_root_id.clone()),
                message: self.local_device_head_root_health.message.clone(),
            });
        }
        assert(issues.deep_view() =~= degradation_issues_spec(*self));
        issues
    }

    /// The number of degraded components.
    pub fn degradation_issue_count(&self) -> (count: usize)
        ensures
            count == degradation_issues_spec(*self).len(),
            count == (if self.provider_health.degraded { 1int } else { 0int }) + self.degraded_root_count_spec(),
            (count > 0) == report_degraded(*self),
    {
        self.degradation_issues().len()
    }

    /// How many of the two roots are degraded.
    pub open spec fn degraded_root_count_spec(&self) -> int {
        (if self.settings_root_health.degraded { 1int } else { 0int })
            + (if self.local_device_head_root_health.degraded { 1int } else { 0int })
    }

    /// One issue per provider that fails to serve the latest object of the settings root or of
    /// the local device-head root.
    pub fn root_object_provider_issues(&self) -> (issues: Vec<SettingsSyncRootObjectProviderIssue>)
        ensures
            issues.deep_view() == root_object_provider_issues_spec(*self),
    {
        let mut issues: Vec<SettingsSyncRootObjectProviderIssue> = Vec::new();
        append_settings_sync_root_object_provider_issues(
            &mut issues,
            SettingsSyncHealthIssueComponent::SettingsRoot,
            self.settings_root_id.as_str(),
            &self.settings_root_health,
        );
        append_settings_sync_root_object_provider_issues(
            &mut issues,
            SettingsSyncHealthIssueComponent::LocalDeviceHeadRoot,
            self.local_device_head_root_id.as_str(),
            &self.local_device_head_root_health,
        );
        assert(issues.deep_view() =~= root_object_provider_issues_spec(*self));
        issues
    }

    /// The number of root-object provider issues: the total length of the delayed, stale,
    /// offline and retained-but-unavailable provider lists of both roots.
    pub fn root_object_provider_issue_count(&self) -> (count: usize)
        ensures
            count == root_object_provider_issues_spec(*self).len(),
            count == self.settings_root_health.delayed_object_provider_ids.len()
                + self.settings_root_health.latest_object_stale_provider_ids.len()
                + self.settings_root_health.latest_object_offline_provider_ids.len()
                + self.settings_root_health.unavailable_retaining_provider_ids.len()
                + self.local_device_head_root_health.delayed_object_provider_ids.len()
                + self.local_device_head_root_health.latest_object_stale_provider_ids.len()
                + self.local_device_head_root_health.latest_object_offline_provider_ids.len()
                + self.local_device_head_root_health.unavailable_retaining_provider_ids.len(),
    {
        let issues = self.root_object_provider_issues();
        assert(issues.deep_view().len() == issues.len());
        issues.len()
    }
}


/// Two provider-health values hold the same data.
pub open spec fn same_provider_health(a: ProfileSyncProviderHealth, b: ProfileSyncProviderHealth) -> bool {
    &&& a.profile@ == b.profile@
    &&& a.known_providers == b.known_providers
    &&& a.online_providers == b.online_providers
    &&& a.offline_providers == b.offline_providers
    &&& a.fresh_online_providers == b.fresh_online_providers
    &&& a.stale_online_providers == b.stale_online_providers
    &&& a.fresh_online_provider_ids.deep_view() == b.fresh_online_provider_ids.deep_view()
    &&& a.stale_online_provider_ids.deep_view() == b.stale_online_provider_ids.deep_view()
    &&& a.offline_provider_ids.deep_view() == b.offline_provider_ids.deep_view()
    &&& a.minimum_provider_seen_sequence == b.minimum_provider_seen_sequence
    &&& a.object_transfer_providers == b.object_transfer_providers
    &&& a.availability_providers == b.availability_providers
    &&& a.mutable_root_providers == b.mutable_root_providers
    &&& a.retained_objects == b.retained_objects
    &&& a.degraded == b.degraded
    &&& a.message@ == b.message@
}

/// Two root-health values hold the same data.
pub open spec fn same_root_health(a: ProfileSyncRootHealth, b: ProfileSyncRootHealth) -> bool {
    &&& a.profile@ == b.profile@
    &&& a.root_id@ == b.root_id@
    &&& a.visible_candidates == b.visible_candidates
    &&& a.delayed_candidates == b.delayed_candidates
    &&& a.delayed_publisher_provider_ids.deep_view() == b.delayed_publisher_provider_ids.deep_view()
    &&& a.latest_object_id.deep_view() == b.latest_object_id.deep_view()
    &&& a.latest_object_available == b.latest_object_available
    &&& a.latest_object_available_provider_ids.deep_view() == b.latest_object_available_provider_ids.deep_view()
    &&& a.latest_object_stale_provider_ids.deep_view() == b.latest_object_stale_provider_ids.deep_view()
    &&& a.latest_object_offline_provider_ids.deep_view() == b.latest_object_offline_provider_ids.deep_view()
    &&& a.delayed_object_provider_ids.deep_view() == b.delayed_object_provider_ids.deep_view()
    &&& a.unavailable_retaining_provider_ids.deep_view() == b.unavailable_retaining_provider_ids.deep_view()
    &&& a.online_retaining_providers == b.online_retaining_providers
    &&& a.minimum_online_retaining_providers == b.minimum_online_retaining_providers
    &&& a.degraded == b.degraded
    &&& a.message@ == b.message@
}

/// Two health reports hold the same data.
pub open spec fn same_health_report(a: SettingsSyncHealthReport, b: SettingsSyncHealthReport) -> bool {
    &&& a.profile@ == b.profile@
    &&& a.settings_root_id@ == b.settings_root_id@
    &&& a.local_device_head_root_id@ == b.local_device_head_root_id@
    &&& same_provider_health(a.provider_health, b.provider_health)
    &&& same_root_health(a.settings_root_health, b.settings_root_health)
    &&& same_root_health(a.local_device_head_root_health, b.local_device_head_root_health)
}

impl ProfileSyncProviderHealth {
    /// A copy holding the same data.
    pub fn duplicate(&self) -> (copy: Self)
        ensures
            same_provider_health(copy, *self),
    {
        ProfileSyncProviderHealth {
            profile: self.profile.clone(),
            known_providers: self.known_providers,
            online_providers: self.online_providers,
            offline_providers: self.offline_providers,
            fresh_online_providers: self.fresh_online_providers,
            stale_online_providers: self.stale_online_providers,
            fresh_online_provider_ids: copy_strings(&self.fresh_online_provider_ids),
            stale_online_provider_ids: copy_strings(&self.stale_online_provider_ids),
            offline_provider_ids: copy_strings(&self.offline_provider_ids),
            minimum_provider_seen_sequence: self.minimum_provider_seen_sequence,
            object_transfer_providers: self.object_transfer_providers,
            availability_providers: self.availability_providers,
            mutable_root_providers: self.mutable_root_providers,
            retained_objects: self.retained_objects,
            degraded: self.degraded,
            message: self.message.clone(),
        }
    }
}

impl ProfileSyncRootHealth {
    /// A copy holding the same data.
    pub fn duplicate(&self) -> (copy: Self)
        ensures
            same_root_health(copy, *self),
    {
        ProfileSyncRootHealth {
            profile: self.profile.clone(),
            root_id: self.root_id.clone(),
            visible_candidates: self.visible_candidates,
            delayed_candidates: self.delayed_candidates,
            delayed_publisher_provider_ids: copy_strings(&self.delayed_publisher_provider_ids),
            latest_object_id: copy_option_string(&self.latest_object_id),
            latest_object_available: self.latest_object_available,
            latest_object_available_provider_ids: copy_strings(&self.latest_object_available_provider_ids),
            latest_object_stale_provider_ids: copy_strings(&self.latest_object_stale_provider_ids),
            latest_object_offline_provider_ids: copy_strings(&self.latest_object_offline_provider_ids),
            delayed_object_provider_ids: copy_strings(&self.delayed_object_provider_ids),
            unavailable_retaining_provider_ids: copy_strings(&self.unavailable_retaining_provider_ids),
            online_retaining_providers: self.online_retaining_providers,
            minimum_online_retaining_providers: self.minimum_online_retaining_providers,
            degraded: self.degraded,
            message: self.message.clone(),
        }
    }
}

impl SettingsSyncHealthReport {
    /// A copy holding the same data.
    pub fn duplicate(&self) -> (copy: Self)
        ensures
            same_health_report(copy, *self),
    {
        SettingsSyncHealthReport {
            profile: self.profile.clone(),
            settings_root_id: self.settings_root_id.clone(),
            local_device_head_root_id: self.local_device_head_root_id.clone(),
            provider_health: self.provider_health.duplicate(),
            settings_root_health: self.settings_root_health.duplicate(),
            local_device_head_root_health: self.local_device_head_root_health.duplicate(),
        }
    }
}

} // verus!
