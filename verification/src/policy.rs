//! Health policy of a settings sync cycle: what must hold before and after a cycle runs.
use vstd::prelude::*;
use crate::health::{SettingsSyncHealthReport, same_health_report};
use crate::text::{append_decimal_usize, append_str, decimal, owned};

verus! {

/// A cycle refused by the health policy.
#[derive(Clone, Debug, PartialEq, Eq)]
pub enum ProfileSyncPolicyError {
    ProviderHealthDegraded {
        health: SettingsSyncHealthReport,
    },
    RootHealthDegraded {
        root_kind: &'static str,
        health: SettingsSyncHealthReport,
    },
    ProviderMinimumUnmet {
        provider_role: &'static str,
        minimum: usize,
        actual: usize,
        health: SettingsSyncHealthReport,
    },
    ProviderMaximumExceeded {
        provider_role: &'static str,
        maximum: usize,
        actual: usize,
        health: SettingsSyncHealthReport,
    },
}

/// What a policy refusal says, without the health report it carries.
pub enum PolicyFailure {
    ProviderHealthDegraded,
    RootHealthDegraded { root_kind: Seq<char> },
    ProviderMinimumUnmet { provider_role: Seq<char>, minimum: nat, actual: nat },
    ProviderMaximumExceeded { provider_role: Seq<char>, maximum: nat, actual: nat },
}

impl ProfileSyncPolicyError {
    /// What this refusal says, without its health report.
    pub open spec fn failure(self) -> PolicyFailure {
        match self {
            ProfileSyncPolicyError::ProviderHealthDegraded { .. } => PolicyFailure::ProviderHealthDegraded,
            ProfileSyncPolicyError::RootHealthDegraded { root_kind, .. } => PolicyFailure::RootHealthDegraded {
                root_kind: root_kind@,
            },
            ProfileSyncPolicyError::ProviderMinimumUnmet { provider_role, minimum, actual, .. } =>
                PolicyFailure::ProviderMinimumUnmet {
                    provider_role: provider_role@,
                    minimum: minimum as nat,
                    actual: actual as nat,
                },
            ProfileSyncPolicyError::ProviderMaximumExceeded { provider_role, maximum, actual, .. } =>
                PolicyFailure::ProviderMaximumExceeded {
                    provider_role: provider_role@,
                    maximum: maximum as nat,
                    actual: actual as nat,
                },
        }
    }

    /// The health report this refusal carries.
    pub open spec fn health_spec(self) -> SettingsSyncHealthReport {
        match self {
            ProfileSyncPolicyError::ProviderHealthDegraded { health } => health,
            ProfileSyncPolicyError::RootHealthDegraded { health, .. } => health,
            ProfileSyncPolicyError::ProviderMinimumUnmet { health, .. } => health,
            ProfileSyncPolicyError::ProviderMaximumExceeded { health, .. } => health,
        }
    }

    /// The human-readable text of this refusal.
    pub open spec fn message_spec(self) -> Seq<char> {
        let profile = self.health_spec().profile@;
        match self {
            ProfileSyncPolicyError::ProviderHealthDegraded { health } =>
                "profile "@ + profile + " provider health is degraded: "@ + health.provider_health.message@,
            ProfileSyncPolicyError::RootHealthDegraded { root_kind, .. } =>
                "profile "@ + profile + " "@ + root_kind@ + " health is degraded"@,
            ProfileSyncPolicyError::ProviderMinimumUnmet { provider_role, minimum, actual, .. } =>
                "profile "@ + profile + " requires at least "@ + decimal(minimum as nat) + " "@ + provider_role@
                    + ", but health reported "@ + decimal(actual as nat),
            ProfileSyncPolicyError::ProviderMaximumExceeded { provider_role, maximum, actual, .. } =>
                "profile "@ + profile + " allows at most "@ + decimal(maximum as nat) + " "@ + provider_role@
                    + ", but health reported "@ + decimal(actual as nat),
        }
    }

    /// The human-readable text of this refusal.
    pub fn message(&self) -> (message: String)
        ensures
            message@ == self.message_spec(),
    {
        match self {
            ProfileSyncPolicyError::ProviderHealthDegraded { health } => {
                let mut m = owned("profile ");
                append_str(&mut m, health.profile.as_str());
                append_str(&mut m, " provider health is degraded: ");
                append_str(&mut m, health.provider_health.message.as_str());
                m
            },
            ProfileSyncPolicyError::RootHealthDegraded { root_kind, health } => {
                let mut m = owned("profile ");
                append_str(&mut m, health.profile.as_str());
                append_str(&mut m, " ");
                append_str(&mut m, root_kind);
                append_str(&mut m, " health is degraded");
                m
            },
            ProfileSyncPolicyError::ProviderMinimumUnmet { provider_role, minimum, actual, health } => {
                let mut m = owned("profile ");
                append_str(&mut m, health.profile.as_str());
                append_str(&mut m, " requires at least ");
                append_decimal_usize(&mut m, *minimum);
                append_str(&mut m, " ");
                append_str(&mut m, provider_role);
                append_str(&mut m, ", but health reported ");
                append_decimal_usize(&mut m, *actual);
                m
            },
            ProfileSyncPolicyError::ProviderMaximumExceeded { provider_role, maximum, actual, health } => {
                let mut m = owned("profile ");
                append_str(&mut m, health.profile.as_str());
                append_str(&mut m, " allows at most ");
                append_decimal_usize(&mut m, *maximum);
                append_str(&mut m, " ");
                append_str(&mut m, provider_role);
                append_str(&mut m, ", but health reported ");
                append_decimal_usize(&mut m, *actual);
                m
            },
        }
    }
}

/// Health requirements of a settings sync cycle; `R` is the retention policy handed to publishing.
#[derive(Clone, Debug, PartialEq, Eq)]
pub struct SettingsSyncCyclePolicy<R> {
    pub retention_policy: R,
    pub max_publish_steps: u32,
    pub max_trusted_devices: u32,
    pub minimum_fresh_online_providers: usize,
    pub minimum_object_transfer_providers: usize,
    pub minimum_availability_providers: usize,
    pub minimum_mutable_root_providers: usize,
    pub minimum_online_retaining_providers: usize,
    pub maximum_stale_online_providers: Option<usize>,
    pub maximum_offline_providers: Option<usize>,
    pub require_healthy_providers: bool,
    pub require_healthy_roots_after_cycle: bool,
    pub require_healthy_settings_root_after_cycle: bool,
    pub require_healthy_local_device_head_root_after_cycle: bool,
}

/// The refusal a minimum check gives, if any.
pub open spec fn minimum_failure(role: Seq<char>, minimum: nat, actual: nat) -> Option<PolicyFailure> {
    if actual < minimum {
        Some(PolicyFailure::ProviderMinimumUnmet { provider_role: role, minimum, actual })
    } else {
        None
    }
}

/// The refusal a maximum check gives, if any.
pub open spec fn maximum_failure(role: Seq<char>, maximum: nat, actual: nat) -> Option<PolicyFailure> {
    if actual > maximum {
        Some(PolicyFailure::ProviderMaximumExceeded { provider_role: role, maximum, actual })
    } else {
        None
    }
}

/// The first of two checks that fails.
pub open spec fn first_failure(a: Option<PolicyFailure>, b: Option<PolicyFailure>) -> Option<PolicyFailure> {
    if a is Some {
        a
    } else {
        b
    }
}

/// Whether a result reports `failure` (or success when there is none) and carries a copy of
/// `health` when it fails.
pub open spec fn policy_result_is(
    result: Result<(), ProfileSyncPolicyError>,
    failure: Option<PolicyFailure>,
    health: SettingsSyncHealthReport,
) -> bool {
    match result {
        Ok(()) => failure is None,
        Err(e) => failure == Some(e.failure()) && same_health_report(e.health_spec(), health),
    }
}

impl<R> SettingsSyncCyclePolicy<R> {
    /// The refusal the pre-cycle check gives, if any: degraded providers, then too few fresh
    /// online, object-transfer, availability or mutable-root providers, then too many stale or
    /// offline providers, each against its configured bound; nothing when provider health is
    /// not required.
    pub open spec fn before_cycle_failure(self, health: SettingsSyncHealthReport) -> Option<PolicyFailure> {
        let ph = health.provider_health;
        if !self.require_healthy_providers {
            None
        } else if ph.degraded {
            Some(PolicyFailure::ProviderHealthDegraded)
        } else {
            first_failure(
                minimum_failure("fresh online providers"@, self.minimum_fresh_online_providers as nat, ph.fresh_online_providers as nat),
            first_failure(
                minimum_failure("object-transfer providers"@, self.minimum_object_transfer_providers as nat, ph.object_transfer_providers as nat),
            first_failure(
                minimum_failure("availability providers"@, self.minimum_availability_providers as nat, ph.availability_providers as nat),
            first_failure(
                minimum_failure("mutable-root providers"@, self.minimum_mutable_root_providers as nat, ph.mutable_root_providers as nat),
            first_failure(
                match self.maximum_stale_online_providers {
                    Some(maximum) => maximum_failure("stale online providers"@, maximum as nat, ph.stale_online_providers as nat),
                    None => None,
                },
                match self.maximum_offline_providers {
                    Some(maximum) => maximum_failure("offline providers"@, maximum as nat, ph.offline_providers as nat),
                    None => None,
                },
            )))))
        }
    }

    /// The refusal the post-cycle check gives, if any: a degraded settings root, then a
    /// degraded local device-head root, each only when required.
    pub open spec fn after_cycle_failure(self, health: SettingsSyncHealthReport) -> Option<PolicyFailure> {
        if !self.require_healthy_roots_after_cycle {
            None
        } else if self.require_healthy_settings_root_after_cycle && health.settings_root_health.degraded {
            Some(PolicyFailure::RootHealthDegraded { root_kind: "settings root"@ })
        } else if self.require_healthy_local_device_head_root_after_cycle && health.local_device_head_root_health.degraded {
            Some(PolicyFailure::RootHealthDegraded { root_kind: "local device-head root"@ })
        } else {
            None
        }
    }

    /// The minimum number of retention providers to select besides the local one.
    pub open spec fn minimum_selected_spec(self) -> nat {
        if self.minimum_online_retaining_providers >= 1 {
            (self.minimum_online_retaining_providers - 1) as nat
        } else {
            0
        }
    }

    /// A policy that requires healthy providers and roots, at least one fresh online,
    /// object-transfer, availability and mutable-root provider, and no bound on stale or
    /// offline providers.
    pub fn new(
        retention_policy: R,
        max_publish_steps: u32,
        max_trusted_devices: u32,
        minimum_online_retaining_providers: usize,
    ) -> (policy: Self)
        ensures
            policy.retention_policy == retention_policy,
            policy.max_publish_steps == max_publish_steps,
            policy.max_trusted_devices == max_trusted_devices,
            policy.minimum_fresh_online_providers == 1,
            policy.minimum_object_transfer_providers == 1,
            policy.minimum_availability_providers == 1,
            policy.minimum_mutable_root_providers == 1,
            policy.minimum_online_retaining_providers == minimum_online_retaining_providers,
            policy.maximum_stale_online_providers is None,
            policy.maximum_offline_providers is None,
            policy.require_healthy_providers,
            policy.require_healthy_roots_after_cycle,
            policy.require_healthy_settings_root_after_cycle,
            policy.require_healthy_local_device_head_root_after_cycle,
    {
        SettingsSyncCyclePolicy {
            retention_policy,
            max_publish_steps,
            max_trusted_devices,
            minimum_fresh_online_providers: 1,
            minimum_object_transfer_providers: 1,
            minimum_availability_providers: 1,
            minimum_mutable_root_providers: 1,
            minimum_online_retaining_providers,
            maximum_stale_online_providers: None,
            maximum_offline_providers: None,
            require_healthy_providers: true,
            require_healthy_roots_after_cycle: true,
            require_healthy_settings_root_after_cycle: true,
            require_healthy_local_device_head_root_after_cycle: true,
        }
    }

    /// Sets the minimum number of fresh online providers.
    pub fn with_minimum_fresh_online_providers(self, minimum: usize) -> (policy: Self)
        ensures
            policy == (SettingsSyncCyclePolicy { minimum_fresh_online_providers: minimum, ..self }),
    {
        let mut policy = self;
        policy.minimum_fresh_online_providers = minimum;
        policy
    }

    /// Sets the minimum number of object-transfer providers.
    pub fn with_minimum_object_transfer_providers(self, minimum: usize) -> (policy: Self)
        ensures
            policy == (SettingsSyncCyclePolicy { minimum_object_transfer_providers: minimum, ..self }),
    {
        let mut policy = self;
        policy.minimum_object_transfer_providers = minimum;
        policy
    }

    /// Sets the minimum number of availability providers.
    pub fn with_minimum_availability_providers(self, minimum: usize) -> (policy: Self)
        ensures
            policy == (SettingsSyncCyclePolicy { minimum_availability_providers: minimum, ..self }),
    {
        let mut policy = self;
        policy.minimum_availability_providers = minimum;
        policy
    }

    /// Sets the minimum number of mutable-root providers.
    pub fn with_minimum_mutable_root_providers(self, minimum: usize) -> (policy: Self)
        ensures
            policy == (SettingsSyncCyclePolicy { minimum_mutable_root_providers: minimum, ..self }),
    {
        let mut policy = self;
        policy.minimum_mutable_root_providers = minimum;
        policy
    }

    /// Bounds the number of stale online providers.
    pub fn with_maximum_stale_online_providers(self, maximum: usize) -> (policy: Self)
        ensures
            policy == (SettingsSyncCyclePolicy { maximum_stale_online_providers: Some(maximum), ..self }),
    {
        let mut policy = self;
        policy.maximum_stale_online_providers = Some(maximum);
        policy
    }

    /// Bounds the number of offline providers.
    pub fn with_maximum_offline_providers(self, maximum: usize) -> (policy: Self)
        ensures
            policy == (SettingsSyncCyclePolicy { maximum_offline_providers: Some(maximum), ..self }),
    {
        let mut policy = self;
        policy.maximum_offline_providers = Some(maximum);
        policy
    }

    /// Sets whether provider health is checked before a cycle.
    pub fn with_provider_health_required(self, required: bool) -> (policy: Self)
        ensures
            policy == (SettingsSyncCyclePolicy { require_healthy_providers: required, ..self }),
    {
        let mut policy = self;
        policy.require_healthy_providers = required;
        policy
    }

    /// Sets whether root health is checked after a cycle, for both roots.
    pub fn with_root_health_required_after_cycle(self, required: bool) -> (policy: Self)
        ensures
            policy == (SettingsSyncCyclePolicy {
                require_healthy_roots_after_cycle: required,
                require_healthy_settings_root_after_cycle: required,
                require_healthy_local_device_head_root_after_cycle: required,
                ..self
            }),
    {
        let mut policy = self;
        policy.require_healthy_roots_after_cycle = required;
        policy.require_healthy_settings_root_after_cycle = required;
        policy.require_healthy_local_device_head_root_after_cycle = required;
        policy
    }

    /// Sets whether the settings root must be healthy after a cycle.
    pub fn with_settings_root_health_required_after_cycle(self, required: bool) -> (policy: Self)
        ensures
            policy == (SettingsSyncCyclePolicy { require_healthy_settings_root_after_cycle: required, ..self }),
    {
        let mut policy = self;
        policy.require_healthy_settings_root_after_cycle = required;
        policy
    }

    /// Sets whether the local device-head root must be healthy after a cycle.
    pub fn with_local_device_head_root_health_required_after_cycle(self, required: bool) -> (policy: Self)
        ensures
            policy == (SettingsSyncCyclePolicy { require_healthy_local_device_head_root_after_cycle: required, ..self }),
    {
        let mut policy = self;
        policy.require_healthy_local_device_head_root_after_cycle = required;
        policy
    }

    /// The minimum number of retention providers to select besides the local one: one fewer
    /// than the minimum of online retaining providers, and never below zero.
    pub fn minimum_selected_retention_provider_count(&self) -> (count: usize)
        ensures
            count == self.minimum_selected_spec(),
    {
        if self.minimum_online_retaining_providers >= 1 {
            self.minimum_online_retaining_providers - 1
        } else {
            0
        }
    }

    fn check_provider_minimum(
        &self,
        provider_role: &'static str,
        minimum: usize,
        actual: usize,
        health: &SettingsSyncHealthReport,
    ) -> (result: Result<(), ProfileSyncPolicyError>)
        ensures
            policy_result_is(result, minimum_failure(provider_role@, minimum as nat, actual as nat), *health),
    {
        if actual < minimum {
            return Err(ProfileSyncPolicyError::ProviderMinimumUnmet {
                provider_role,
                minimum,
                actual,
                health: health.duplicate(),
            });
        }
        Ok(())
    }

    fn check_provider_maximum(
        &self,
        provider_role: &'static str,
        maximum: usize,
        actual: usize,
        health: &SettingsSyncHealthReport,
    ) -> (result: Result<(), ProfileSyncPolicyError>)
        ensures
            policy_result_is(result, maximum_failure(provider_role@, maximum as nat, actual as nat), *health),
    {
        if actual > maximum {
            return Err(ProfileSyncPolicyError::ProviderMaximumExceeded {
                provider_role,
                maximum,
                actual,
                health: health.duplicate(),
            });
        }
        Ok(())
    }

    /// Checks provider health before a cycle; see `before_cycle_failure`.
    pub fn check_before_cycle(&self, health: &SettingsSyncHealthReport) -> (result: Result<(), ProfileSyncPolicyError>)
        ensures
            policy_result_is(result, self.before_cycle_failure(*health), *health),
    {
        if !self.require_healthy_providers {
            return Ok(());
        }
        if health.provider_health.degraded {
            return Err(ProfileSyncPolicyError::ProviderHealthDegraded { health: health.duplicate() });
        }
        self.check_provider_minimum(
            "fresh online providers",
            self.minimum_fresh_online_providers,
            health.provider_health.fresh_online_providers,
            health,
        )?;
        self.check_provider_minimum(
            "object-transfer providers",
            self.minimum_object_transfer_providers,
            health.provider_health.object_transfer_providers,
            health,
        )?;
        self.check_provider_minimum(
            "availability providers",
            self.minimum_availability_providers,
            health.provider_health.availability_providers,
            health,
        )?;
        self.check_provider_minimum(
            "mutable-root providers",
            self.minimum_mutable_root_providers,
            health.provider_health.mutable_root_providers,
            health,
        )?;
        if let Some(maximum) = self.maximum_stale_online_providers {
            self.check_provider_maximum(
                "stale online providers",
                maximum,
                health.provider_health.stale_online_providers,
                health,
            )?;
        }
        if let Some(maximum) = self.maximum_offline_providers {
            self.check_provider_maximum(
                "offline providers",
                maximum,
                health.provider_health.offline_providers,
                health,
            )?;
        }
        Ok(())
    }

    /// Checks that enough retention providers were selected.
    pub fn check_selected_retention_provider_count(
        &self,
        actual: usize,
        health: &SettingsSyncHealthReport,
    ) -> (result: Result<(), ProfileSyncPolicyError>)
        ensures
            policy_result_is(
                result,
                minimum_failure("selected retention providers"@, self.minimum_selected_spec(), actual as nat),
                *health,
            ),
    {
        self.check_provider_minimum(
            "selected retention providers",
            self.minimum_selected_retention_provider_count(),
            actual,
            health,
        )
    }

    /// Checks that no requested retention provider is stale, then that none is offline.
    pub fn check_selected_retention_provider_freshness(
        &self,
        stale_selected: usize,
        offline_selected: usize,
        health: &SettingsSyncHealthReport,
    ) -> (result: Result<(), ProfileSyncPolicyError>)
        ensures
            policy_result_is(
                result,
                first_failure(
                    maximum_failure("stale selected retention providers"@, 0, stale_selected as nat),
                    maximum_failure("offline selected retention providers"@, 0, offline_selected as nat),
                ),
                *health,
            ),
    {
        self.check_provider_maximum("stale selected retention providers", 0, stale_selected, health)?;
        self.check_provider_maximum("offline selected retention providers", 0, offline_selected, health)
    }

    /// Checks root health after a cycle; see `after_cycle_failure`.
    pub fn check_after_cycle(&self, health: &SettingsSyncHealthReport) -> (result: Result<(), ProfileSyncPolicyError>)
        ensures
            policy_result_is(result, self.after_cycle_failure(*health), *health),
    {
        if !self.require_healthy_roots_after_cycle {
            return Ok(());
        }
        if self.require_healthy_settings_root_after_cycle && health.settings_root_health.degraded {
            return Err(ProfileSyncPolicyError::RootHealthDegraded {
                root_kind: "settings root",
                health: health.duplicate(),
            });
        }
        if self.require_healthy_local_device_head_root_after_cycle
            && health.local_device_head_root_health.degraded
        {
            return Err(ProfileSyncPolicyError::RootHealthDegraded {
                root_kind: "local device-head root",
                health: health.duplicate(),
            });
        }
        Ok(())
    }
}

/// A cycle may start exactly when provider health is not required, or when the providers are not
/// degraded and every provider count is within its bound: at least the configured fresh online,
/// object-transfer, availability and mutable-root providers, and at most the configured stale
/// online and offline ones. A refusal for too few providers names the role, its minimum and the
/// count the report gives for that role; too few fresh online providers is refused with the fresh
/// count, whatever the stale count.
pub proof fn lemma_pre_cycle_check_bounds<R>(policy: SettingsSyncCyclePolicy<R>, health: SettingsSyncHealthReport)
    ensures
        ({
            let ph = health.provider_health;
            let failure = policy.before_cycle_failure(health);
            &&& failure is None <==> (!policy.require_healthy_providers || {
                &&& !ph.degraded
                &&& ph.fresh_online_providers >= policy.minimum_fresh_online_providers
                &&& ph.object_transfer_providers >= policy.minimum_object_transfer_providers
                &&& ph.availability_providers >= policy.minimum_availability_providers
                &&& ph.mutable_root_providers >= policy.minimum_mutable_root_providers
                &&& policy.maximum_stale_online_providers is Some
                    ==> ph.stale_online_providers <= policy.maximum_stale_online_providers.unwrap()
                &&& policy.maximum_offline_providers is Some
                    ==> ph.offline_providers <= policy.maximum_offline_providers.unwrap()
            })
            &&& policy.require_healthy_providers && ph.degraded ==> failure == Some(PolicyFailure::ProviderHealthDegraded)
            &&& policy.require_healthy_providers && !ph.degraded
                && ph.fresh_online_providers < policy.minimum_fresh_online_providers ==> failure == Some(
                    PolicyFailure::ProviderMinimumUnmet {
                        provider_role: "fresh online providers"@,
                        minimum: policy.minimum_fresh_online_providers as nat,
                        actual: ph.fresh_online_providers as nat,
                    })
            &&& failure is Some && failure.unwrap() is ProviderMinimumUnmet ==> {
                let f = failure.unwrap();
                ||| f->ProviderMinimumUnmet_provider_role == "fresh online providers"@ && f->ProviderMinimumUnmet_minimum == policy.minimum_fresh_online_providers
                    && f->ProviderMinimumUnmet_actual == ph.fresh_online_providers
                ||| f->ProviderMinimumUnmet_provider_role == "object-transfer providers"@ && f->ProviderMinimumUnmet_minimum == policy.minimum_object_transfer_providers
                    && f->ProviderMinimumUnmet_actual == ph.object_transfer_providers
                ||| f->ProviderMinimumUnmet_provider_role == "availability providers"@ && f->ProviderMinimumUnmet_minimum == policy.minimum_availability_providers
                    && f->ProviderMinimumUnmet_actual == ph.availability_providers
                ||| f->ProviderMinimumUnmet_provider_role == "mutable-root providers"@ && f->ProviderMinimumUnmet_minimum == policy.minimum_mutable_root_providers
                    && f->ProviderMinimumUnmet_actual == ph.mutable_root_providers
            }
        }),
{
}

/// A cycle's outcome passes exactly when root health is not required, or when neither required
/// root is degraded.
pub proof fn lemma_post_cycle_check_roots<R>(policy: SettingsSyncCyclePolicy<R>, health: SettingsSyncHealthReport)
    ensures
        policy.after_cycle_failure(health) is None <==> (!policy.require_healthy_roots_after_cycle || (
            (!policy.require_healthy_settings_root_after_cycle || !health.settings_root_health.degraded)
            && (!policy.require_healthy_local_device_head_root_after_cycle || !health.local_device_head_root_health.degraded))),
{
}

/// A policy that does not require provider health lets every report pass the pre-cycle check,
/// and one that does not require root health lets every report pass the post-cycle check.
pub proof fn lemma_unrequired_checks_pass<R>(policy: SettingsSyncCyclePolicy<R>, health: SettingsSyncHealthReport)
    ensures
        !policy.require_healthy_providers ==> policy.before_cycle_failure(health) is None,
        !policy.require_healthy_roots_after_cycle ==> policy.after_cycle_failure(health) is None,
{
}

/// Whatever the bounds, degraded providers fail a policy that requires provider health, and a
/// healthy report passes the post-cycle check.
pub proof fn lemma_degraded_providers_fail<R>(policy: SettingsSyncCyclePolicy<R>, health: SettingsSyncHealthReport)
    ensures
        policy.require_healthy_providers && health.provider_health.degraded ==>
            policy.before_cycle_failure(health) == Some(PolicyFailure::ProviderHealthDegraded),
        !health.settings_root_health.degraded && !health.local_device_head_root_health.degraded ==>
            policy.after_cycle_failure(health) is None,
{
}

} // verus!
