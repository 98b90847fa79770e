//! Errors of publishing, receiving, credential checks and sync cycles, with their messages.
use vstd::prelude::*;
use crate::policy::ProfileSyncPolicyError;
use crate::text::{append_decimal_u64, append_decimal_usize, append_str, decimal, owned};

verus! {

/// A failure of the profile store, or a problem this library found in data bound for it.
#[derive(Clone, Debug, PartialEq, Eq)]
pub enum StorageError {
    InvalidProfileSyncManifest(String),
    UnsupportedSyncSnapshotSchema(u32),
    InvalidSyncRootId(String),
    InvalidSyncDeviceId(String),
    MissingActiveSyncContentKey(String),
    UnsupportedSyncContentKeyAlgorithm { key_id: String, algorithm: String },
    Store(String),
}

/// A problem with a sync object: an unsupported schema, a device mismatch, or a codec failure.
#[derive(Clone, Debug, PartialEq, Eq)]
pub enum SyncObjectError {
    UnsupportedSchema { object_kind: String, schema_version: u32 },
    DeviceKeyMismatch { expected_device_id: String, actual_device_id: String },
    Codec(String),
}

impl StorageError {
    /// The human-readable text of this failure.
    pub open spec fn message_spec(self) -> Seq<char> {
        match self {
            StorageError::InvalidProfileSyncManifest(reason) => "invalid profile sync manifest: "@ + reason@,
            StorageError::UnsupportedSyncSnapshotSchema(version) => "unsupported sync snapshot schema version "@ + decimal(version as nat),
            StorageError::InvalidSyncRootId(root_id) => "invalid sync root id: "@ + root_id@,
            StorageError::InvalidSyncDeviceId(device_id) => "invalid sync device id: "@ + device_id@,
            StorageError::MissingActiveSyncContentKey(profile) => "profile "@ + profile@ + " has no active sync content key"@,
            StorageError::UnsupportedSyncContentKeyAlgorithm { key_id, algorithm } =>
                "sync content key "@ + key_id@ + " uses unsupported algorithm "@ + algorithm@,
            StorageError::Store(text) => text@,
        }
    }

    /// The human-readable text of this failure.
    pub fn message(&self) -> (message: String)
        ensures
            message@ == self.message_spec(),
    {
        match self {
            StorageError::InvalidProfileSyncManifest(reason) => {
                let mut m = owned("invalid profile sync manifest: ");
                append_str(&mut m, reason.as_str());
                m
            },
            StorageError::UnsupportedSyncSnapshotSchema(version) => {
                let mut m = owned("unsupported sync snapshot schema version ");
                append_decimal_u64(&mut m, *version as u64);
                m
            },
            StorageError::InvalidSyncRootId(root_id) => {
                let mut m = owned("invalid sync root id: ");
                append_str(&mut m, root_id.as_str());
                m
            },
            StorageError::InvalidSyncDeviceId(device_id) => {
                let mut m = owned("invalid sync device id: ");
                append_str(&mut m, device_id.as_str());
                m
            },
            StorageError::MissingActiveSyncContentKey(profile) => {
                let mut m = owned("profile ");
                append_str(&mut m, profile.as_str());
                append_str(&mut m, " has no active sync content key");
                m
            },
            StorageError::UnsupportedSyncContentKeyAlgorithm { key_id, algorithm } => {
                let mut m = owned("sync content key ");
                append_str(&mut m, key_id.as_str());
                append_str(&mut m, " uses unsupported algorithm ");
                append_str(&mut m, algorithm.as_str());
                m
            },
            StorageError::Store(text) => text.clone(),
        }
    }
}

impl SyncObjectError {
    /// The human-readable text of this problem.
    pub open spec fn message_spec(self) -> Seq<char> {
        match self {
            SyncObjectError::UnsupportedSchema { object_kind, schema_version } =>
                "unsupported "@ + object_kind@ + " schema version "@ + decimal(schema_version as nat),
            SyncObjectError::DeviceKeyMismatch { expected_device_id, actual_device_id } =>
                "sync object device "@ + actual_device_id@ + " does not match signer device "@ + expected_device_id@,
            SyncObjectError::Codec(text) => text@,
        }
    }

    /// The human-readable text of this problem.
    pub fn message(&self) -> (message: String)
        ensures
            message@ == self.message_spec(),
    {
        match self {
            SyncObjectError::UnsupportedSchema { object_kind, schema_version } => {
                let mut m = owned("unsupported ");
                append_str(&mut m, object_kind.as_str());
                append_str(&mut m, " schema version ");
                append_decimal_u64(&mut m, *schema_version as u64);
                m
            },
            SyncObjectError::DeviceKeyMismatch { expected_device_id, actual_device_id } => {
                let mut m = owned("sync object device ");
                append_str(&mut m, actual_device_id.as_str());
                append_str(&mut m, " does not match signer device ");
                append_str(&mut m, expected_device_id.as_str());
                m
            },
            SyncObjectError::Codec(text) => text.clone(),
        }
    }
}

/// Publishing failed.
#[derive(Clone, Debug, PartialEq, Eq)]
pub enum ProfileSyncPublishError {
    Broadwebd(String),
    Storage(StorageError),
    SyncObject(SyncObjectError),
    MembershipLogTooLarge { profile: String, max_records: usize, actual_records: usize },
    LocalSyncLoopExhausted { profile: String, settings_root_id: String, max_steps: u32 },
}

impl ProfileSyncPublishError {
    /// The human-readable text of this error.
    pub open spec fn message_spec(self) -> Seq<char> {
        match self {
            ProfileSyncPublishError::Broadwebd(text) => "profile sync backend error: "@ + text@,
            ProfileSyncPublishError::Storage(error) => "profile sync storage error: "@ + error.message_spec(),
            ProfileSyncPublishError::SyncObject(error) => "profile sync object error: "@ + error.message_spec(),
            ProfileSyncPublishError::MembershipLogTooLarge { profile, max_records, actual_records } =>
                "profile sync membership log for profile "@ + profile@ + " has "@ + decimal(actual_records as nat)
                    + " records, exceeding max "@ + decimal(max_records as nat),
            ProfileSyncPublishError::LocalSyncLoopExhausted { profile, settings_root_id, max_steps } =>
                "local settings sync loop for profile "@ + profile@ + " root "@ + settings_root_id@
                    + " did not reach idle after "@ + decimal(max_steps as nat) + " steps"@,
        }
    }

    /// The human-readable text of this error.
    pub fn message(&self) -> (message: String)
        ensures
            message@ == self.message_spec(),
    {
        match self {
            ProfileSyncPublishError::Broadwebd(text) => {
                let mut m = owned("profile sync backend error: ");
                append_str(&mut m, text.as_str());
                m
            },
            ProfileSyncPublishError::Storage(error) => {
                let mut m = owned("profile sync storage error: ");
                append_str(&mut m, error.message().as_str());
                m
            },
            ProfileSyncPublishError::SyncObject(error) => {
                let mut m = owned("profile sync object error: ");
                append_str(&mut m, error.message().as_str());
                m
            },
            ProfileSyncPublishError::MembershipLogTooLarge { profile, max_records, actual_records } => {
                let mut m = owned("profile sync membership log for profile ");
                append_str(&mut m, profile.as_str());
                append_str(&mut m, " has ");
                append_decimal_usize(&mut m, *actual_records);
                append_str(&mut m, " records, exceeding max ");
                append_decimal_usize(&mut m, *max_records);
                m
            },
            ProfileSyncPublishError::LocalSyncLoopExhausted { profile, settings_root_id, max_steps } => {
                let mut m = owned("local settings sync loop for profile ");
                append_str(&mut m, profile.as_str());
                append_str(&mut m, " root ");
                append_str(&mut m, settings_root_id.as_str());
                append_str(&mut m, " did not reach idle after ");
                append_decimal_u64(&mut m, *max_steps as u64);
                append_str(&mut m, " steps");
                m
            },
        }
    }

    /// Whether this error wraps an underlying failure.
    pub fn has_source(&self) -> (wraps: bool)
        ensures
            wraps == (self is Broadwebd || self is Storage || self is SyncObject),
    {
        match self {
            ProfileSyncPublishError::Broadwebd(_) => true,
            ProfileSyncPublishError::Storage(_) => true,
            ProfileSyncPublishError::SyncObject(_) => true,
            ProfileSyncPublishError::MembershipLogTooLarge { .. } => false,
            ProfileSyncPublishError::LocalSyncLoopExhausted { .. } => false,
        }
    }
}

impl From<StorageError> for ProfileSyncPublishError {
    fn from(error: StorageError) -> (converted: Self) {
        ProfileSyncPublishError::Storage(error)
    }
}

impl vstd::std_specs::convert::FromSpecImpl<StorageError> for ProfileSyncPublishError {
    open spec fn obeys_from_spec() -> bool {
        true
    }

    open spec fn from_spec(error: StorageError) -> Self {
        ProfileSyncPublishError::Storage(error)
    }
}

impl From<SyncObjectError> for ProfileSyncPublishError {
    fn from(error: SyncObjectError) -> (converted: Self) {
        ProfileSyncPublishError::SyncObject(error)
    }
}

impl vstd::std_specs::convert::FromSpecImpl<SyncObjectError> for ProfileSyncPublishError {
    open spec fn obeys_from_spec() -> bool {
        true
    }

    open spec fn from_spec(error: SyncObjectError) -> Self {
        ProfileSyncPublishError::SyncObject(error)
    }
}

/// Receiving failed.
#[derive(Clone, Debug, PartialEq, Eq)]
pub enum ProfileSyncReceiveError {
    Broadwebd(String),
    Storage(StorageError),
    SyncObject(SyncObjectError),
    PullApply(String),
    InvalidMembershipLog(String),
    TrustedDeviceLimitExceeded { profile: String, trusted_device_count: usize, max_devices: u32 },
}

impl ProfileSyncReceiveError {
    /// The human-readable text of this error.
    pub open spec fn message_spec(self) -> Seq<char> {
        match self {
            ProfileSyncReceiveError::Broadwebd(text) => "profile sync backend error: "@ + text@,
            ProfileSyncReceiveError::Storage(error) => "profile sync storage error: "@ + error.message_spec(),
            ProfileSyncReceiveError::SyncObject(error) => "profile sync object error: "@ + error.message_spec(),
            ProfileSyncReceiveError::PullApply(text) => "profile sync receive error: "@ + text@,
            ProfileSyncReceiveError::InvalidMembershipLog(reason) => "invalid profile sync membership log: "@ + reason@,
            ProfileSyncReceiveError::TrustedDeviceLimitExceeded { profile, trusted_device_count, max_devices } =>
                "trusted settings sync for profile "@ + profile@ + " has "@ + decimal(trusted_device_count as nat)
                    + " remote trusted devices, exceeding max "@ + decimal(max_devices as nat),
        }
    }

    /// The human-readable text of this error.
    pub fn message(&self) -> (message: String)
        ensures
            message@ == self.message_spec(),
    {
        match self {
            ProfileSyncReceiveError::Broadwebd(text) => {
                let mut m = owned("profile sync backend error: ");
                append_str(&mut m, text.as_str());
                m
            },
            ProfileSyncReceiveError::Storage(error) => {
                let mut m = owned("profile sync storage error: ");
                append_str(&mut m, error.message().as_str());
                m
            },
            ProfileSyncReceiveError::SyncObject(error) => {
                let mut m = owned("profile sync object error: ");
                append_str(&mut m, error.message().as_str());
                m
            },
            ProfileSyncReceiveError::PullApply(text) => {
                let mut m = owned("profile sync receive error: ");
                append_str(&mut m, text.as_str());
                m
            },
            ProfileSyncReceiveError::InvalidMembershipLog(reason) => {
                let mut m = owned("invalid profile sync membership log: ");
                append_str(&mut m, reason.as_str());
                m
            },
            ProfileSyncReceiveError::TrustedDeviceLimitExceeded { profile, trusted_device_count, max_devices } => {
                let mut m = owned("trusted settings sync for profile ");
                append_str(&mut m, profile.as_str());
                append_str(&mut m, " has ");
                append_decimal_usize(&mut m, *trusted_device_count);
                append_str(&mut m, " remote trusted devices, exceeding max ");
                append_decimal_u64(&mut m, *max_devices as u64);
                m
            },
        }
    }

    /// Whether this error wraps an underlying failure.
    pub fn has_source(&self) -> (wraps: bool)
        ensures
            wraps == (self is Broadwebd || self is Storage || self is SyncObject || self is PullApply),
    {
        match self {
            ProfileSyncReceiveError::Broadwebd(_) => true,
            ProfileSyncReceiveError::Storage(_) => true,
            ProfileSyncReceiveError::SyncObject(_) => true,
            ProfileSyncReceiveError::PullApply(_) => true,
            ProfileSyncReceiveError::InvalidMembershipLog(_) => false,
            ProfileSyncReceiveError::TrustedDeviceLimitExceeded { .. } => false,
        }
    }
}

impl From<StorageError> for ProfileSyncReceiveError {
    fn from(error: StorageError) -> (converted: Self) {
        ProfileSyncReceiveError::Storage(error)
    }
}

impl vstd::std_specs::convert::FromSpecImpl<StorageError> for ProfileSyncReceiveError {
    open spec fn obeys_from_spec() -> bool {
        true
    }

    open spec fn from_spec(error: StorageError) -> Self {
        ProfileSyncReceiveError::Storage(error)
    }
}

/// The credentials handed to a sync cycle do not fit the profile.
#[derive(Clone, Debug, PartialEq, Eq)]
pub enum ProfileSyncCredentialError {
    Storage(StorageError),
    SyncObject(SyncObjectError),
    InactiveContentKey { profile: String, expected_key_id: String, active_key_id: String },
    UntrustedLocalDevice { profile: String, device_id: String },
    LocalDevicePublicKeyMismatch { profile: String, device_id: String },
    LocalDeviceSignerMismatch { profile: String, local_device_id: String, signer_device_id: String },
}

impl ProfileSyncCredentialError {
    /// The human-readable text of this error.
    pub open spec fn message_spec(self) -> Seq<char> {
        match self {
            ProfileSyncCredentialError::Storage(error) => "profile sync credential storage error: "@ + error.message_spec(),
            ProfileSyncCredentialError::SyncObject(error) => "profile sync credential object error: "@ + error.message_spec(),
            ProfileSyncCredentialError::InactiveContentKey { profile, expected_key_id, active_key_id } =>
                "profile "@ + profile@ + " active sync content key is "@ + active_key_id@ + ", not requested key "@
                    + expected_key_id@,
            ProfileSyncCredentialError::UntrustedLocalDevice { profile, device_id } =>
                "profile "@ + profile@ + " has no trusted public key for local sync device "@ + device_id@,
            ProfileSyncCredentialError::LocalDevicePublicKeyMismatch { profile, device_id } =>
                "profile "@ + profile@ + " trusted public key for local sync device "@ + device_id@
                    + " does not match the supplied signer"@,
            ProfileSyncCredentialError::LocalDeviceSignerMismatch { profile, local_device_id, signer_device_id } =>
                "profile "@ + profile@ + " local sync device is "@ + local_device_id@
                    + ", but supplied signer is for "@ + signer_device_id@,
        }
    }

    /// The human-readable text of this error.
    pub fn message(&self) -> (message: String)
        ensures
            message@ == self.message_spec(),
    {
        match self {
            ProfileSyncCredentialError::Storage(error) => {
                let mut m = owned("profile sync credential storage error: ");
                append_str(&mut m, error.message().as_str());
                m
            },
            ProfileSyncCredentialError::SyncObject(error) => {
                let mut m = owned("profile sync credential object error: ");
                append_str(&mut m, error.message().as_str());
                m
            },
            ProfileSyncCredentialError::InactiveContentKey { profile, expected_key_id, active_key_id } => {
                let mut m = owned("profile ");
                append_str(&mut m, profile.as_str());
                append_str(&mut m, " active sync content key is ");
                append_str(&mut m, active_key_id.as_str());
                append_str(&mut m, ", not requested key ");
                append_str(&mut m, expected_key_id.as_str());
                m
            },
            ProfileSyncCredentialError::UntrustedLocalDevice { profile, device_id } => {
                let mut m = owned("profile ");
                append_str(&mut m, profile.as_str());
                append_str(&mut m, " has no trusted public key for local sync device ");
                append_str(&mut m, device_id.as_str());
                m
            },
            ProfileSyncCredentialError::LocalDevicePublicKeyMismatch { profile, device_id } => {
                let mut m = owned("profile ");
                append_str(&mut m, profile.as_str());
                append_str(&mut m, " trusted public key for local sync device ");
                append_str(&mut m, device_id.as_str());
                append_str(&mut m, " does not match the supplied signer");
                m
            },
            ProfileSyncCredentialError::LocalDeviceSignerMismatch { profile, local_device_id, signer_device_id } => {
                let mut m = owned("profile ");
                append_str(&mut m, profile.as_str());
                append_str(&mut m, " local sync device is ");
                append_str(&mut m, local_device_id.as_str());
                append_str(&mut m, ", but supplied signer is for ");
                append_str(&mut m, signer_device_id.as_str());
                m
            },
        }
    }

    /// Whether this error wraps an underlying failure.
    pub fn has_source(&self) -> (wraps: bool)
        ensures
            wraps == (self is Storage || self is SyncObject),
    {
        match self {
            ProfileSyncCredentialError::Storage(_) => true,
            ProfileSyncCredentialError::SyncObject(_) => true,
            _ => false,
        }
    }
}

impl From<StorageError> for ProfileSyncCredentialError {
    fn from(error: StorageError) -> (converted: Self) {
        ProfileSyncCredentialError::Storage(error)
    }
}

impl vstd::std_specs::convert::FromSpecImpl<StorageError> for ProfileSyncCredentialError {
    open spec fn obeys_from_spec() -> bool {
        true
    }

    open spec fn from_spec(error: StorageError) -> Self {
        ProfileSyncCredentialError::Storage(error)
    }
}

/// A settings sync cycle failed in its credential check, its publishing, or its receiving.
#[derive(Clone, Debug, PartialEq, Eq)]
pub enum ProfileSyncCycleError {
    Credentials(ProfileSyncCredentialError),
    Publish(ProfileSyncPublishError),
    Receive(ProfileSyncReceiveError),
}

impl ProfileSyncCycleError {
    /// The human-readable text of this error.
    pub open spec fn message_spec(self) -> Seq<char> {
        match self {
            ProfileSyncCycleError::Credentials(error) => "profile sync credential preflight failed: "@ + error.message_spec(),
            ProfileSyncCycleError::Publish(error) => "profile sync publish cycle failed: "@ + error.message_spec(),
            ProfileSyncCycleError::Receive(error) => "profile sync receive cycle failed: "@ + error.message_spec(),
        }
    }

    /// The human-readable text of this error.
    pub fn message(&self) -> (message: String)
        ensures
            message@ == self.message_spec(),
    {
        match self {
            ProfileSyncCycleError::Credentials(error) => {
                let mut m = owned("profile sync credential preflight failed: ");
                append_str(&mut m, error.message().as_str());
                m
            },
            ProfileSyncCycleError::Publish(error) => {
                let mut m = owned("profile sync publish cycle failed: ");
                append_str(&mut m, error.message().as_str());
                m
            },
            ProfileSyncCycleError::Receive(error) => {
                let mut m = owned("profile sync receive cycle failed: ");
                append_str(&mut m, error.message().as_str());
                m
            },
        }
    }
}

impl From<ProfileSyncCredentialError> for ProfileSyncCycleError {
    fn from(error: ProfileSyncCredentialError) -> (converted: Self) {
        ProfileSyncCycleError::Credentials(error)
    }
}

impl vstd::std_specs::convert::FromSpecImpl<ProfileSyncCredentialError> for ProfileSyncCycleError {
    open spec fn obeys_from_spec() -> bool {
        true
    }

    open spec fn from_spec(error: ProfileSyncCredentialError) -> Self {
        ProfileSyncCycleError::Credentials(error)
    }
}

impl From<ProfileSyncPublishError> for ProfileSyncCycleError {
    fn from(error: ProfileSyncPublishError) -> (converted: Self) {
        ProfileSyncCycleError::Publish(error)
    }
}

impl vstd::std_specs::convert::FromSpecImpl<ProfileSyncPublishError> for ProfileSyncCycleError {
    open spec fn obeys_from_spec() -> bool {
        true
    }

    open spec fn from_spec(error: ProfileSyncPublishError) -> Self {
        ProfileSyncCycleError::Publish(error)
    }
}

impl From<ProfileSyncReceiveError> for ProfileSyncCycleError {
    fn from(error: ProfileSyncReceiveError) -> (converted: Self) {
        ProfileSyncCycleError::Receive(error)
    }
}

impl vstd::std_specs::convert::FromSpecImpl<ProfileSyncReceiveError> for ProfileSyncCycleError {
    open spec fn obeys_from_spec() -> bool {
        true
    }

    open spec fn from_spec(error: ProfileSyncReceiveError) -> Self {
        ProfileSyncCycleError::Receive(error)
    }
}

/// A health-checked sync cycle failed: a health query, retention, the policy, or the cycle.
#[derive(Clone, Debug, PartialEq, Eq)]
pub enum ProfileSyncCycleWithHealthError {
    Health(String),
    Retention(String),
    Policy(ProfileSyncPolicyError),
    Cycle(ProfileSyncCycleError),
}

impl ProfileSyncCycleWithHealthError {
    /// The human-readable text of this error.
    pub open spec fn message_spec(self) -> Seq<char> {
        match self {
            ProfileSyncCycleWithHealthError::Health(text) => "profile sync health check failed: "@ + text@,
            ProfileSyncCycleWithHealthError::Retention(text) => "profile sync retention failed: "@ + text@,
            ProfileSyncCycleWithHealthError::Policy(error) => "profile sync policy check failed: "@ + error.message_spec(),
            ProfileSyncCycleWithHealthError::Cycle(error) => "profile sync cycle failed: "@ + error.message_spec(),
        }
    }

    /// The human-readable text of this error.
    pub fn message(&self) -> (message: String)
        ensures
            message@ == self.message_spec(),
    {
        match self {
            ProfileSyncCycleWithHealthError::Health(text) => {
                let mut m = owned("profile sync health check failed: ");
                append_str(&mut m, text.as_str());
                m
            },
            ProfileSyncCycleWithHealthError::Retention(text) => {
                let mut m = owned("profile sync retention failed: ");
                append_str(&mut m, text.as_str());
                m
            },
            ProfileSyncCycleWithHealthError::Policy(error) => {
                let mut m = owned("profile sync policy check failed: ");
                append_str(&mut m, error.message().as_str());
                m
            },
            ProfileSyncCycleWithHealthError::Cycle(error) => {
                let mut m = owned("profile sync cycle failed: ");
                append_str(&mut m, error.message().as_str());
                m
            },
        }
    }
}

impl From<ProfileSyncCycleError> for ProfileSyncCycleWithHealthError {
    fn from(error: ProfileSyncCycleError) -> (converted: Self) {
        ProfileSyncCycleWithHealthError::Cycle(error)
    }
}

impl vstd::std_specs::convert::FromSpecImpl<ProfileSyncCycleError> for ProfileSyncCycleWithHealthError {
    open spec fn obeys_from_spec() -> bool {
        true
    }

    open spec fn from_spec(error: ProfileSyncCycleError) -> Self {
        ProfileSyncCycleWithHealthError::Cycle(error)
    }
}

impl From<ProfileSyncPolicyError> for ProfileSyncCycleWithHealthError {
    fn from(error: ProfileSyncPolicyError) -> (converted: Self) {
        ProfileSyncCycleWithHealthError::Policy(error)
    }
}

impl vstd::std_specs::convert::FromSpecImpl<ProfileSyncPolicyError> for ProfileSyncCycleWithHealthError {
    open spec fn obeys_from_spec() -> bool {
        true
    }

    open spec fn from_spec(error: ProfileSyncPolicyError) -> Self {
        ProfileSyncCycleWithHealthError::Policy(error)
    }
}

} // verus!
