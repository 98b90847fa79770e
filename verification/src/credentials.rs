//! Credentials of a sync cycle: the active content key, the local signer, and the trusted
//! remote devices a cycle receives from.
use vstd::prelude::*;
use crate::text::{owned, str_equal};
use crate::errors::{ProfileSyncCredentialError, ProfileSyncReceiveError, StorageError};
use crate::discovery::{SyncDevicePublicKeyRecord, bytes_equal};

verus! {

/// A content key epoch of a profile: its id and its algorithm.
#[derive(Clone, Debug, PartialEq, Eq)]
pub struct SyncContentKeyEpoch {
    pub key_id: String,
    pub algorithm: String,
}

/// A device's public signing key.
#[derive(Clone, Debug, PartialEq, Eq)]
pub struct SyncDevicePublicKey {
    pub device_id: String,
    pub bytes: Vec<u8>,
}

/// The id of the active content key of `profile`, given the active epoch the store holds, if
/// any: it must exist and use `supported_algorithm`.
pub fn active_settings_sync_content_key_id(
    profile: &str,
    active_key: Option<SyncContentKeyEpoch>,
    supported_algorithm: &str,
) -> (key_id: Result<String, ProfileSyncCredentialError>)
    ensures
        match active_key {
            None => key_id matches Err(ProfileSyncCredentialError::Storage(StorageError::MissingActiveSyncContentKey(p)))
                && p@ == profile@,
            Some(epoch) => if epoch.algorithm@ != supported_algorithm@ {
                key_id matches Err(ProfileSyncCredentialError::Storage(StorageError::UnsupportedSyncContentKeyAlgorithm { key_id: k, algorithm: a }))
                    && k == epoch.key_id && a == epoch.algorithm
            } else {
                key_id == Ok::<String, ProfileSyncCredentialError>(epoch.key_id)
            },
        },
{
    match active_key {
        None => Err(ProfileSyncCredentialError::Storage(StorageError::MissingActiveSyncContentKey(owned(profile)))),
        Some(epoch) => {
            if !str_equal(epoch.algorithm.as_str(), supported_algorithm) {
                Err(ProfileSyncCredentialError::Storage(StorageError::UnsupportedSyncContentKeyAlgorithm {
                    key_id: epoch.key_id,
                    algorithm: epoch.algorithm,
                }))
            } else {
                Ok(epoch.key_id)
            }
        },
    }
}

/// Whether a trust record holds exactly the key `key`.
pub open spec fn record_holds_key(record: SyncDevicePublicKeyRecord, key: SyncDevicePublicKey) -> bool {
    record.device_id@ == key.device_id@ && record.public_key@ == key.bytes@
}

/// Whether `result` is what the credential checks of a cycle give, in order: the requested
/// key must be the active one, the signer must be the local device, and the local device's
/// key must be trusted and be the signer's key.
pub open spec fn credential_check(
    result: Result<(), ProfileSyncCredentialError>,
    profile: Seq<char>,
    key_id: Seq<char>,
    active_key_id: Seq<char>,
    local_device_id: Seq<char>,
    signer_key: SyncDevicePublicKey,
    trusted_key: Option<SyncDevicePublicKeyRecord>,
) -> bool {
    if active_key_id != key_id {
        result matches Err(ProfileSyncCredentialError::InactiveContentKey { profile: p, expected_key_id: e, active_key_id: a })
            && p@ == profile && e@ == key_id && a@ == active_key_id
    } else if signer_key.device_id@ != local_device_id {
        result matches Err(ProfileSyncCredentialError::LocalDeviceSignerMismatch { profile: p, local_device_id: l, signer_device_id: s })
            && p@ == profile && l@ == local_device_id && s@ == signer_key.device_id@
    } else {
        match trusted_key {
            None => result matches Err(ProfileSyncCredentialError::UntrustedLocalDevice { profile: p, device_id: d })
                && p@ == profile && d@ == signer_key.device_id@,
            Some(record) => if !record.trusted {
                result matches Err(ProfileSyncCredentialError::UntrustedLocalDevice { profile: p, device_id: d })
                    && p@ == profile && d@ == signer_key.device_id@
            } else if !record_holds_key(record, signer_key) {
                result matches Err(ProfileSyncCredentialError::LocalDevicePublicKeyMismatch { profile: p, device_id: d })
                    && p@ == profile && d@ == record.device_id@
            } else {
                result is Ok
            },
        }
    }
}

/// Checks the credentials of a cycle of `profile` that encrypts with `key_id` (see
/// `credential_check`): `active_key_id` is the profile's active content key, `signer_key` the
/// signer's public key, and `trusted_key` the profile's trust record for the signer's device.
pub fn validate_settings_sync_cycle_credentials(
    profile: &str,
    key_id: &str,
    active_key_id: &str,
    local_device_id: &str,
    signer_key: &SyncDevicePublicKey,
    trusted_key: &Option<SyncDevicePublicKeyRecord>,
) -> (result: Result<(), ProfileSyncCredentialError>)
    ensures
        credential_check(result, profile@, key_id@, active_key_id@, local_device_id@, *signer_key, *trusted_key),
{
    if !str_equal(active_key_id, key_id) {
        return Err(ProfileSyncCredentialError::InactiveContentKey {
            profile: owned(profile),
            expected_key_id: owned(key_id),
            active_key_id: owned(active_key_id),
        });
    }
    if !str_equal(signer_key.device_id.as_str(), local_device_id) {
        return Err(ProfileSyncCredentialError::LocalDeviceSignerMismatch {
            profile: owned(profile),
            local_device_id: owned(local_device_id),
            signer_device_id: signer_key.device_id.clone(),
        });
    }
    match trusted_key {
        None => Err(ProfileSyncCredentialError::UntrustedLocalDevice {
            profile: owned(profile),
            device_id: signer_key.device_id.clone(),
        }),
        Some(record) => {
            if !record.trusted {
                return Err(ProfileSyncCredentialError::UntrustedLocalDevice {
                    profile: owned(profile),
                    device_id: signer_key.device_id.clone(),
                });
            }
            if !(str_equal(record.device_id.as_str(), signer_key.device_id.as_str()) && bytes_equal(&record.public_key, &signer_key.bytes)) {
                return Err(ProfileSyncCredentialError::LocalDevicePublicKeyMismatch {
                    profile: owned(profile),
                    device_id: record.device_id.clone(),
                });
            }
            Ok(())
        },
    }
}

/// The trusted records of devices other than `local_device_id`, in order.
pub open spec fn trusted_remote_records(records: Seq<SyncDevicePublicKeyRecord>, local_device_id: Seq<char>) -> Seq<SyncDevicePublicKeyRecord>
    decreases records.len(),
{
    if records.len() == 0 {
        Seq::empty()
    } else if records.last().trusted && records.last().device_id@ != local_device_id {
        trusted_remote_records(records.drop_last(), local_device_id).push(records.last())
    } else {
        trusted_remote_records(records.drop_last(), local_device_id)
    }
}

/// What the credential check of a cycle does next: it is decided, or it needs the signer's
/// public key, or the profile's trust record for the signer's device.
#[derive(Debug, PartialEq, Eq)]
pub enum CredentialCheckStep {
    Decided(Result<(), ProfileSyncCredentialError>),
    ReadSignerKey,
    ReadTrustRecord,
}

/// The next step of the credential check of a cycle of `profile` that encrypts with `key_id`
/// (see `credential_check`), given what has been read so far: `signer_key` once the signer's
/// public key has been read, and `trusted_key` once the trust record of its device has been
/// looked up. The signer's key is needed only when `key_id` is the active key, and the trust
/// record only when the signer is the local device; a decided result holds whatever the
/// inputs not yet read would have been.
pub fn credential_check_step(
    profile: &str,
    key_id: &str,
    active_key_id: &str,
    local_device_id: &str,
    signer_key: &Option<SyncDevicePublicKey>,
    trusted_key: &Option<Option<SyncDevicePublicKeyRecord>>,
) -> (step: CredentialCheckStep)
    ensures
        active_key_id@ != key_id@ ==> (step matches CredentialCheckStep::Decided(r)
            && forall|s: SyncDevicePublicKey, t: Option<SyncDevicePublicKeyRecord>|
                #[trigger] credential_check(r, profile@, key_id@, active_key_id@, local_device_id@, s, t)),
        active_key_id@ == key_id@ && signer_key is None ==> step is ReadSignerKey,
        *signer_key matches Some(s) ==> (active_key_id@ == key_id@ && s.device_id@ != local_device_id@ ==> (
            step matches CredentialCheckStep::Decided(r)
            && forall|t: Option<SyncDevicePublicKeyRecord>|
                #[trigger] credential_check(r, profile@, key_id@, active_key_id@, local_device_id@, s, t))),
        *signer_key matches Some(s) ==> (active_key_id@ == key_id@ && s.device_id@ == local_device_id@
            && trusted_key is None ==> step is ReadTrustRecord),
        *signer_key matches Some(s) ==> (*trusted_key matches Some(t) ==> (
            active_key_id@ == key_id@ && s.device_id@ == local_device_id@ ==> (step matches CredentialCheckStep::Decided(r)
            && credential_check(r, profile@, key_id@, active_key_id@, local_device_id@, s, t)))),
{
    if !str_equal(active_key_id, key_id) {
        let unread = SyncDevicePublicKey { device_id: String::new(), bytes: Vec::new() };
        return CredentialCheckStep::Decided(
            validate_settings_sync_cycle_credentials(profile, key_id, active_key_id, local_device_id, &unread, &None),
        );
    }
    match signer_key {
        None => CredentialCheckStep::ReadSignerKey,
        Some(key) => {
            if !str_equal(key.device_id.as_str(), local_device_id) {
                return CredentialCheckStep::Decided(
                    validate_settings_sync_cycle_credentials(profile, key_id, active_key_id, local_device_id, key, &None),
                );
            }
            match trusted_key {
                None => CredentialCheckStep::ReadTrustRecord,
                Some(record) => CredentialCheckStep::Decided(
                    validate_settings_sync_cycle_credentials(profile, key_id, active_key_id, local_device_id, key, record),
                ),
            }
        },
    }
}

/// The trusted remote devices a cycle of `profile` receives from: the trusted records of
/// other devices, in order, or the error that there are more than `max_devices` of them.
pub fn trusted_remote_device_public_keys(
    profile: &str,
    records: Vec<SyncDevicePublicKeyRecord>,
    local_device_id: &str,
    max_devices: u32,
) -> (trusted: Result<Vec<SyncDevicePublicKeyRecord>, ProfileSyncReceiveError>)
    ensures
        ({
            let remote = trusted_remote_records(records@, local_device_id@);
            if remote.len() > max_devices {
                trusted matches Err(ProfileSyncReceiveError::TrustedDeviceLimitExceeded { profile: p, trusted_device_count: n, max_devices: m })
                    && p@ == profile@ && n == remote.len() && m == max_devices
            } else {
                trusted matches Ok(t) && t@ == remote
            }
        }),
{
    let mut remote: Vec<SyncDevicePublicKeyRecord> = Vec::new();
    let mut rest = records;
    let ghost all = rest@;
    let ghost mut taken: Seq<SyncDevicePublicKeyRecord> = Seq::empty();
    while rest.len() > 0
        invariant
            all == taken + rest@,
            remote@ == trusted_remote_records(taken, local_device_id@),
            remote@.len() <= taken.len(),
            taken.len() + rest@.len() == all.len(),
        decreases rest.len(),
    {
        let record = rest.remove(0);
        let ghost before = taken;
        proof {
            taken = taken.push(record);
            assert(taken.drop_last() =~= before);
            assert(all =~= taken + rest@);
        }
        if record.trusted && !str_equal(record.device_id.as_str(), local_device_id) {
            remote.push(record);
        }
    }
    assert(taken =~= all);
    if remote.len() > max_devices as usize {
        return Err(ProfileSyncReceiveError::TrustedDeviceLimitExceeded {
            profile: owned(profile),
            trusted_device_count: remote.len(),
            max_devices,
        });
    }
    Ok(remote)
}

} // verus!
