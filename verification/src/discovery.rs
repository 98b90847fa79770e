//! Peer discovery trust: which discovered profile-sync peers this device may talk to, and why
//! the others were turned away.
use vstd::prelude::*;
use crate::text::{append_str, owned, str_equal};
use crate::object_ids::contains_string;

verus! {

/// The discovery mechanism through which a peer advertisement was found.
#[derive(Clone, Copy, Debug, PartialEq, Eq, Structural)]
pub enum ProfileSyncPeerDiscoveryProtocol {
    Libp2pRendezvous,
    Libp2pKademlia,
    Ipns,
    IrohRendezvous,
    LocalSimulation,
}

/// The wire name of a discovery protocol.
pub open spec fn protocol_name(protocol: ProfileSyncPeerDiscoveryProtocol) -> Seq<char> {
    match protocol {
        ProfileSyncPeerDiscoveryProtocol::Libp2pRendezvous => "libp2p-rendezvous"@,
        ProfileSyncPeerDiscoveryProtocol::Libp2pKademlia => "libp2p-kademlia"@,
        ProfileSyncPeerDiscoveryProtocol::Ipns => "ipns"@,
        ProfileSyncPeerDiscoveryProtocol::IrohRendezvous => "iroh-rendezvous"@,
        ProfileSyncPeerDiscoveryProtocol::LocalSimulation => "local-simulation"@,
    }
}

impl ProfileSyncPeerDiscoveryProtocol {
    /// The wire name of this protocol.
    pub fn as_str(&self) -> (name: &'static str)
        ensures
            name@ == protocol_name(*self),
    {
        match self {
            ProfileSyncPeerDiscoveryProtocol::Libp2pRendezvous => "libp2p-rendezvous",
            ProfileSyncPeerDiscoveryProtocol::Libp2pKademlia => "libp2p-kademlia",
            ProfileSyncPeerDiscoveryProtocol::Ipns => "ipns",
            ProfileSyncPeerDiscoveryProtocol::IrohRendezvous => "iroh-rendezvous",
            ProfileSyncPeerDiscoveryProtocol::LocalSimulation => "local-simulation",
        }
    }
}

/// The capability every profile-sync peer advertises: it serves profile-sync frames over TCP.
pub open spec fn service_frame_capability() -> Seq<char> {
    "profile-sync/service-frame-tcp"@
}

/// The capability of peers that transfer sync objects.
pub open spec fn object_transfer_capability() -> Seq<char> {
    "profile-sync/object-transfer"@
}

/// The capability of peers that retain sync objects locally.
pub open spec fn local_retention_capability() -> Seq<char> {
    "profile-sync/local-retention"@
}

/// The name of the service-frame capability.
pub fn profile_sync_peer_discovery_capability() -> (capability: &'static str)
    ensures
        capability@ == service_frame_capability(),
{
    "profile-sync/service-frame-tcp"
}

/// The name of the object-transfer capability.
pub fn profile_sync_peer_discovery_capability_object_transfer() -> (capability: &'static str)
    ensures
        capability@ == object_transfer_capability(),
{
    "profile-sync/object-transfer"
}

/// The name of the local-retention capability.
pub fn profile_sync_peer_discovery_capability_local_retention() -> (capability: &'static str)
    ensures
        capability@ == local_retention_capability(),
{
    "profile-sync/local-retention"
}

/// The signature by which a device vouches for its own advertisement.
#[derive(Clone, Debug, PartialEq, Eq)]
pub struct ProfileSyncPeerAdvertisementSignature {
    pub version: u8,
    pub device_id: String,
    pub public_key: Vec<u8>,
    pub signature: Vec<u8>,
}

/// What a peer announces about itself on a discovery network.
#[derive(Clone, Debug, PartialEq, Eq)]
pub struct ProfileSyncPeerAdvertisement {
    pub network_id: String,
    pub node_id: String,
    pub provider_id: String,
    pub service_addr: String,
    pub capabilities: Vec<String>,
    pub membership_epoch: i64,
    pub sequence: u64,
    pub identity_signature: Option<ProfileSyncPeerAdvertisementSignature>,
}

/// An advertisement together with where it was found.
#[derive(Clone, Debug, PartialEq, Eq)]
pub struct ProfileSyncPeerDiscoveryResult {
    pub protocol: ProfileSyncPeerDiscoveryProtocol,
    pub namespace: String,
    pub advertisement: ProfileSyncPeerAdvertisement,
}

/// The local trust record of a device's public key.
#[derive(Clone, Debug, PartialEq, Eq)]
pub struct SyncDevicePublicKeyRecord {
    pub device_id: String,
    pub public_key: Vec<u8>,
    pub trusted: bool,
    pub membership_epoch: i64,
}

/// Why a discovered peer was not trusted.
#[derive(Clone, Copy, Debug, PartialEq, Eq, Structural)]
pub enum ProfileSyncPeerDiscoveryTrustRejection {
    WrongNetwork,
    LocalDevice,
    MissingProfileSyncServiceFrameCapability,
    StaleDiscoverySequence,
    ReplayedDiscoverySequence,
    UnknownDevicePublicKey,
    UntrustedDevicePublicKey,
    MissingSignedIdentity,
    MissingRequiredCapability,
    SignatureDeviceMismatch,
    SignaturePublicKeyMismatch,
    SignerMembershipEpochTooNew,
    InvalidSignature,
}

/// The report name of a rejection reason.
pub open spec fn rejection_name(reason: ProfileSyncPeerDiscoveryTrustRejection) -> Seq<char> {
    match reason {
        ProfileSyncPeerDiscoveryTrustRejection::WrongNetwork => "wrong_network"@,
        ProfileSyncPeerDiscoveryTrustRejection::LocalDevice => "local_device"@,
        ProfileSyncPeerDiscoveryTrustRejection::MissingProfileSyncServiceFrameCapability =>
            "missing_profile_sync_service_frame_capability"@,
        ProfileSyncPeerDiscoveryTrustRejection::StaleDiscoverySequence => "stale_discovery_sequence"@,
        ProfileSyncPeerDiscoveryTrustRejection::ReplayedDiscoverySequence => "replayed_discovery_sequence"@,
        ProfileSyncPeerDiscoveryTrustRejection::UnknownDevicePublicKey => "unknown_device_public_key"@,
        ProfileSyncPeerDiscoveryTrustRejection::UntrustedDevicePublicKey => "untrusted_device_public_key"@,
        ProfileSyncPeerDiscoveryTrustRejection::MissingSignedIdentity => "missing_signed_identity"@,
        ProfileSyncPeerDiscoveryTrustRejection::MissingRequiredCapability => "missing_required_capability"@,
        ProfileSyncPeerDiscoveryTrustRejection::SignatureDeviceMismatch => "signature_device_mismatch"@,
        ProfileSyncPeerDiscoveryTrustRejection::SignaturePublicKeyMismatch => "signature_public_key_mismatch"@,
        ProfileSyncPeerDiscoveryTrustRejection::SignerMembershipEpochTooNew => "signer_membership_epoch_too_new"@,
        ProfileSyncPeerDiscoveryTrustRejection::InvalidSignature => "invalid_signature"@,
    }
}

impl ProfileSyncPeerDiscoveryTrustRejection {
    /// The report name of this rejection reason.
    pub fn as_str(&self) -> (name: &'static str)
        ensures
            name@ == rejection_name(*self),
    {
        match self {
            ProfileSyncPeerDiscoveryTrustRejection::WrongNetwork => "wrong_network",
            ProfileSyncPeerDiscoveryTrustRejection::LocalDevice => "local_device",
            ProfileSyncPeerDiscoveryTrustRejection::MissingProfileSyncServiceFrameCapability =>
                "missing_profile_sync_service_frame_capability",
            ProfileSyncPeerDiscoveryTrustRejection::StaleDiscoverySequence => "stale_discovery_sequence",
            ProfileSyncPeerDiscoveryTrustRejection::ReplayedDiscoverySequence => "replayed_discovery_sequence",
            ProfileSyncPeerDiscoveryTrustRejection::UnknownDevicePublicKey => "unknown_device_public_key",
            ProfileSyncPeerDiscoveryTrustRejection::UntrustedDevicePublicKey => "untrusted_device_public_key",
            ProfileSyncPeerDiscoveryTrustRejection::MissingSignedIdentity => "missing_signed_identity",
            ProfileSyncPeerDiscoveryTrustRejection::MissingRequiredCapability => "missing_required_capability",
            ProfileSyncPeerDiscoveryTrustRejection::SignatureDeviceMismatch => "signature_device_mismatch",
            ProfileSyncPeerDiscoveryTrustRejection::SignaturePublicKeyMismatch => "signature_public_key_mismatch",
            ProfileSyncPeerDiscoveryTrustRejection::SignerMembershipEpochTooNew => "signer_membership_epoch_too_new",
            ProfileSyncPeerDiscoveryTrustRejection::InvalidSignature => "invalid_signature",
        }
    }
}

/// Distinct rejection reasons have distinct report names.
pub proof fn lemma_rejection_names_distinct(
    a: ProfileSyncPeerDiscoveryTrustRejection,
    b: ProfileSyncPeerDiscoveryTrustRejection,
)
    requires
        a != b,
    ensures
        rejection_name(a) != rejection_name(b),
{
    reveal_strlit("wrong_network");
    reveal_strlit("local_device");
    reveal_strlit("missing_profile_sync_service_frame_capability");
    reveal_strlit("stale_discovery_sequence");
    reveal_strlit("replayed_discovery_sequence");
    reveal_strlit("unknown_device_public_key");
    reveal_strlit("untrusted_device_public_key");
    reveal_strlit("missing_signed_identity");
    reveal_strlit("missing_required_capability");
    reveal_strlit("signature_device_mismatch");
    reveal_strlit("signature_public_key_mismatch");
    reveal_strlit("signer_membership_epoch_too_new");
    reveal_strlit("invalid_signature");
    let x = rejection_name(a);
    let y = rejection_name(b);
    if x == y {
        assert(x.len() == y.len());
        assert(x[0] == y[0]);
        assert(x[1] == y[1]);
        assert(x[2] == y[2]);
        assert(x[3] == y[3]);
        assert(x[8] == y[8]);
        assert(x[9] == y[9]);
        assert(x[10] == y[10]);
        assert(x[11] == y[11]);
        assert(x[12] == y[12]);
        assert(x[13] == y[13]);
    }
}

/// A discovered peer that was not trusted, with the reason.
#[derive(Clone, Debug, PartialEq, Eq)]
pub struct RejectedProfileSyncPeerDiscoveryCandidate {
    pub protocol: ProfileSyncPeerDiscoveryProtocol,
    pub namespace: String,
    pub network_id: String,
    pub node_id: String,
    pub provider_id: String,
    pub reason: ProfileSyncPeerDiscoveryTrustRejection,
}

/// Whether an advertisement names `capability` among its capabilities.
pub open spec fn advertises(advertisement: ProfileSyncPeerAdvertisement, capability: Seq<char>) -> bool {
    advertisement.capabilities.deep_view().contains(capability)
}

/// Whether an advertisement names every capability of `required`.
pub open spec fn advertises_all(advertisement: ProfileSyncPeerAdvertisement, required: Seq<Seq<char>>) -> bool {
    forall|j: int| 0 <= j < required.len() ==> advertises(advertisement, #[trigger] required[j])
}

impl ProfileSyncPeerAdvertisement {
    /// Whether this advertisement names `capability`.
    pub fn has_capability(&self, capability: &str) -> (has: bool)
        ensures
            has == advertises(*self, capability@),
    {
        contains_string(&self.capabilities, capability)
    }

    /// Whether this advertisement names the service-frame capability.
    pub fn supports_profile_sync_service_frames(&self) -> (supports: bool)
        ensures
            supports == advertises(*self, service_frame_capability()),
    {
        self.has_capability(profile_sync_peer_discovery_capability())
    }
}

/// The rejection, if any, that a candidate earns before its key is looked up: it was found on
/// another network, it is this device, or it does not serve profile-sync frames.
pub open spec fn precheck_rejection_spec(
    network_id: Seq<char>,
    local_device_id: Seq<char>,
    candidate: ProfileSyncPeerDiscoveryResult,
) -> Option<ProfileSyncPeerDiscoveryTrustRejection> {
    let advertisement = candidate.advertisement;
    if advertisement.network_id@ != network_id {
        Some(ProfileSyncPeerDiscoveryTrustRejection::WrongNetwork)
    } else if advertisement.node_id@ == local_device_id {
        Some(ProfileSyncPeerDiscoveryTrustRejection::LocalDevice)
    } else if !advertises(advertisement, service_frame_capability()) {
        Some(ProfileSyncPeerDiscoveryTrustRejection::MissingProfileSyncServiceFrameCapability)
    } else {
        None
    }
}

/// The rejection, if any, that the local key record of the advertising device gives, before the
/// signature itself is checked: no record, an untrusted key, a signer epoch newer than the
/// advertised one, no signature, or a signature by another device or another key.
pub open spec fn key_rejection_spec(
    candidate: ProfileSyncPeerDiscoveryResult,
    record: Option<SyncDevicePublicKeyRecord>,
) -> Option<ProfileSyncPeerDiscoveryTrustRejection> {
    let advertisement = candidate.advertisement;
    match record {
        None => Some(ProfileSyncPeerDiscoveryTrustRejection::UnknownDevicePublicKey),
        Some(record) => {
            if !record.trusted {
                Some(ProfileSyncPeerDiscoveryTrustRejection::UntrustedDevicePublicKey)
            } else if record.membership_epoch > advertisement.membership_epoch {
                Some(ProfileSyncPeerDiscoveryTrustRejection::SignerMembershipEpochTooNew)
            } else {
                match advertisement.identity_signature {
                    None => Some(ProfileSyncPeerDiscoveryTrustRejection::MissingSignedIdentity),
                    Some(signature) => {
                        if signature.device_id@ != advertisement.node_id@ {
                            Some(ProfileSyncPeerDiscoveryTrustRejection::SignatureDeviceMismatch)
                        } else if signature.public_key@ != record.public_key@ {
                            Some(ProfileSyncPeerDiscoveryTrustRejection::SignaturePublicKeyMismatch)
                        } else {
                            None
                        }
                    },
                }
            }
        },
    }
}

/// Why a candidate is not trusted, checked in order: the network, the device, the service-frame
/// capability, the local key record and signature fields, and last whether the signature
/// verifies against the recorded key (`signature_verifies`). `None` when it is trusted.
pub open spec fn trust_rejection_spec(
    network_id: Seq<char>,
    local_device_id: Seq<char>,
    candidate: ProfileSyncPeerDiscoveryResult,
    record: Option<SyncDevicePublicKeyRecord>,
    signature_verifies: bool,
) -> Option<ProfileSyncPeerDiscoveryTrustRejection> {
    if precheck_rejection_spec(network_id, local_device_id, candidate) is Some {
        precheck_rejection_spec(network_id, local_device_id, candidate)
    } else if key_rejection_spec(candidate, record) is Some {
        key_rejection_spec(candidate, record)
    } else if !signature_verifies {
        Some(ProfileSyncPeerDiscoveryTrustRejection::InvalidSignature)
    } else {
        None
    }
}

/// Whether two byte strings are equal.
pub fn bytes_equal(a: &Vec<u8>, b: &Vec<u8>) -> (equal: bool)
    ensures
        equal == (a@ == b@),
{
    if a.len() != b.len() {
        return false;
    }
    let mut i: usize = 0;
    while i < a.len()
        invariant
            a.len() == b.len(),
            i <= a.len(),
            forall|j: int| 0 <= j < i ==> a@[j] == b@[j],
        decreases a.len() - i,
    {
        if a[i] != b[i] {
            return false;
        }
        i = i + 1;
    }
    assert(a@ =~= b@);
    true
}

/// The rejection a candidate earns before any key lookup (see `precheck_rejection_spec`).
pub fn discovery_precheck_rejection(
    network_id: &str,
    local_device_id: &str,
    candidate: &ProfileSyncPeerDiscoveryResult,
) -> (rejection: Option<ProfileSyncPeerDiscoveryTrustRejection>)
    ensures
        rejection == precheck_rejection_spec(network_id@, local_device_id@, *candidate),
{
    let advertisement = &candidate.advertisement;
    if !str_equal(advertisement.network_id.as_str(), network_id) {
        return Some(ProfileSyncPeerDiscoveryTrustRejection::WrongNetwork);
    }
    if str_equal(advertisement.node_id.as_str(), local_device_id) {
        return Some(ProfileSyncPeerDiscoveryTrustRejection::LocalDevice);
    }
    if !advertisement.supports_profile_sync_service_frames() {
        return Some(ProfileSyncPeerDiscoveryTrustRejection::MissingProfileSyncServiceFrameCapability);
    }
    None
}

/// The rejection that the advertising device's key record gives (see `key_rejection_spec`).
pub fn discovery_key_rejection(
    candidate: &ProfileSyncPeerDiscoveryResult,
    record: &Option<SyncDevicePublicKeyRecord>,
) -> (rejection: Option<ProfileSyncPeerDiscoveryTrustRejection>)
    ensures
        rejection == key_rejection_spec(*candidate, *record),
{
    let advertisement = &candidate.advertisement;
    match record {
        None => Some(ProfileSyncPeerDiscoveryTrustRejection::UnknownDevicePublicKey),
        Some(record) => {
            if !record.trusted {
                return Some(ProfileSyncPeerDiscoveryTrustRejection::UntrustedDevicePublicKey);
            }
            if record.membership_epoch > advertisement.membership_epoch {
                return Some(ProfileSyncPeerDiscoveryTrustRejection::SignerMembershipEpochTooNew);
            }
            match &advertisement.identity_signature {
                None => Some(ProfileSyncPeerDiscoveryTrustRejection::MissingSignedIdentity),
                Some(signature) => {
                    if !str_equal(signature.device_id.as_str(), advertisement.node_id.as_str()) {
                        Some(ProfileSyncPeerDiscoveryTrustRejection::SignatureDeviceMismatch)
                    } else if !bytes_equal(&signature.public_key, &record.public_key) {
                        Some(ProfileSyncPeerDiscoveryTrustRejection::SignaturePublicKeyMismatch)
                    } else {
                        None
                    }
                },
            }
        },
    }
}

/// Why a discovered peer is not trusted, or `None` when it is: `record` is the local key record
/// of the advertising device and `signature_verifies` whether its signature over the
/// advertisement verifies against that key (see `trust_rejection_spec`).
pub fn profile_sync_peer_discovery_trust_rejection(
    network_id: &str,
    local_device_id: &str,
    candidate: &ProfileSyncPeerDiscoveryResult,
    record: &Option<SyncDevicePublicKeyRecord>,
    signature_verifies: bool,
) -> (rejection: Option<ProfileSyncPeerDiscoveryTrustRejection>)
    ensures
        rejection == trust_rejection_spec(network_id@, local_device_id@, *candidate, *record, signature_verifies),
{
    let precheck = discovery_precheck_rejection(network_id, local_device_id, candidate);
    if precheck.is_some() {
        return precheck;
    }
    let key = discovery_key_rejection(candidate, record);
    if key.is_some() {
        return key;
    }
    if !signature_verifies {
        return Some(ProfileSyncPeerDiscoveryTrustRejection::InvalidSignature);
    }
    None
}

/// A discovered peer is trusted exactly when it was found on this network, is another device,
/// serves profile-sync frames, has a trusted key record whose membership epoch is not newer than
/// the advertised one, signs its identity as the advertised node with the recorded key, and the
/// signature verifies. Each rejection reason is given only when the check it names fails.
pub proof fn lemma_trust_rejection_reasons(
    network_id: Seq<char>,
    local_device_id: Seq<char>,
    candidate: ProfileSyncPeerDiscoveryResult,
    record: Option<SyncDevicePublicKeyRecord>,
    signature_verifies: bool,
)
    ensures
        ({
            let a = candidate.advertisement;
            let rejection = trust_rejection_spec(network_id, local_device_id, candidate, record, signature_verifies);
            &&& rejection is None <==> {
                &&& a.network_id@ == network_id
                &&& a.node_id@ != local_device_id
                &&& advertises(a, service_frame_capability())
                &&& record is Some
                &&& record.unwrap().trusted
                &&& record.unwrap().membership_epoch <= a.membership_epoch
                &&& a.identity_signature is Some
                &&& a.identity_signature.unwrap().device_id@ == a.node_id@
                &&& a.identity_signature.unwrap().public_key@ == record.unwrap().public_key@
                &&& signature_verifies
            }
            &&& rejection == Some(ProfileSyncPeerDiscoveryTrustRejection::WrongNetwork) ==> a.network_id@ != network_id
            &&& rejection == Some(ProfileSyncPeerDiscoveryTrustRejection::LocalDevice) ==> a.node_id@ == local_device_id
            &&& rejection == Some(ProfileSyncPeerDiscoveryTrustRejection::MissingProfileSyncServiceFrameCapability)
                ==> !advertises(a, service_frame_capability())
            &&& rejection == Some(ProfileSyncPeerDiscoveryTrustRejection::UnknownDevicePublicKey) ==> record is None
            &&& rejection == Some(ProfileSyncPeerDiscoveryTrustRejection::UntrustedDevicePublicKey)
                ==> record is Some && !record.unwrap().trusted
            &&& rejection == Some(ProfileSyncPeerDiscoveryTrustRejection::SignerMembershipEpochTooNew)
                ==> record is Some && record.unwrap().membership_epoch > a.membership_epoch
            &&& rejection == Some(ProfileSyncPeerDiscoveryTrustRejection::MissingSignedIdentity) ==> a.identity_signature is None
            &&& rejection == Some(ProfileSyncPeerDiscoveryTrustRejection::SignatureDeviceMismatch)
                ==> a.identity_signature is Some && a.identity_signature.unwrap().device_id@ != a.node_id@
            &&& rejection == Some(ProfileSyncPeerDiscoveryTrustRejection::SignaturePublicKeyMismatch)
                ==> record is Some && a.identity_signature is Some
                    && a.identity_signature.unwrap().public_key@ != record.unwrap().public_key@
            &&& rejection == Some(ProfileSyncPeerDiscoveryTrustRejection::InvalidSignature) ==> !signature_verifies
            &&& rejection != Some(ProfileSyncPeerDiscoveryTrustRejection::StaleDiscoverySequence)
            &&& rejection != Some(ProfileSyncPeerDiscoveryTrustRejection::ReplayedDiscoverySequence)
            &&& rejection != Some(ProfileSyncPeerDiscoveryTrustRejection::MissingRequiredCapability)
        }),
{
}

/// The rejection record of `candidate` with `reason`.
pub open spec fn rejected_spec(
    candidate: ProfileSyncPeerDiscoveryResult,
    reason: ProfileSyncPeerDiscoveryTrustRejection,
) -> RejectedProfileSyncPeerDiscoveryCandidate {
    RejectedProfileSyncPeerDiscoveryCandidate {
        protocol: candidate.protocol,
        namespace: candidate.namespace,
        network_id: candidate.advertisement.network_id,
        node_id: candidate.advertisement.node_id,
        provider_id: candidate.advertisement.provider_id,
        reason,
    }
}

/// An advertisement that names one node and would be signed by another device.
#[derive(Clone, Debug, PartialEq, Eq)]
pub struct AdvertisementSignerMismatch {
    pub node_id: String,
    pub signer_device_id: String,
}

impl AdvertisementSignerMismatch {
    /// The message of the mismatch.
    pub fn message(&self) -> (message: String)
        ensures
            message@ == "profile sync peer advertisement node "@ + self.node_id@ + " cannot be signed by device "@
                + self.signer_device_id@,
    {
        let mut m = owned("profile sync peer advertisement node ");
        append_str(&mut m, self.node_id.as_str());
        append_str(&mut m, " cannot be signed by device ");
        append_str(&mut m, self.signer_device_id.as_str());
        m
    }
}

/// Checks, before signing, that the advertisement's node is the device that signs it.
pub fn check_advertisement_signer(node_id: &str, signer_device_id: &str) -> (result: Result<(), AdvertisementSignerMismatch>)
    ensures
        node_id@ == signer_device_id@ ==> result is Ok,
        node_id@ != signer_device_id@ ==> (result matches Err(e)
            && e.node_id@ == node_id@ && e.signer_device_id@ == signer_device_id@),
{
    if str_equal(node_id, signer_device_id) {
        Ok(())
    } else {
        Err(AdvertisementSignerMismatch { node_id: owned(node_id), signer_device_id: owned(signer_device_id) })
    }
}

/// The rejection record of `candidate` with `reason`.
pub fn rejected_discovery_candidate(
    candidate: ProfileSyncPeerDiscoveryResult,
    reason: ProfileSyncPeerDiscoveryTrustRejection,
) -> (rejected: RejectedProfileSyncPeerDiscoveryCandidate)
    ensures
        rejected == rejected_spec(candidate, reason),
{
    RejectedProfileSyncPeerDiscoveryCandidate {
        protocol: candidate.protocol,
        namespace: candidate.namespace,
        network_id: candidate.advertisement.network_id,
        node_id: candidate.advertisement.node_id,
        provider_id: candidate.advertisement.provider_id,
        reason,
    }
}


/// Trusted peers, and the discovered peers that were turned away.
#[derive(Clone, Debug, PartialEq, Eq)]
pub struct TrustedProfileSyncPeerDiscoveryReport {
    pub trusted_peers: Vec<ProfileSyncPeerDiscoveryResult>,
    pub rejected_peers: Vec<RejectedProfileSyncPeerDiscoveryCandidate>,
}

impl TrustedProfileSyncPeerDiscoveryReport {
    /// A report with no peers.
    pub fn new() -> (report: Self)
        ensures
            report.trusted_peers@.len() == 0,
            report.rejected_peers@.len() == 0,
    {
        TrustedProfileSyncPeerDiscoveryReport { trusted_peers: Vec::new(), rejected_peers: Vec::new() }
    }

    /// The number of trusted peers.
    pub fn trusted_peer_count(&self) -> (count: usize)
        ensures
            count == self.trusted_peers@.len(),
    {
        self.trusted_peers.len()
    }

    /// The number of rejected peers.
    pub fn rejected_peer_count(&self) -> (count: usize)
        ensures
            count == self.rejected_peers@.len(),
    {
        self.rejected_peers.len()
    }

    /// Whether at least one peer is trusted.
    pub fn has_trusted_peer(&self) -> (has: bool)
        ensures
            has == (self.trusted_peers@.len() > 0),
    {
        self.trusted_peers.len() > 0
    }
}

impl Default for TrustedProfileSyncPeerDiscoveryReport {
    fn default() -> (report: Self)
        ensures
            report.trusted_peers@.len() == 0,
            report.rejected_peers@.len() == 0,
    {
        TrustedProfileSyncPeerDiscoveryReport::new()
    }
}

/// What identifies one advertised peer across advertisements: where it was found and the
/// network, node and provider it names.
pub open spec fn freshness_key(r: ProfileSyncPeerDiscoveryResult) -> (ProfileSyncPeerDiscoveryProtocol, Seq<char>, Seq<char>, Seq<char>, Seq<char>) {
    (r.protocol, r.namespace@, r.advertisement.network_id@, r.advertisement.node_id@, r.advertisement.provider_id@)
}

/// The position of the first result in `s`, at or after `i`, whose key is `key`; -1 if none.
pub open spec fn key_index_from(
    s: Seq<ProfileSyncPeerDiscoveryResult>,
    key: (ProfileSyncPeerDiscoveryProtocol, Seq<char>, Seq<char>, Seq<char>, Seq<char>),
    i: int,
) -> int
    decreases s.len() - i,
{
    if i < 0 || i >= s.len() {
        -1
    } else if freshness_key(s[i]) == key {
        i
    } else {
        key_index_from(s, key, i + 1)
    }
}

/// The position of the first result in `s` whose key is `key`; -1 if none.
pub open spec fn key_index(
    s: Seq<ProfileSyncPeerDiscoveryResult>,
    key: (ProfileSyncPeerDiscoveryProtocol, Seq<char>, Seq<char>, Seq<char>, Seq<char>),
) -> int {
    key_index_from(s, key, 0)
}

/// Whether no two results of `s` share a key.
pub open spec fn distinct_keys(s: Seq<ProfileSyncPeerDiscoveryResult>) -> bool {
    forall|a: int, b: int| 0 <= a < b < s.len() ==> freshness_key(#[trigger] s[a]) != freshness_key(#[trigger] s[b])
}

/// Trusted candidates taken in order, keeping one result per key: a later result with a
/// higher sequence replaces the kept one (which is rejected as stale); one with the same
/// sequence is rejected as a replay; one with a lower sequence is rejected as stale.
/// Yields the kept results and the rejections, in the order they were made.
pub open spec fn freshness_fold(candidates: Seq<ProfileSyncPeerDiscoveryResult>) -> (Seq<ProfileSyncPeerDiscoveryResult>, Seq<RejectedProfileSyncPeerDiscoveryCandidate>)
    decreases candidates.len(),
{
    if candidates.len() == 0 {
        (Seq::empty(), Seq::empty())
    } else {
        let previous = freshness_fold(candidates.drop_last());
        let fresh = previous.0;
        let rejected = previous.1;
        let candidate = candidates.last();
        let i = key_index(fresh, freshness_key(candidate));
        if i < 0 {
            (fresh.push(candidate), rejected)
        } else if candidate.advertisement.sequence > fresh[i].advertisement.sequence {
            (fresh.update(i, candidate), rejected.push(rejected_spec(fresh[i], ProfileSyncPeerDiscoveryTrustRejection::StaleDiscoverySequence)))
        } else if candidate.advertisement.sequence == fresh[i].advertisement.sequence {
            (fresh, rejected.push(rejected_spec(candidate, ProfileSyncPeerDiscoveryTrustRejection::ReplayedDiscoverySequence)))
        } else {
            (fresh, rejected.push(rejected_spec(candidate, ProfileSyncPeerDiscoveryTrustRejection::StaleDiscoverySequence)))
        }
    }
}

/// Whether two results share a key.
fn same_freshness_key(a: &ProfileSyncPeerDiscoveryResult, b: &ProfileSyncPeerDiscoveryResult) -> (same: bool)
    ensures
        same == (freshness_key(*a) == freshness_key(*b)),
{
    a.protocol == b.protocol
        && str_equal(a.namespace.as_str(), b.namespace.as_str())
        && str_equal(a.advertisement.network_id.as_str(), b.advertisement.network_id.as_str())
        && str_equal(a.advertisement.node_id.as_str(), b.advertisement.node_id.as_str())
        && str_equal(a.advertisement.provider_id.as_str(), b.advertisement.provider_id.as_str())
}

/// The position of the kept result that shares `candidate`'s key.
fn freshness_key_position(
    fresh: &Vec<ProfileSyncPeerDiscoveryResult>,
    candidate: &ProfileSyncPeerDiscoveryResult,
) -> (position: Option<usize>)
    ensures
        match position {
            None => key_index(fresh@, freshness_key(*candidate)) == -1,
            Some(i) => key_index(fresh@, freshness_key(*candidate)) == i && i < fresh@.len(),
        },
{
    let ghost key = freshness_key(*candidate);
    let mut i: usize = 0;
    while i < fresh.len()
        invariant
            i <= fresh@.len(),
            key == freshness_key(*candidate),
            key_index(fresh@, key) == key_index_from(fresh@, key, i as int),
        decreases fresh.len() - i,
    {
        if same_freshness_key(&fresh[i], candidate) {
            return Some(i);
        }
        i = i + 1;
    }
    None
}

/// Keeps the freshest advertisement of each peer among `candidates` (see `freshness_fold`),
/// adding the superseded and replayed ones to the rejections of `report`.
pub fn freshest_trusted_profile_sync_peer_discovery_results(
    candidates: Vec<ProfileSyncPeerDiscoveryResult>,
    report: &mut TrustedProfileSyncPeerDiscoveryReport,
) -> (freshest: Vec<ProfileSyncPeerDiscoveryResult>)
    ensures
        freshest@ == freshness_fold(candidates@).0,
        final(report).trusted_peers@ == old(report).trusted_peers@,
        final(report).rejected_peers@ == old(report).rejected_peers@ + freshness_fold(candidates@).1,
{
    let mut fresh: Vec<ProfileSyncPeerDiscoveryResult> = Vec::new();
    let mut rest = candidates;
    let ghost all = rest@;
    let ghost start = report.rejected_peers@;
    let ghost mut taken: Seq<ProfileSyncPeerDiscoveryResult> = Seq::empty();
    assert(taken =~= all.take(0));
    while rest.len() > 0
        invariant
            all == taken + rest@,
            fresh@ == freshness_fold(taken).0,
            report.rejected_peers@ == start + freshness_fold(taken).1,
            report.trusted_peers@ == old(report).trusted_peers@,
        decreases rest.len(),
    {
        let candidate = rest.remove(0);
        let ghost before = taken;
        proof {
            taken = taken.push(candidate);
            assert(taken.drop_last() =~= before);
            assert(all =~= taken + rest@);
        }
        match freshness_key_position(&fresh, &candidate) {
            None => {
                fresh.push(candidate);
            },
            Some(i) => {
                let existing_sequence = fresh[i].advertisement.sequence;
                if candidate.advertisement.sequence > existing_sequence {
                    let ghost old_fresh = fresh@;
                    let stale = fresh.remove(i);
                    fresh.insert(i, candidate);
                    assert(fresh@ =~= old_fresh.update(i as int, candidate));
                    let rejected = rejected_discovery_candidate(stale, ProfileSyncPeerDiscoveryTrustRejection::StaleDiscoverySequence);
                    report.rejected_peers.push(rejected);
                } else if candidate.advertisement.sequence == existing_sequence {
                    let rejected = rejected_discovery_candidate(candidate, ProfileSyncPeerDiscoveryTrustRejection::ReplayedDiscoverySequence);
                    report.rejected_peers.push(rejected);
                } else {
                    let rejected = rejected_discovery_candidate(candidate, ProfileSyncPeerDiscoveryTrustRejection::StaleDiscoverySequence);
                    report.rejected_peers.push(rejected);
                }
            },
        }
        assert(report.rejected_peers@ =~= start + freshness_fold(taken).1);
    }
    assert(taken =~= all);
    fresh
}


/// Candidates split by their trust rejections (`rejections[k]` belongs to `candidates[k]`):
/// those with none, in order, and the rejection records of the others, in order.
pub open spec fn trust_partition(
    candidates: Seq<ProfileSyncPeerDiscoveryResult>,
    rejections: Seq<Option<ProfileSyncPeerDiscoveryTrustRejection>>,
) -> (Seq<ProfileSyncPeerDiscoveryResult>, Seq<RejectedProfileSyncPeerDiscoveryCandidate>)
    decreases candidates.len(),
{
    if candidates.len() == 0 || rejections.len() == 0 {
        (Seq::empty(), Seq::empty())
    } else {
        let previous = trust_partition(candidates.drop_last(), rejections.drop_last());
        match rejections.last() {
            None => (previous.0.push(candidates.last()), previous.1),
            Some(reason) => (previous.0, previous.1.push(rejected_spec(candidates.last(), reason))),
        }
    }
}

/// Peers split by whether they advertise every required capability: those that do, in
/// order, and a missing-capability rejection for each of the others, in order.
pub open spec fn capability_partition(
    peers: Seq<ProfileSyncPeerDiscoveryResult>,
    required: Seq<Seq<char>>,
) -> (Seq<ProfileSyncPeerDiscoveryResult>, Seq<RejectedProfileSyncPeerDiscoveryCandidate>)
    decreases peers.len(),
{
    if peers.len() == 0 {
        (Seq::empty(), Seq::empty())
    } else {
        let previous = capability_partition(peers.drop_last(), required);
        if advertises_all(peers.last().advertisement, required) {
            (previous.0.push(peers.last()), previous.1)
        } else {
            (previous.0, previous.1.push(rejected_spec(peers.last(), ProfileSyncPeerDiscoveryTrustRejection::MissingRequiredCapability)))
        }
    }
}

/// The report on discovered candidates: candidates that passed the trust checks are reduced
/// to the freshest advertisement of each peer, and those are kept when they advertise every
/// required capability. Rejections come in that order: trust, freshness, capability.
pub open spec fn discovery_report_spec(
    candidates: Seq<ProfileSyncPeerDiscoveryResult>,
    rejections: Seq<Option<ProfileSyncPeerDiscoveryTrustRejection>>,
    required: Seq<Seq<char>>,
) -> (Seq<ProfileSyncPeerDiscoveryResult>, Seq<RejectedProfileSyncPeerDiscoveryCandidate>) {
    let trust = trust_partition(candidates, rejections);
    let fresh = freshness_fold(trust.0);
    let capable = capability_partition(fresh.0, required);
    (capable.0, trust.1 + fresh.1 + capable.1)
}

/// Whether an advertisement names every capability of `required`.
fn has_all_capabilities(advertisement: &ProfileSyncPeerAdvertisement, required: &Vec<String>) -> (has: bool)
    ensures
        has == advertises_all(*advertisement, required.deep_view()),
{
    let mut i: usize = 0;
    while i < required.len()
        invariant
            i <= required@.len(),
            forall|j: int| 0 <= j < i ==> advertises(*advertisement, #[trigger] required.deep_view()[j]),
        decreases required.len() - i,
    {
        if !advertisement.has_capability(required[i].as_str()) {
            assert(!advertises(*advertisement, required.deep_view()[i as int]));
            return false;
        }
        i = i + 1;
    }
    true
}

/// Keeps the trusted peers of `report` that advertise every required capability; the others
/// are added to its rejections as missing a required capability.
pub fn require_profile_sync_peer_discovery_capabilities(
    report: TrustedProfileSyncPeerDiscoveryReport,
    required_capabilities: &Vec<String>,
) -> (filtered: TrustedProfileSyncPeerDiscoveryReport)
    ensures
        filtered.trusted_peers@ == capability_partition(report.trusted_peers@, required_capabilities.deep_view()).0,
        filtered.rejected_peers@ == report.rejected_peers@ + capability_partition(report.trusted_peers@, required_capabilities.deep_view()).1,
{
    let ghost required = required_capabilities.deep_view();
    let TrustedProfileSyncPeerDiscoveryReport { trusted_peers, rejected_peers } = report;
    let mut kept: Vec<ProfileSyncPeerDiscoveryResult> = Vec::new();
    let mut rejected = rejected_peers;
    let mut rest = trusted_peers;
    let ghost all = rest@;
    let ghost start = rejected@;
    let ghost mut taken: Seq<ProfileSyncPeerDiscoveryResult> = Seq::empty();
    while rest.len() > 0
        invariant
            all == taken + rest@,
            required == required_capabilities.deep_view(),
            kept@ == capability_partition(taken, required).0,
            rejected@ == start + capability_partition(taken, required).1,
        decreases rest.len(),
    {
        let peer = rest.remove(0);
        let ghost before = taken;
        proof {
            taken = taken.push(peer);
            assert(taken.drop_last() =~= before);
            assert(all =~= taken + rest@);
        }
        if has_all_capabilities(&peer.advertisement, required_capabilities) {
            kept.push(peer);
        } else {
            rejected.push(rejected_discovery_candidate(peer, ProfileSyncPeerDiscoveryTrustRejection::MissingRequiredCapability));
            assert(rejected@ =~= start + capability_partition(taken, required).1);
        }
    }
    assert(taken =~= all);
    TrustedProfileSyncPeerDiscoveryReport { trusted_peers: kept, rejected_peers: rejected }
}

/// The report on discovered `candidates`, where `trust_rejections[k]` is the outcome of the
/// trust checks of `candidates[k]` (see `profile_sync_peer_discovery_trust_rejection`): the
/// trusted ones are reduced to the freshest advertisement of each peer, and of those the ones
/// advertising every required capability are trusted (see `discovery_report_spec`).
pub fn filter_trusted_profile_sync_peer_discovery_results_with_required_capabilities(
    required_capabilities: &Vec<String>,
    candidates: Vec<ProfileSyncPeerDiscoveryResult>,
    trust_rejections: Vec<Option<ProfileSyncPeerDiscoveryTrustRejection>>,
) -> (report: TrustedProfileSyncPeerDiscoveryReport)
    requires
        trust_rejections@.len() == candidates@.len(),
    ensures
        report.trusted_peers@ == discovery_report_spec(candidates@, trust_rejections@, required_capabilities.deep_view()).0,
        report.rejected_peers@ == discovery_report_spec(candidates@, trust_rejections@, required_capabilities.deep_view()).1,
{
    let mut report = TrustedProfileSyncPeerDiscoveryReport::new();
    let mut trusted_candidates: Vec<ProfileSyncPeerDiscoveryResult> = Vec::new();
    let mut rest = candidates;
    let mut reasons = trust_rejections;
    let ghost all = rest@;
    let ghost all_reasons = reasons@;
    let ghost mut taken: Seq<ProfileSyncPeerDiscoveryResult> = Seq::empty();
    let ghost mut taken_reasons: Seq<Option<ProfileSyncPeerDiscoveryTrustRejection>> = Seq::empty();
    while rest.len() > 0
        invariant
            all == taken + rest@,
            all_reasons == taken_reasons + reasons@,
            rest@.len() == reasons@.len(),
            trusted_candidates@ == trust_partition(taken, taken_reasons).0,
            report.rejected_peers@ == trust_partition(taken, taken_reasons).1,
            report.trusted_peers@.len() == 0,
        decreases rest.len(),
    {
        let candidate = rest.remove(0);
        let reason = reasons.remove(0);
        let ghost before = taken;
        let ghost before_reasons = taken_reasons;
        proof {
            taken = taken.push(candidate);
            taken_reasons = taken_reasons.push(reason);
            assert(taken.drop_last() =~= before);
            assert(taken_reasons.drop_last() =~= before_reasons);
            assert(all =~= taken + rest@);
            assert(all_reasons =~= taken_reasons + reasons@);
        }
        match reason {
            Some(reason) => {
                report.rejected_peers.push(rejected_discovery_candidate(candidate, reason));
            },
            None => {
                trusted_candidates.push(candidate);
            },
        }
    }
    proof {
        assert(taken =~= all);
        assert(taken_reasons =~= all_reasons);
    }
    let ghost trust_rejected = report.rejected_peers@;
    let freshest = freshest_trusted_profile_sync_peer_discovery_results(trusted_candidates, &mut report);
    let fresh_report = TrustedProfileSyncPeerDiscoveryReport {
        trusted_peers: freshest,
        rejected_peers: report.rejected_peers,
    };
    let filtered = require_profile_sync_peer_discovery_capabilities(fresh_report, required_capabilities);
    proof {
        let spec = discovery_report_spec(all, all_reasons, required_capabilities.deep_view());
        assert(filtered.rejected_peers@ =~= spec.1);
    }
    filtered
}

/// The report on discovered `candidates` with their trust outcomes, requiring no capability.
pub fn filter_trusted_profile_sync_peer_discovery_results(
    candidates: Vec<ProfileSyncPeerDiscoveryResult>,
    trust_rejections: Vec<Option<ProfileSyncPeerDiscoveryTrustRejection>>,
) -> (report: TrustedProfileSyncPeerDiscoveryReport)
    requires
        trust_rejections@.len() == candidates@.len(),
    ensures
        report.trusted_peers@ == discovery_report_spec(candidates@, trust_rejections@, Seq::empty()).0,
        report.rejected_peers@ == discovery_report_spec(candidates@, trust_rejections@, Seq::empty()).1,
{
    let none: Vec<String> = Vec::new();
    assert(none.deep_view() =~= Seq::<Seq<char>>::empty());
    filter_trusted_profile_sync_peer_discovery_results_with_required_capabilities(&none, candidates, trust_rejections)
}


proof fn lemma_key_index_from(
    s: Seq<ProfileSyncPeerDiscoveryResult>,
    key: (ProfileSyncPeerDiscoveryProtocol, Seq<char>, Seq<char>, Seq<char>, Seq<char>),
    i: int,
)
    requires
        0 <= i <= s.len(),
    ensures
        key_index_from(s, key, i) == -1 ==> forall|j: int| i <= j < s.len() ==> freshness_key(#[trigger] s[j]) != key,
        key_index_from(s, key, i) != -1 ==> {
            &&& i <= key_index_from(s, key, i) < s.len()
            &&& freshness_key(s[key_index_from(s, key, i)]) == key
            &&& forall|j: int| i <= j < key_index_from(s, key, i) ==> freshness_key(#[trigger] s[j]) != key
        },
    decreases s.len() - i,
{
    if i < s.len() {
        lemma_key_index_from(s, key, i + 1);
    }
}

proof fn lemma_key_index_of_distinct(s: Seq<ProfileSyncPeerDiscoveryResult>, j: int)
    requires
        distinct_keys(s),
        0 <= j < s.len(),
    ensures
        key_index(s, freshness_key(s[j])) == j,
{
    let key = freshness_key(s[j]);
    lemma_key_index_from(s, key, 0);
    let idx = key_index(s, key);
    assert(idx != -1);
    if idx < j {
        assert(freshness_key(s[idx]) != freshness_key(s[j]));
    }
}

/// Freshness keeps one advertisement per peer: the kept results have distinct keys, each kept
/// result is one of the candidates, every candidate is either kept or rejected, and for every
/// candidate the kept result with its key has a sequence at least as high.
pub proof fn lemma_freshest_results_keep_one_peer_per_key(candidates: Seq<ProfileSyncPeerDiscoveryResult>)
    ensures
        distinct_keys(freshness_fold(candidates).0),
        freshness_fold(candidates).0.len() + freshness_fold(candidates).1.len() == candidates.len(),
        forall|j: int| 0 <= j < freshness_fold(candidates).0.len() ==> candidates.contains(#[trigger] freshness_fold(candidates).0[j]),
        forall|k: int| 0 <= k < candidates.len() ==> {
            let fresh = freshness_fold(candidates).0;
            let idx = key_index(fresh, freshness_key(#[trigger] candidates[k]));
            &&& 0 <= idx < fresh.len()
            &&& fresh[idx].advertisement.sequence >= candidates[k].advertisement.sequence
        },
    decreases candidates.len(),
{
    if candidates.len() > 0 {
        let rest = candidates.drop_last();
        lemma_freshest_results_keep_one_peer_per_key(rest);
        let fresh = freshness_fold(rest).0;
        let c = candidates.last();
        let i = key_index(fresh, freshness_key(c));
        lemma_key_index_from(fresh, freshness_key(c), 0);
        let next = freshness_fold(candidates).0;
        assert forall|x: int| 0 <= x < next.len() && x < fresh.len() implies freshness_key(#[trigger] next[x]) == freshness_key(fresh[x]) by {
        }
        assert(distinct_keys(next)) by {
            assert forall|a: int, b: int| 0 <= a < b < next.len() implies freshness_key(#[trigger] next[a]) != freshness_key(#[trigger] next[b]) by {
                if b == fresh.len() {
                    assert(next[b] == c);
                } else {
                    assert(freshness_key(next[a]) == freshness_key(fresh[a]));
                    assert(freshness_key(next[b]) == freshness_key(fresh[b]));
                }
            }
        }
        assert forall|j: int| 0 <= j < next.len() implies candidates.contains(#[trigger] next[j]) by {
            if next[j] == c {
                assert(candidates[candidates.len() - 1] == c);
            } else {
                assert(j < fresh.len() && next[j] == fresh[j]);
                assert(rest.contains(fresh[j]));
                let k = choose|k: int| 0 <= k < rest.len() && rest[k] == fresh[j];
                assert(candidates[k] == rest[k]);
            }
        }
        assert forall|k: int| 0 <= k < candidates.len() implies {
            let idx = key_index(next, freshness_key(#[trigger] candidates[k]));
            &&& 0 <= idx < next.len()
            &&& next[idx].advertisement.sequence >= candidates[k].advertisement.sequence
        } by {
            if k == candidates.len() - 1 {
                assert(candidates[k] == c);
                if i < 0 {
                    lemma_key_index_of_distinct(next, fresh.len() as int);
                } else {
                    lemma_key_index_of_distinct(next, i);
                }
            } else {
                assert(candidates[k] == rest[k]);
                let old_idx = key_index(fresh, freshness_key(rest[k]));
                lemma_key_index_from(fresh, freshness_key(rest[k]), 0);
                assert(freshness_key(next[old_idx]) == freshness_key(rest[k]));
                lemma_key_index_of_distinct(next, old_idx);
            }
        }
    }
}

/// Whether `candidates[m]` is the first candidate of its key with the highest sequence: no
/// candidate of that key has a higher sequence, and every earlier one has a lower sequence.
pub open spec fn first_highest(candidates: Seq<ProfileSyncPeerDiscoveryResult>, m: int) -> bool {
    &&& 0 <= m < candidates.len()
    &&& forall|k: int| 0 <= k < candidates.len() && freshness_key(#[trigger] candidates[k]) == freshness_key(candidates[m])
        ==> candidates[k].advertisement.sequence <= candidates[m].advertisement.sequence
    &&& forall|k: int| 0 <= k < m && freshness_key(#[trigger] candidates[k]) == freshness_key(candidates[m])
        ==> candidates[k].advertisement.sequence < candidates[m].advertisement.sequence
}

proof fn lemma_key_index_push(
    s: Seq<ProfileSyncPeerDiscoveryResult>,
    x: ProfileSyncPeerDiscoveryResult,
    key: (ProfileSyncPeerDiscoveryProtocol, Seq<char>, Seq<char>, Seq<char>, Seq<char>),
)
    ensures
        key_index(s, key) != -1 ==> key_index(s.push(x), key) == key_index(s, key),
        key_index(s, key) == -1 && freshness_key(x) == key ==> key_index(s.push(x), key) == s.len(),
{
    let t = s.push(x);
    lemma_key_index_from(s, key, 0);
    lemma_key_index_from(t, key, 0);
    let p = key_index(s, key);
    let q = key_index(t, key);
    if p != -1 {
        assert(t[p] == s[p]);
        if q != -1 && q < p {
            assert(t[q] == s[q]);
        }
    } else if freshness_key(x) == key {
        assert(t[s.len() as int] == x);
        if q != -1 && q < s.len() {
            assert(t[q] == s[q]);
        }
    }
}

/// One step of the freshness fold: a candidate of a new key is appended, one that beats the
/// kept result of its key takes its place, and any other leaves the kept results as they are.
proof fn lemma_freshness_fold_step(rest: Seq<ProfileSyncPeerDiscoveryResult>, c: ProfileSyncPeerDiscoveryResult)
    ensures
        ({
            let fresh = freshness_fold(rest).0;
            let next = freshness_fold(rest.push(c)).0;
            let i = key_index(fresh, freshness_key(c));
            &&& i == -1 ==> next == fresh.push(c) && forall|j: int| 0 <= j < fresh.len() ==> freshness_key(#[trigger] fresh[j]) != freshness_key(c)
            &&& i != -1 ==> {
                &&& 0 <= i < fresh.len()
                &&& freshness_key(fresh[i]) == freshness_key(c)
                &&& c.advertisement.sequence > fresh[i].advertisement.sequence ==> next == fresh.update(i, c)
                &&& c.advertisement.sequence <= fresh[i].advertisement.sequence ==> next == fresh
            }
        }),
{
    assert(rest.push(c).drop_last() =~= rest);
    lemma_key_index_from(freshness_fold(rest).0, freshness_key(c), 0);
}

/// Freshness lists the kept peers in the order in which their keys first appear among the
/// candidates.
pub proof fn lemma_freshest_results_in_first_appearance_order(candidates: Seq<ProfileSyncPeerDiscoveryResult>)
    ensures
        forall|j: int| 0 <= j < freshness_fold(candidates).0.len()
            ==> 0 <= #[trigger] key_index(candidates, freshness_key(freshness_fold(candidates).0[j])) < candidates.len(),
        forall|a: int, b: int| 0 <= a < b < freshness_fold(candidates).0.len()
            ==> key_index(candidates, freshness_key(#[trigger] freshness_fold(candidates).0[a]))
                < key_index(candidates, freshness_key(#[trigger] freshness_fold(candidates).0[b])),
    decreases candidates.len(),
{
    if candidates.len() > 0 {
        let rest = candidates.drop_last();
        let c = candidates.last();
        assert(candidates =~= rest.push(c));
        lemma_freshest_results_in_first_appearance_order(rest);
        lemma_freshest_results_keep_one_peer_per_key(rest);
        lemma_freshness_fold_step(rest, c);
        let fresh = freshness_fold(rest).0;
        let next = freshness_fold(candidates).0;
        let i = key_index(fresh, freshness_key(c));
        assert forall|j: int| 0 <= j < fresh.len() implies
            #[trigger] key_index(candidates, freshness_key(fresh[j])) == key_index(rest, freshness_key(fresh[j])) by {
            lemma_key_index_push(rest, c, freshness_key(fresh[j]));
        }
        if i == -1 {
            lemma_key_index_from(rest, freshness_key(c), 0);
            if key_index(rest, freshness_key(c)) != -1 {
                let p = key_index(rest, freshness_key(c));
                let idx = key_index(fresh, freshness_key(rest[p]));
                assert(0 <= idx < fresh.len());
                lemma_key_index_from(fresh, freshness_key(rest[p]), 0);
                assert(false);
            }
            lemma_key_index_push(rest, c, freshness_key(c));
        }
        assert forall|j: int| 0 <= j < next.len() implies
            0 <= #[trigger] key_index(candidates, freshness_key(next[j])) < candidates.len() by {
            if j < fresh.len() {
                assert(freshness_key(next[j]) == freshness_key(fresh[j]));
            }
        }
        assert forall|a: int, b: int| 0 <= a < b < next.len() implies
            key_index(candidates, freshness_key(#[trigger] next[a])) < key_index(candidates, freshness_key(#[trigger] next[b])) by {
            assert(freshness_key(next[a]) == freshness_key(fresh[a]));
            if b < fresh.len() {
                assert(freshness_key(next[b]) == freshness_key(fresh[b]));
            }
        }
    }
}

/// Freshness keeps, of each peer, its first advertisement with the highest sequence.
pub proof fn lemma_freshest_results_are_first_highest(candidates: Seq<ProfileSyncPeerDiscoveryResult>)
    ensures
        forall|j: int| 0 <= j < freshness_fold(candidates).0.len()
            ==> exists|m: int| first_highest(candidates, m) && candidates[m] == #[trigger] freshness_fold(candidates).0[j],
    decreases candidates.len(),
{
    if candidates.len() > 0 {
        let rest = candidates.drop_last();
        let c = candidates.last();
        let last = candidates.len() - 1;
        assert(candidates =~= rest.push(c));
        lemma_freshest_results_are_first_highest(rest);
        lemma_freshest_results_keep_one_peer_per_key(rest);
        lemma_freshness_fold_step(rest, c);
        let fresh = freshness_fold(rest).0;
        let next = freshness_fold(candidates).0;
        let i = key_index(fresh, freshness_key(c));
        assert(forall|k: int| 0 <= k < last ==> candidates[k] == rest[k]);
        assert forall|j: int| 0 <= j < next.len() implies
            exists|m: int| first_highest(candidates, m) && candidates[m] == #[trigger] next[j] by {
            if j < fresh.len() && next[j] == fresh[j] && (i != j || c.advertisement.sequence <= fresh[j].advertisement.sequence) {
                let m = choose|m: int| first_highest(rest, m) && rest[m] == fresh[j];
                if freshness_key(c) == freshness_key(fresh[j]) {
                    lemma_key_index_of_distinct(fresh, j);
                }
                assert forall|k: int| 0 <= k < candidates.len() && freshness_key(#[trigger] candidates[k]) == freshness_key(candidates[m])
                    implies candidates[k].advertisement.sequence <= candidates[m].advertisement.sequence by {
                    if k < last {
                        assert(freshness_key(rest[k]) == freshness_key(rest[m]));
                    }
                }
                assert(first_highest(candidates, m));
            } else {
                assert(next[j] == c);
                assert forall|k: int| 0 <= k < candidates.len() && freshness_key(#[trigger] candidates[k]) == freshness_key(candidates[last])
                    implies candidates[k].advertisement.sequence <= candidates[last].advertisement.sequence
                        && (k < last ==> candidates[k].advertisement.sequence < candidates[last].advertisement.sequence) by {
                    if k < last {
                        let idx = key_index(fresh, freshness_key(rest[k]));
                        assert(0 <= idx < fresh.len());
                        lemma_key_index_from(fresh, freshness_key(rest[k]), 0);
                        lemma_key_index_of_distinct(fresh, idx);
                    }
                }
                assert(first_highest(candidates, last));
            }
        }
    }
}

proof fn lemma_trust_partition(
    candidates: Seq<ProfileSyncPeerDiscoveryResult>,
    rejections: Seq<Option<ProfileSyncPeerDiscoveryTrustRejection>>,
)
    requires
        candidates.len() == rejections.len(),
    ensures
        trust_partition(candidates, rejections).0.len() + trust_partition(candidates, rejections).1.len() == candidates.len(),
        forall|j: int| 0 <= j < trust_partition(candidates, rejections).0.len() ==> exists|k: int|
            0 <= k < candidates.len() && candidates[k] == #[trigger] trust_partition(candidates, rejections).0[j] && rejections[k] is None,
    decreases candidates.len(),
{
    if candidates.len() > 0 {
        let rest = candidates.drop_last();
        let rest_reasons = rejections.drop_last();
        lemma_trust_partition(rest, rest_reasons);
        let previous = trust_partition(rest, rest_reasons).0;
        let next = trust_partition(candidates, rejections).0;
        assert forall|j: int| 0 <= j < next.len() implies exists|k: int|
            0 <= k < candidates.len() && candidates[k] == #[trigger] next[j] && rejections[k] is None by {
            if j < previous.len() {
                assert(next[j] == previous[j]);
                let k = choose|k: int| 0 <= k < rest.len() && rest[k] == previous[j] && rest_reasons[k] is None;
                assert(candidates[k] == rest[k] && rejections[k] == rest_reasons[k]);
            } else {
                let k = candidates.len() - 1;
                assert(candidates[k] == next[j] && rejections[k] is None);
            }
        }
    }
}

proof fn lemma_capability_partition(peers: Seq<ProfileSyncPeerDiscoveryResult>, required: Seq<Seq<char>>)
    ensures
        capability_partition(peers, required).0.len() + capability_partition(peers, required).1.len() == peers.len(),
        forall|j: int| 0 <= j < capability_partition(peers, required).0.len() ==> {
            &&& peers.contains(#[trigger] capability_partition(peers, required).0[j])
            &&& advertises_all(capability_partition(peers, required).0[j].advertisement, required)
        },
    decreases peers.len(),
{
    if peers.len() > 0 {
        let rest = peers.drop_last();
        lemma_capability_partition(rest, required);
        let previous = capability_partition(rest, required).0;
        let next = capability_partition(peers, required).0;
        assert forall|j: int| 0 <= j < next.len() implies {
            &&& peers.contains(#[trigger] next[j])
            &&& advertises_all(next[j].advertisement, required)
        } by {
            if j < previous.len() {
                assert(next[j] == previous[j]);
                let k = choose|k: int| 0 <= k < rest.len() && rest[k] == previous[j];
                assert(peers[k] == rest[k]);
            } else {
                assert(peers[peers.len() - 1] == next[j]);
            }
        }
    }
}

/// Every discovered candidate ends in exactly one place of the report: it is trusted, or it
/// is rejected once.
pub proof fn lemma_discovery_report_accounts_for_every_candidate(
    candidates: Seq<ProfileSyncPeerDiscoveryResult>,
    rejections: Seq<Option<ProfileSyncPeerDiscoveryTrustRejection>>,
    required: Seq<Seq<char>>,
)
    requires
        candidates.len() == rejections.len(),
    ensures
        discovery_report_spec(candidates, rejections, required).0.len()
            + discovery_report_spec(candidates, rejections, required).1.len() == candidates.len(),
{
    let trust = trust_partition(candidates, rejections);
    lemma_trust_partition(candidates, rejections);
    lemma_freshest_results_keep_one_peer_per_key(trust.0);
    lemma_capability_partition(freshness_fold(trust.0).0, required);
}

/// Every trusted peer of the report is a discovered candidate that passed the trust checks,
/// advertises every required capability, and is the only trusted advertisement of its peer.
pub proof fn lemma_trusted_peers_pass_every_check(
    candidates: Seq<ProfileSyncPeerDiscoveryResult>,
    rejections: Seq<Option<ProfileSyncPeerDiscoveryTrustRejection>>,
    required: Seq<Seq<char>>,
)
    requires
        candidates.len() == rejections.len(),
    ensures
        forall|j: int| 0 <= j < discovery_report_spec(candidates, rejections, required).0.len() ==> {
            let peer = #[trigger] discovery_report_spec(candidates, rejections, required).0[j];
            &&& advertises_all(peer.advertisement, required)
            &&& exists|k: int| 0 <= k < candidates.len() && candidates[k] == peer && rejections[k] is None
        },
        distinct_keys(discovery_report_spec(candidates, rejections, required).0),
{
    let trust = trust_partition(candidates, rejections);
    let fresh = freshness_fold(trust.0).0;
    let kept = capability_partition(fresh, required).0;
    lemma_trust_partition(candidates, rejections);
    lemma_freshest_results_keep_one_peer_per_key(trust.0);
    lemma_capability_partition(fresh, required);
    lemma_capability_partition_keeps_distinct_keys(fresh, required);
    assert forall|j: int| 0 <= j < kept.len() implies {
        let peer = #[trigger] kept[j];
        &&& advertises_all(peer.advertisement, required)
        &&& exists|k: int| 0 <= k < candidates.len() && candidates[k] == peer && rejections[k] is None
    } by {
        let peer = kept[j];
        assert(fresh.contains(peer));
        let f = choose|f: int| 0 <= f < fresh.len() && fresh[f] == peer;
        assert(trust.0.contains(fresh[f]));
        let t = choose|t: int| 0 <= t < trust.0.len() && trust.0[t] == fresh[f];
        assert(exists|k: int| 0 <= k < candidates.len() && candidates[k] == #[trigger] trust.0[t] && rejections[k] is None);
    }
}

proof fn lemma_capability_partition_keeps_distinct_keys(peers: Seq<ProfileSyncPeerDiscoveryResult>, required: Seq<Seq<char>>)
    requires
        distinct_keys(peers),
    ensures
        distinct_keys(capability_partition(peers, required).0),
        forall|j: int| 0 <= j < capability_partition(peers, required).0.len() ==> exists|k: int|
            0 <= k < peers.len() && peers[k] == #[trigger] capability_partition(peers, required).0[j]
            && freshness_key(peers[k]) == freshness_key(capability_partition(peers, required).0[j]),
    decreases peers.len(),
{
    if peers.len() > 0 {
        let rest = peers.drop_last();
        assert(distinct_keys(rest)) by {
            assert forall|a: int, b: int| 0 <= a < b < rest.len() implies freshness_key(#[trigger] rest[a]) != freshness_key(#[trigger] rest[b]) by {
                assert(rest[a] == peers[a] && rest[b] == peers[b]);
            }
        }
        lemma_capability_partition_keeps_distinct_keys(rest, required);
        let previous = capability_partition(rest, required).0;
        let next = capability_partition(peers, required).0;
        let last = peers.len() - 1;
        assert forall|j: int| 0 <= j < next.len() implies exists|k: int|
            0 <= k < peers.len() && peers[k] == #[trigger] next[j] && freshness_key(peers[k]) == freshness_key(next[j]) by {
            if j < previous.len() {
                assert(next[j] == previous[j]);
                let k = choose|k: int| 0 <= k < rest.len() && rest[k] == #[trigger] previous[j] && freshness_key(rest[k]) == freshness_key(previous[j]);
                assert(peers[k] == rest[k]);
            } else {
                assert(peers[last] == next[j]);
            }
        }
        assert forall|a: int, b: int| 0 <= a < b < next.len() implies freshness_key(#[trigger] next[a]) != freshness_key(#[trigger] next[b]) by {
            if b == previous.len() {
                assert(next[b] == peers[last]);
                assert(next[a] == previous[a]);
                let k = choose|k: int| 0 <= k < rest.len() && rest[k] == #[trigger] previous[a] && freshness_key(rest[k]) == freshness_key(previous[a]);
                assert(peers[k] == rest[k]);
                assert(k < last);
            } else {
                assert(next[a] == previous[a] && next[b] == previous[b]);
            }
        }
    }
}

} // verus!
