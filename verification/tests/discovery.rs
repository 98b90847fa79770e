use slate_profile_sync::discovery::{
    check_advertisement_signer, filter_trusted_profile_sync_peer_discovery_results, AdvertisementSignerMismatch,
    filter_trusted_profile_sync_peer_discovery_results_with_required_capabilities,
    profile_sync_peer_discovery_trust_rejection, require_profile_sync_peer_discovery_capabilities,
    ProfileSyncPeerAdvertisement, ProfileSyncPeerAdvertisementSignature, ProfileSyncPeerDiscoveryProtocol,
    ProfileSyncPeerDiscoveryResult, ProfileSyncPeerDiscoveryTrustRejection, SyncDevicePublicKeyRecord,
    TrustedProfileSyncPeerDiscoveryReport,
};

const SERVICE_FRAMES: &str = "profile-sync/service-frame-tcp";

fn advertisement(network_id: &str, node_id: &str, provider_id: &str, service_addr: &str, capabilities: &[&str], sequence: u64) -> ProfileSyncPeerAdvertisement {
    ProfileSyncPeerAdvertisement {
        network_id: network_id.to_string(),
        node_id: node_id.to_string(),
        provider_id: provider_id.to_string(),
        service_addr: service_addr.to_string(),
        capabilities: capabilities.iter().map(|c| c.to_string()).collect(),
        membership_epoch: 1,
        sequence,
        identity_signature: Some(ProfileSyncPeerAdvertisementSignature {
            version: 1,
            device_id: node_id.to_string(),
            public_key: vec![7, 7, 7],
            signature: vec![9, 9],
        }),
    }
}

fn result(advertisement: ProfileSyncPeerAdvertisement) -> ProfileSyncPeerDiscoveryResult {
    ProfileSyncPeerDiscoveryResult {
        protocol: ProfileSyncPeerDiscoveryProtocol::Libp2pRendezvous,
        namespace: "slate-profile-sync".to_string(),
        advertisement,
    }
}

fn trusted_record(device_id: &str) -> SyncDevicePublicKeyRecord {
    SyncDevicePublicKeyRecord {
        device_id: device_id.to_string(),
        public_key: vec![7, 7, 7],
        trusted: true,
        membership_epoch: 1,
    }
}

#[test]
fn trusted_profile_sync_peer_discovery_prefers_fresh_sequence_and_rejects_replays() {
    let network_id = "peerfreshnessnetwork";
    let signer = "peer-trust-freshness-remote";
    let candidates = vec![
        result(advertisement(network_id, signer, "peer-trust-freshness-provider", "/dnsaddr/rendezvous.local/tcp/443/wss/p2p/stale-peer", &[SERVICE_FRAMES], 1)),
        result(advertisement(network_id, signer, "peer-trust-freshness-provider", "/dnsaddr/rendezvous.local/tcp/443/wss/p2p/fresh-peer", &[SERVICE_FRAMES], 3)),
        result(advertisement(network_id, signer, "peer-trust-freshness-provider", "/dnsaddr/rendezvous.local/tcp/443/wss/p2p/replayed-peer", &[SERVICE_FRAMES], 3)),
        result(advertisement(network_id, signer, "peer-trust-freshness-provider", "/dnsaddr/rendezvous.local/tcp/443/wss/p2p/stale-peer-again", &[SERVICE_FRAMES], 2)),
    ];
    let rejections = candidates
        .iter()
        .map(|candidate| {
            profile_sync_peer_discovery_trust_rejection(
                network_id,
                "peer-trust-freshness-local-device",
                candidate,
                &Some(trusted_record(signer)),
                true,
            )
        })
        .collect::<Vec<_>>();

    let report = filter_trusted_profile_sync_peer_discovery_results(candidates, rejections);

    assert_eq!(report.trusted_peer_count(), 1);
    assert_eq!(report.rejected_peer_count(), 3);
    assert_eq!(report.trusted_peers[0].advertisement.sequence, 3);
    assert_eq!(
        report.trusted_peers[0].advertisement.service_addr,
        "/dnsaddr/rendezvous.local/tcp/443/wss/p2p/fresh-peer"
    );
    assert_eq!(
        report.rejected_peers.iter().map(|rejection| rejection.reason).collect::<Vec<_>>(),
        vec![
            ProfileSyncPeerDiscoveryTrustRejection::StaleDiscoverySequence,
            ProfileSyncPeerDiscoveryTrustRejection::ReplayedDiscoverySequence,
            ProfileSyncPeerDiscoveryTrustRejection::StaleDiscoverySequence,
        ]
    );
}

#[test]
fn trust_checks_reject_in_order_of_network_device_and_capability() {
    let net = "net";
    let wrong_network = result(advertisement("other-net", "remote", "p", "a", &[SERVICE_FRAMES], 1));
    let local = result(advertisement(net, "local", "p", "a", &[SERVICE_FRAMES], 1));
    let metadata_only = result(advertisement(net, "remote", "p", "a", &["profile-sync/metadata-only"], 1));
    let record = Some(trusted_record("remote"));
    assert_eq!(
        profile_sync_peer_discovery_trust_rejection(net, "local", &wrong_network, &record, true),
        Some(ProfileSyncPeerDiscoveryTrustRejection::WrongNetwork)
    );
    assert_eq!(
        profile_sync_peer_discovery_trust_rejection(net, "local", &local, &record, true),
        Some(ProfileSyncPeerDiscoveryTrustRejection::LocalDevice)
    );
    assert_eq!(
        profile_sync_peer_discovery_trust_rejection(net, "local", &metadata_only, &record, true),
        Some(ProfileSyncPeerDiscoveryTrustRejection::MissingProfileSyncServiceFrameCapability)
    );
}

#[test]
fn trust_checks_reject_unknown_untrusted_and_mismatched_keys() {
    let net = "net";
    let peer = result(advertisement(net, "remote", "p", "a", &[SERVICE_FRAMES], 1));
    assert_eq!(
        profile_sync_peer_discovery_trust_rejection(net, "local", &peer, &None, true),
        Some(ProfileSyncPeerDiscoveryTrustRejection::UnknownDevicePublicKey)
    );
    let mut revoked = trusted_record("remote");
    revoked.trusted = false;
    assert_eq!(
        profile_sync_peer_discovery_trust_rejection(net, "local", &peer, &Some(revoked), true),
        Some(ProfileSyncPeerDiscoveryTrustRejection::UntrustedDevicePublicKey)
    );
    let mut future_epoch = trusted_record("remote");
    future_epoch.membership_epoch = 2;
    assert_eq!(
        profile_sync_peer_discovery_trust_rejection(net, "local", &peer, &Some(future_epoch), true),
        Some(ProfileSyncPeerDiscoveryTrustRejection::SignerMembershipEpochTooNew)
    );
    let mut unsigned = peer.clone();
    unsigned.advertisement.identity_signature = None;
    assert_eq!(
        profile_sync_peer_discovery_trust_rejection(net, "local", &unsigned, &Some(trusted_record("remote")), true),
        Some(ProfileSyncPeerDiscoveryTrustRejection::MissingSignedIdentity)
    );
    let mut other_signer = peer.clone();
    if let Some(signature) = other_signer.advertisement.identity_signature.as_mut() {
        signature.device_id = "someone-else".to_string();
    }
    assert_eq!(
        profile_sync_peer_discovery_trust_rejection(net, "local", &other_signer, &Some(trusted_record("remote")), true),
        Some(ProfileSyncPeerDiscoveryTrustRejection::SignatureDeviceMismatch)
    );
    let mut other_key = trusted_record("remote");
    other_key.public_key = vec![1, 2, 3];
    assert_eq!(
        profile_sync_peer_discovery_trust_rejection(net, "local", &peer, &Some(other_key), true),
        Some(ProfileSyncPeerDiscoveryTrustRejection::SignaturePublicKeyMismatch)
    );
    assert_eq!(
        profile_sync_peer_discovery_trust_rejection(net, "local", &peer, &Some(trusted_record("remote")), false),
        Some(ProfileSyncPeerDiscoveryTrustRejection::InvalidSignature)
    );
    assert_eq!(
        profile_sync_peer_discovery_trust_rejection(net, "local", &peer, &Some(trusted_record("remote")), true),
        None
    );
}

#[test]
fn discovery_report_keeps_trust_rejections_then_requires_capabilities() {
    let net = "net";
    let candidates = vec![
        result(advertisement(net, "remote-a", "pa", "a", &[SERVICE_FRAMES, "profile-sync/local-retention"], 1)),
        result(advertisement(net, "remote-b", "pb", "b", &[SERVICE_FRAMES], 1)),
        result(advertisement(net, "remote-c", "pc", "c", &[SERVICE_FRAMES], 1)),
    ];
    let rejections = vec![None, None, Some(ProfileSyncPeerDiscoveryTrustRejection::UnknownDevicePublicKey)];
    let required = vec!["profile-sync/local-retention".to_string()];
    let report = filter_trusted_profile_sync_peer_discovery_results_with_required_capabilities(&required, candidates, rejections);

    assert_eq!(report.trusted_peer_count(), 1);
    assert!(report.has_trusted_peer());
    assert_eq!(report.trusted_peers[0].advertisement.node_id, "remote-a");
    assert_eq!(report.rejected_peer_count(), 2);
    assert_eq!(report.rejected_peers[0].node_id, "remote-c");
    assert_eq!(report.rejected_peers[0].reason, ProfileSyncPeerDiscoveryTrustRejection::UnknownDevicePublicKey);
    assert_eq!(report.rejected_peers[1].node_id, "remote-b");
    assert_eq!(report.rejected_peers[1].reason, ProfileSyncPeerDiscoveryTrustRejection::MissingRequiredCapability);
}

#[test]
fn capability_requirement_leaves_report_alone_when_nothing_is_required() {
    let report = TrustedProfileSyncPeerDiscoveryReport {
        trusted_peers: vec![result(advertisement("net", "remote", "p", "a", &[SERVICE_FRAMES], 1))],
        rejected_peers: Vec::new(),
    };
    let kept = require_profile_sync_peer_discovery_capabilities(report.clone(), &Vec::new());
    assert_eq!(kept, report);
    let empty = TrustedProfileSyncPeerDiscoveryReport::default();
    assert!(!empty.has_trusted_peer());
    assert_eq!(empty.trusted_peer_count(), 0);
}

#[test]
fn rejection_reasons_have_report_names() {
    assert_eq!(ProfileSyncPeerDiscoveryTrustRejection::WrongNetwork.as_str(), "wrong_network");
    assert_eq!(ProfileSyncPeerDiscoveryTrustRejection::UnknownDevicePublicKey.as_str(), "unknown_device_public_key");
    assert_eq!(ProfileSyncPeerDiscoveryTrustRejection::MissingRequiredCapability.as_str(), "missing_required_capability");
    assert_eq!(
        ProfileSyncPeerDiscoveryTrustRejection::MissingProfileSyncServiceFrameCapability.as_str(),
        "missing_profile_sync_service_frame_capability"
    );
    assert_eq!(ProfileSyncPeerDiscoveryTrustRejection::InvalidSignature.as_str(), "invalid_signature");
    assert_eq!(ProfileSyncPeerDiscoveryProtocol::Ipns.as_str(), "ipns");
}

#[test]
fn advertisement_signer_must_be_the_advertised_node() {
    assert_eq!(check_advertisement_signer("device-a", "device-a"), Ok(()));
    let mismatch = check_advertisement_signer("peer-trust-other-node", "device-a").err().expect("mismatch");
    assert_eq!(
        mismatch,
        AdvertisementSignerMismatch { node_id: "peer-trust-other-node".to_string(), signer_device_id: "device-a".to_string() }
    );
    assert_eq!(
        mismatch.message(),
        "profile sync peer advertisement node peer-trust-other-node cannot be signed by device device-a"
    );
}
