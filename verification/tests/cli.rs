use slate_profile_sync::cli::{
    advertisement_capabilities, invalid_required_capability, parse_i64, parse_protocol, parse_u64,
    sequence_from_unix_seconds, unix_sequence, AdvertisementArgs, CommandLineArgument, DiscoveryCheckArgs,
    ParsedDiscoveryCheckArgs,
};
use slate_profile_sync::discovery::ProfileSyncPeerDiscoveryProtocol;

fn args(values: &[&str]) -> Vec<CommandLineArgument> {
    values.iter().map(|value| text(value)).collect()
}

fn text(value: &str) -> CommandLineArgument {
    CommandLineArgument::Text(value.to_string())
}

#[test]
fn parse_requires_manual_discovery_inputs() {
    let args = AdvertisementArgs::parse(args(&[
        "--key-file",
        "enrollment.json",
        "--network-id",
        "manual-net",
        "--device-id",
        "device-a",
        "--provider-id",
        "provider-a",
        "--service-addr",
        "127.0.0.1:39000",
        "--membership-epoch",
        "3",
        "--sequence",
        "7",
        "--capability",
        "profile-sync/object-transfer",
        "--capability",
        "profile-sync/local-retention",
        "--output",
        "advertisement.json",
    ]))
    .expect("parse args");

    assert_eq!(args.key_file, text("enrollment.json"));
    assert_eq!(args.profile, None);
    assert_eq!(args.network_id, "manual-net");
    assert_eq!(args.device_id, "device-a");
    assert_eq!(args.provider_id, "provider-a");
    assert_eq!(args.service_addr, "127.0.0.1:39000");
    assert_eq!(
        args.capabilities,
        vec![
            "profile-sync/service-frame-tcp".to_string(),
            "profile-sync/object-transfer".to_string(),
            "profile-sync/local-retention".to_string(),
        ]
    );
    assert_eq!(args.membership_epoch, 3);
    assert_eq!(args.sequence, 7);
    assert_eq!(args.output, Some(text("advertisement.json")));
}

#[test]
fn parse_accepts_multiple_advertisement_files() {
    let parsed = ParsedDiscoveryCheckArgs::from_arguments(args(&[
        "--settings-db",
        "slate-settings.db",
        "--network-id",
        "manual-net",
        "--protocol",
        "ipns",
        "--advertisement-file",
        "a.json",
        "--advertisement-file",
        "b.json",
        "--require-capability",
        "profile-sync/object-transfer",
        "--require-capability",
        "profile-sync/local-retention",
        "--require-trusted",
        "--output",
        "report.json",
    ]))
    .expect("parse args");
    let args = DiscoveryCheckArgs::from_checked(parsed).expect("complete args");

    assert_eq!(args.settings_db, text("slate-settings.db"));
    assert_eq!(args.profile, "default");
    assert_eq!(args.network_id, "manual-net");
    assert_eq!(args.protocol, ProfileSyncPeerDiscoveryProtocol::Ipns);
    assert_eq!(args.advertisement_files, vec![text("a.json"), text("b.json")]);
    assert_eq!(
        args.required_capabilities,
        vec!["profile-sync/object-transfer".to_string(), "profile-sync/local-retention".to_string()]
    );
    assert!(args.require_trusted);
    assert_eq!(args.output, Some(text("report.json")));
}

#[test]
fn discovery_check_defaults_and_missing_inputs() {
    let parsed = ParsedDiscoveryCheckArgs::from_arguments(args(&[
        "--settings-db",
        "db",
        "--network-id",
        "net",
        "--advertisement-file",
        "a.json",
    ]))
    .expect("parse args");
    let args_done = DiscoveryCheckArgs::from_checked(parsed).expect("complete args");
    assert_eq!(args_done.protocol, ProfileSyncPeerDiscoveryProtocol::LocalSimulation);
    assert_eq!(args_done.namespace, "slate-profile-sync");
    assert!(!args_done.require_trusted);

    let missing_files = ParsedDiscoveryCheckArgs::from_arguments(args(&["--settings-db", "db"])).err().expect("no files");
    assert!(missing_files.starts_with("missing required --advertisement-file\n\n"));

    let no_db = ParsedDiscoveryCheckArgs::from_arguments(args(&["--advertisement-file", "a.json"])).expect("parse");
    let error = DiscoveryCheckArgs::from_checked(no_db).err().expect("no db");
    assert!(error.starts_with("missing required --settings-db\n\n"));

    let bad_protocol = ParsedDiscoveryCheckArgs::from_arguments(args(&["--protocol", "carrier-pigeon"])).err().expect("bad protocol");
    assert_eq!(bad_protocol, "unsupported profile-sync discovery protocol: carrier-pigeon");
}

#[test]
fn argument_errors_name_the_problem() {
    let unknown = AdvertisementArgs::parse(args(&["--bogus"])).err().expect("unknown");
    assert!(unknown.starts_with("unknown argument: --bogus\n\n"));
    let missing_value = AdvertisementArgs::parse(args(&["--key-file"])).err().expect("missing value");
    assert!(missing_value.starts_with("missing value for --key-file\n\n"));
    let missing_key = AdvertisementArgs::parse(args(&["--network-id", "n"])).err().expect("missing key file");
    assert!(missing_key.starts_with("missing required --key-file\n\n"));
    let not_unicode = AdvertisementArgs::parse(vec![CommandLineArgument::NotUnicode(vec![0x66, 0xff])]).err().expect("not unicode");
    assert_eq!(not_unicode, "argument must be valid UTF-8");
    let bad_value = AdvertisementArgs::parse(vec![
        CommandLineArgument::Text("--profile".to_string()),
        CommandLineArgument::NotUnicode(vec![0xff]),
    ])
    .err()
    .expect("value not unicode");
    assert_eq!(bad_value, "--profile must be valid UTF-8");
    let help = AdvertisementArgs::parse(args(&["-h"])).err().expect("help");
    assert!(help.starts_with("Generate a signed Slate profile-sync peer discovery advertisement."));
    let bad_epoch = AdvertisementArgs::parse(args(&["--membership-epoch", "x1"])).err().expect("bad epoch");
    assert_eq!(bad_epoch, "invalid integer x1: invalid digit found in string");
}

#[test]
fn advertisement_defaults_epoch_and_sequence() {
    let parsed = AdvertisementArgs::parse(args(&[
        "--key-file", "k", "--network-id", "n", "--device-id", "d", "--provider-id", "p", "--service-addr", "s",
        "--capability", "profile-sync/service-frame-tcp",
    ]))
    .expect("parse args");
    assert_eq!(parsed.membership_epoch, 1);
    assert!(parsed.sequence >= 1);
    assert_eq!(parsed.capabilities, vec!["profile-sync/service-frame-tcp".to_string()]);
}

#[test]
fn integers_parse_as_the_standard_library_does() {
    assert_eq!(parse_i64("-42".to_string()), Ok(-42));
    assert_eq!(parse_i64("+7".to_string()), Ok(7));
    assert_eq!(parse_i64("-9223372036854775808".to_string()), Ok(i64::MIN));
    assert_eq!(parse_i64("9223372036854775807".to_string()), Ok(i64::MAX));
    assert_eq!(
        parse_i64("9223372036854775808".to_string()),
        Err("invalid integer 9223372036854775808: number too large to fit in target type".to_string())
    );
    assert_eq!(
        parse_i64("-9223372036854775809".to_string()),
        Err("invalid integer -9223372036854775809: number too small to fit in target type".to_string())
    );
    assert_eq!(parse_i64("".to_string()), Err("invalid integer : cannot parse integer from empty string".to_string()));
    assert_eq!(parse_i64("-".to_string()), Err("invalid integer -: invalid digit found in string".to_string()));
    assert_eq!(parse_u64("18446744073709551615".to_string()), Ok(u64::MAX));
    assert_eq!(
        parse_u64("18446744073709551616".to_string()),
        Err("invalid unsigned integer 18446744073709551616: number too large to fit in target type".to_string())
    );
    assert_eq!(
        parse_u64("-1".to_string()),
        Err("invalid unsigned integer -1: invalid digit found in string".to_string())
    );
    for text in ["0", "12", "+3", "-0", "1x", "", "+", "99999999999999999999"] {
        let ours = parse_i64(text.to_string()).ok();
        assert_eq!(ours, text.parse::<i64>().ok(), "i64 {text}");
        let ours = parse_u64(text.to_string()).ok();
        assert_eq!(ours, text.parse::<u64>().ok(), "u64 {text}");
    }
}

#[test]
fn protocols_and_capabilities() {
    assert_eq!(parse_protocol("libp2p-kademlia"), Ok(ProfileSyncPeerDiscoveryProtocol::Libp2pKademlia));
    assert_eq!(parse_protocol("local-simulation"), Ok(ProfileSyncPeerDiscoveryProtocol::LocalSimulation));
    assert_eq!(
        advertisement_capabilities(vec!["a".to_string(), "profile-sync/service-frame-tcp".to_string(), "a".to_string(), "b".to_string()]),
        vec!["profile-sync/service-frame-tcp".to_string(), "a".to_string(), "b".to_string()]
    );
    assert_eq!(
        invalid_required_capability("bad name"),
        "invalid required profile-sync discovery capability: bad name"
    );
}

#[test]
fn clock_sequences_are_at_least_one() {
    assert_eq!(sequence_from_unix_seconds(None), 1);
    assert_eq!(sequence_from_unix_seconds(Some(0)), 1);
    assert_eq!(sequence_from_unix_seconds(Some(1_700_000_000)), 1_700_000_000);
    assert!(unix_sequence() > 1_600_000_000);
}

#[test]
fn decimal_text_reads_back() {
    for n in [0u64, 7, 10, 99, 12345, u64::MAX] {
        assert_eq!(parse_u64(n.to_string()), Ok(n));
    }
    for v in [0i64, -1, 42, i64::MIN, i64::MAX] {
        assert_eq!(parse_i64(v.to_string()), Ok(v));
    }
}

#[test]
fn path_arguments_keep_bytes_that_are_not_unicode() {
    let raw_key = vec![0x6b, 0x65, 0x79, 0xff, 0x2e, 0x6a];
    let raw_output = vec![0xfe, 0x6f];
    let parsed = AdvertisementArgs::parse(vec![
        text("--key-file"),
        CommandLineArgument::NotUnicode(raw_key.clone()),
        text("--network-id"),
        text("net"),
        text("--device-id"),
        text("device-a"),
        text("--provider-id"),
        text("provider-a"),
        text("--service-addr"),
        text("127.0.0.1:39000"),
        text("--sequence"),
        text("4"),
        text("--output"),
        CommandLineArgument::NotUnicode(raw_output.clone()),
    ])
    .expect("paths need not be unicode");
    assert_eq!(parsed.key_file, CommandLineArgument::NotUnicode(raw_key.clone()));
    assert_eq!(parsed.output, Some(CommandLineArgument::NotUnicode(raw_output)));

    let checked = ParsedDiscoveryCheckArgs::from_arguments(vec![
        text("--settings-db"),
        CommandLineArgument::NotUnicode(raw_key.clone()),
        text("--network-id"),
        text("net"),
        text("--advertisement-file"),
        CommandLineArgument::NotUnicode(vec![0xff]),
        text("--advertisement-file"),
        text("b.json"),
    ])
    .expect("parse args");
    let args = DiscoveryCheckArgs::from_checked(checked).expect("complete args");
    assert_eq!(args.settings_db, CommandLineArgument::NotUnicode(raw_key));
    assert_eq!(args.advertisement_files, vec![CommandLineArgument::NotUnicode(vec![0xff]), text("b.json")]);
}

fn advertisement_required() -> Vec<&'static str> {
    vec!["--key-file", "k.json", "--network-id", "net", "--device-id", "d", "--provider-id", "p", "--service-addr", "a", "--sequence", "3"]
}

#[test]
fn argument_readers_fail_only_at_flags_they_reach() {
    let mut help_as_value = advertisement_required();
    help_as_value.extend(["--profile", "--help"]);
    let parsed = AdvertisementArgs::parse(args(&help_as_value)).expect("a value is no flag");
    assert_eq!(parsed.profile, Some("--help".to_string()));

    let mut unknown = advertisement_required();
    unknown.push("--bogus");
    assert!(AdvertisementArgs::parse(args(&unknown)).is_err());
    let mut last = advertisement_required();
    last.push("--capability");
    assert!(AdvertisementArgs::parse(args(&last)).err().expect("no value").starts_with("missing value for --capability\n\n"));
    let mut bad_number = advertisement_required();
    bad_number.extend(["--membership-epoch", "one"]);
    assert!(AdvertisementArgs::parse(args(&bad_number)).is_err());

    let namespace_help = ParsedDiscoveryCheckArgs::from_arguments(args(&["--namespace", "-h", "--advertisement-file", "a.json"]))
        .expect("a value is no flag");
    let completed = DiscoveryCheckArgs::from_checked(namespace_help);
    assert!(completed.is_err());
    assert!(ParsedDiscoveryCheckArgs::from_arguments(args(&["--advertisement-file", "a.json", "--protocol"])).is_err());
    assert!(ParsedDiscoveryCheckArgs::from_arguments(args(&["--advertisement-file", "a.json", "--protocol", "smoke"])).is_err());
    assert!(ParsedDiscoveryCheckArgs::from_arguments(args(&["--require-trusted", "--advertisement-file", "a.json", "-h"])).is_err());
}
