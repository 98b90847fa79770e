//! Command-line inputs of the advertisement and discovery-check tools: integer and protocol
//! parsing, capability lists, and the argument parsers themselves.
use vstd::prelude::*;
use crate::text::{append_str, owned, str_equal, decimal, digit_char, signed_decimal};
use crate::object_ids::{extend_unique, extend_unique_object_ids, lemma_extend_unique};
use crate::discovery::{
    ProfileSyncPeerDiscoveryProtocol, protocol_name, service_frame_capability,
    profile_sync_peer_discovery_capability,
};

verus! {

/// Why text is not an integer of the wanted type, as the standard library reports it.
#[derive(Clone, Copy, Debug, PartialEq, Eq, Structural)]
pub enum IntegerParseError {
    Empty,
    InvalidDigit,
    PosOverflow,
    NegOverflow,
}

/// The standard library's text for an integer parse failure.
pub open spec fn integer_parse_error_text(error: IntegerParseError) -> Seq<char> {
    match error {
        IntegerParseError::Empty => "cannot parse integer from empty string"@,
        IntegerParseError::InvalidDigit => "invalid digit found in string"@,
        IntegerParseError::PosOverflow => "number too large to fit in target type"@,
        IntegerParseError::NegOverflow => "number too small to fit in target type"@,
    }
}

impl IntegerParseError {
    /// The standard library's text for this failure.
    pub fn as_str(&self) -> (text: &'static str)
        ensures
            text@ == integer_parse_error_text(*self),
    {
        match self {
            IntegerParseError::Empty => "cannot parse integer from empty string",
            IntegerParseError::InvalidDigit => "invalid digit found in string",
            IntegerParseError::PosOverflow => "number too large to fit in target type",
            IntegerParseError::NegOverflow => "number too small to fit in target type",
        }
    }
}

/// Whether `c` is an ASCII decimal digit.
pub open spec fn is_decimal_digit(c: char) -> bool {
    '0' <= c && c <= '9'
}

/// The value of the decimal digit `c`.
pub open spec fn decimal_digit_value(c: char) -> int {
    (c as int) - ('0' as int)
}

/// The outcome of reading decimal digits left to right.
pub enum DigitScan {
    Value(int),
    InvalidDigit,
    Overflow,
}

/// Reads the digits of `s` from position `i` on, after `acc` has been read, as the standard
/// library does: a character that is not a digit stops it as invalid, and a running value above
/// `limit` stops it as an overflow, whichever comes first.
pub open spec fn scan_digits(s: Seq<char>, i: int, acc: int, limit: int) -> DigitScan
    decreases s.len() - i,
{
    if i < 0 || i >= s.len() {
        DigitScan::Value(acc)
    } else if !is_decimal_digit(s[i]) {
        DigitScan::InvalidDigit
    } else if acc * 10 + decimal_digit_value(s[i]) > limit {
        DigitScan::Overflow
    } else {
        scan_digits(s, i + 1, acc * 10 + decimal_digit_value(s[i]), limit)
    }
}

/// The value of `s` as a `u64`, as `str::parse::<u64>` gives it: an optional `+`, then digits.
pub open spec fn parse_u64_spec(s: Seq<char>) -> Result<int, IntegerParseError> {
    if s.len() == 0 {
        Err(IntegerParseError::Empty)
    } else if s.len() == 1 && (s[0] == '+' || s[0] == '-') {
        Err(IntegerParseError::InvalidDigit)
    } else {
        let start: int = if s[0] == '+' { 1 } else { 0 };
        match scan_digits(s, start, 0, u64::MAX as int) {
            DigitScan::Value(v) => Ok(v),
            DigitScan::InvalidDigit => Err(IntegerParseError::InvalidDigit),
            DigitScan::Overflow => Err(IntegerParseError::PosOverflow),
        }
    }
}

/// The value of `s` as an `i64`, as `str::parse::<i64>` gives it: an optional sign, then digits.
pub open spec fn parse_i64_spec(s: Seq<char>) -> Result<int, IntegerParseError> {
    if s.len() == 0 {
        Err(IntegerParseError::Empty)
    } else if s.len() == 1 && (s[0] == '+' || s[0] == '-') {
        Err(IntegerParseError::InvalidDigit)
    } else if s[0] == '-' {
        match scan_digits(s, 1, 0, 0x8000_0000_0000_0000) {
            DigitScan::Value(v) => Ok(-v),
            DigitScan::InvalidDigit => Err(IntegerParseError::InvalidDigit),
            DigitScan::Overflow => Err(IntegerParseError::NegOverflow),
        }
    } else {
        let start: int = if s[0] == '+' { 1 } else { 0 };
        match scan_digits(s, start, 0, i64::MAX as int) {
            DigitScan::Value(v) => Ok(v),
            DigitScan::InvalidDigit => Err(IntegerParseError::InvalidDigit),
            DigitScan::Overflow => Err(IntegerParseError::PosOverflow),
        }
    }
}

proof fn lemma_scan_digits_bounded(s: Seq<char>, i: int, acc: int, limit: int)
    requires
        0 <= acc <= limit,
    ensures
        scan_digits(s, i, acc, limit) matches DigitScan::Value(v) ==> 0 <= v <= limit,
    decreases s.len() - i,
{
    if 0 <= i < s.len() && is_decimal_digit(s[i]) && acc * 10 + decimal_digit_value(s[i]) <= limit {
        lemma_scan_digits_bounded(s, i + 1, acc * 10 + decimal_digit_value(s[i]), limit);
    }
}

/// Reads the decimal digits of `s` from `start` on, stopping as `scan_digits` does.
fn read_digits(s: &str, start: usize, limit: u64) -> (outcome: Result<u64, bool>)
    requires
        start <= s@.len(),
    ensures
        match outcome {
            Ok(v) => scan_digits(s@, start as int, 0, limit as int) == DigitScan::Value(v as int),
            Err(overflow) => scan_digits(s@, start as int, 0, limit as int) == (if overflow {
                DigitScan::Overflow
            } else {
                DigitScan::InvalidDigit
            }),
        },
{
    let len = s.unicode_len();
    let mut i: usize = start;
    let mut acc: u64 = 0;
    while i < len
        invariant
            len == s@.len(),
            start <= i <= len,
            acc <= limit,
            scan_digits(s@, start as int, 0, limit as int) == scan_digits(s@, i as int, acc as int, limit as int),
        decreases len - i,
    {
        let c = s.get_char(i);
        if !('0' <= c && c <= '9') {
            return Err(false);
        }
        let d: u64 = (c as u64) - ('0' as u64);
        assert(d as int == decimal_digit_value(c));
        let wide: u128 = (acc as u128) * 10 + (d as u128);
        assert(wide == acc * 10 + d) by (nonlinear_arith)
            requires
                acc <= limit,
                d < 10,
                wide == (acc as u128) * 10 + (d as u128),
        ;
        if wide > (limit as u128) {
            return Err(true);
        }
        acc = wide as u64;
        i = i + 1;
    }
    Ok(acc)
}

/// The text of `s` as a `u64`, or why it is not one (see `parse_u64_spec`).
pub fn parse_u64_text(s: &str) -> (parsed: Result<u64, IntegerParseError>)
    ensures
        match parsed {
            Ok(v) => parse_u64_spec(s@) == Ok::<int, IntegerParseError>(v as int),
            Err(e) => parse_u64_spec(s@) == Err::<int, IntegerParseError>(e),
        },
{
    let len = s.unicode_len();
    if len == 0 {
        return Err(IntegerParseError::Empty);
    }
    let first = s.get_char(0);
    if len == 1 && (first == '+' || first == '-') {
        return Err(IntegerParseError::InvalidDigit);
    }
    let start: usize = if first == '+' { 1 } else { 0 };
    match read_digits(s, start, u64::MAX) {
        Ok(v) => Ok(v),
        Err(overflow) => if overflow {
            Err(IntegerParseError::PosOverflow)
        } else {
            Err(IntegerParseError::InvalidDigit)
        },
    }
}

/// The text of `s` as an `i64`, or why it is not one (see `parse_i64_spec`).
pub fn parse_i64_text(s: &str) -> (parsed: Result<i64, IntegerParseError>)
    ensures
        match parsed {
            Ok(v) => parse_i64_spec(s@) == Ok::<int, IntegerParseError>(v as int),
            Err(e) => parse_i64_spec(s@) == Err::<int, IntegerParseError>(e),
        },
{
    let len = s.unicode_len();
    if len == 0 {
        return Err(IntegerParseError::Empty);
    }
    let first = s.get_char(0);
    if len == 1 && (first == '+' || first == '-') {
        return Err(IntegerParseError::InvalidDigit);
    }
    if first == '-' {
        proof {
            lemma_scan_digits_bounded(s@, 1, 0, 0x8000_0000_0000_0000);
        }
        match read_digits(s, 1, 0x8000_0000_0000_0000) {
            Ok(magnitude) => {
                if magnitude == 0x8000_0000_0000_0000 {
                    Ok(i64::MIN)
                } else {
                    let below: i64 = magnitude as i64;
                    Ok(-below)
                }
            },
            Err(overflow) => if overflow {
                Err(IntegerParseError::NegOverflow)
            } else {
                Err(IntegerParseError::InvalidDigit)
            },
        }
    } else {
        let start: usize = if first == '+' { 1 } else { 0 };
        proof {
            lemma_scan_digits_bounded(s@, start as int, 0, i64::MAX as int);
        }
        match read_digits(s, start, i64::MAX as u64) {
            Ok(v) => Ok(v as i64),
            Err(overflow) => if overflow {
                Err(IntegerParseError::PosOverflow)
            } else {
                Err(IntegerParseError::InvalidDigit)
            },
        }
    }
}

/// The message for text that is not a signed integer.
pub open spec fn invalid_integer_message(value: Seq<char>, error: IntegerParseError) -> Seq<char> {
    "invalid integer "@ + value + ": "@ + integer_parse_error_text(error)
}

/// The message for text that is not an unsigned integer.
pub open spec fn invalid_unsigned_integer_message(value: Seq<char>, error: IntegerParseError) -> Seq<char> {
    "invalid unsigned integer "@ + value + ": "@ + integer_parse_error_text(error)
}

/// `value` as an `i64`, or the message saying why it is not one.
pub fn parse_i64(value: String) -> (parsed: Result<i64, String>)
    ensures
        match parse_i64_spec(value@) {
            Ok(v) => parsed matches Ok(n) && n as int == v,
            Err(e) => parsed matches Err(m) && m@ == invalid_integer_message(value@, e),
        },
{
    match parse_i64_text(value.as_str()) {
        Ok(v) => Ok(v),
        Err(e) => {
            let mut m = owned("invalid integer ");
            append_str(&mut m, value.as_str());
            append_str(&mut m, ": ");
            append_str(&mut m, e.as_str());
            Err(m)
        },
    }
}

/// `value` as a `u64`, or the message saying why it is not one.
pub fn parse_u64(value: String) -> (parsed: Result<u64, String>)
    ensures
        match parse_u64_spec(value@) {
            Ok(v) => parsed matches Ok(n) && n as int == v,
            Err(e) => parsed matches Err(m) && m@ == invalid_unsigned_integer_message(value@, e),
        },
{
    match parse_u64_text(value.as_str()) {
        Ok(v) => Ok(v),
        Err(e) => {
            let mut m = owned("invalid unsigned integer ");
            append_str(&mut m, value.as_str());
            append_str(&mut m, ": ");
            append_str(&mut m, e.as_str());
            Err(m)
        },
    }
}

/// Whole seconds since the Unix epoch by the system clock, or `None` when the clock reads
/// before the epoch: a call of `SystemTime::elapsed` on `UNIX_EPOCH`. Nothing is said of the
/// value, which is the time.
#[verifier::external_body]
fn seconds_since_unix_epoch() -> Option<u64> {
    match std::time::UNIX_EPOCH.elapsed() {
        Ok(duration) => Some(duration.as_secs()),
        Err(_) => None,
    }
}

/// The advertisement sequence for a clock reading: its seconds, at least 1; 1 without one.
pub open spec fn sequence_for_clock(seconds: Option<u64>) -> u64 {
    match seconds {
        Some(s) => if s < 1 { 1 } else { s },
        None => 1,
    }
}

/// The advertisement sequence for a clock reading (see `sequence_for_clock`).
pub fn sequence_from_unix_seconds(seconds: Option<u64>) -> (sequence: u64)
    ensures
        sequence == sequence_for_clock(seconds),
{
    match seconds {
        Some(s) => if s < 1 { 1 } else { s },
        None => 1,
    }
}

/// A default advertisement sequence taken from the clock: the seconds since the Unix epoch, at
/// least 1, or 1 when the clock reads before the epoch.
pub fn unix_sequence() -> (sequence: u64)
    ensures
        sequence >= 1,
{
    sequence_from_unix_seconds(seconds_since_unix_epoch())
}

/// The protocol named `value`, if it is a protocol name.
pub open spec fn protocol_named(value: Seq<char>) -> Option<ProfileSyncPeerDiscoveryProtocol> {
    if value == protocol_name(ProfileSyncPeerDiscoveryProtocol::Libp2pRendezvous) {
        Some(ProfileSyncPeerDiscoveryProtocol::Libp2pRendezvous)
    } else if value == protocol_name(ProfileSyncPeerDiscoveryProtocol::Libp2pKademlia) {
        Some(ProfileSyncPeerDiscoveryProtocol::Libp2pKademlia)
    } else if value == protocol_name(ProfileSyncPeerDiscoveryProtocol::Ipns) {
        Some(ProfileSyncPeerDiscoveryProtocol::Ipns)
    } else if value == protocol_name(ProfileSyncPeerDiscoveryProtocol::IrohRendezvous) {
        Some(ProfileSyncPeerDiscoveryProtocol::IrohRendezvous)
    } else if value == protocol_name(ProfileSyncPeerDiscoveryProtocol::LocalSimulation) {
        Some(ProfileSyncPeerDiscoveryProtocol::LocalSimulation)
    } else {
        None
    }
}

/// The message for a protocol name that is not supported.
pub open spec fn unsupported_protocol_message(value: Seq<char>) -> Seq<char> {
    "unsupported profile-sync discovery protocol: "@ + value
}

/// The discovery protocol named `value`, or the message saying it is not supported.
pub fn parse_protocol(value: &str) -> (protocol: Result<ProfileSyncPeerDiscoveryProtocol, String>)
    ensures
        match protocol_named(value@) {
            Some(p) => protocol == Ok::<ProfileSyncPeerDiscoveryProtocol, String>(p),
            None => protocol matches Err(m) && m@ == unsupported_protocol_message(value@),
        },
{
    if str_equal(value, ProfileSyncPeerDiscoveryProtocol::Libp2pRendezvous.as_str()) {
        Ok(ProfileSyncPeerDiscoveryProtocol::Libp2pRendezvous)
    } else if str_equal(value, ProfileSyncPeerDiscoveryProtocol::Libp2pKademlia.as_str()) {
        Ok(ProfileSyncPeerDiscoveryProtocol::Libp2pKademlia)
    } else if str_equal(value, ProfileSyncPeerDiscoveryProtocol::Ipns.as_str()) {
        Ok(ProfileSyncPeerDiscoveryProtocol::Ipns)
    } else if str_equal(value, ProfileSyncPeerDiscoveryProtocol::IrohRendezvous.as_str()) {
        Ok(ProfileSyncPeerDiscoveryProtocol::IrohRendezvous)
    } else if str_equal(value, ProfileSyncPeerDiscoveryProtocol::LocalSimulation.as_str()) {
        Ok(ProfileSyncPeerDiscoveryProtocol::LocalSimulation)
    } else {
        let mut m = owned("unsupported profile-sync discovery protocol: ");
        append_str(&mut m, value);
        Err(m)
    }
}

/// The capabilities an advertisement announces: the service-frame capability first, then
/// each extra capability not named before, in order.
pub fn advertisement_capabilities(extra_capabilities: Vec<String>) -> (capabilities: Vec<String>)
    ensures
        capabilities.deep_view() == extend_unique(seq![service_frame_capability()], extra_capabilities.deep_view()),
{
    let mut capabilities: Vec<String> = Vec::new();
    capabilities.push(owned(profile_sync_peer_discovery_capability()));
    assert(capabilities.deep_view() =~= seq![service_frame_capability()]);
    extend_unique_object_ids(&mut capabilities, extra_capabilities);
    capabilities
}


/// One command-line argument: its text, or, for an argument that is not valid Unicode, its
/// bytes as the operating system gave them, so that a path argument names the same file.
#[derive(Clone, Debug, PartialEq, Eq)]
pub enum CommandLineArgument {
    Text(String),
    NotUnicode(Vec<u8>),
}

/// What a command-line argument holds.
pub enum ArgumentValue {
    Text(Seq<char>),
    NotUnicode(Seq<u8>),
}

impl View for CommandLineArgument {
    type V = ArgumentValue;

    open spec fn view(&self) -> ArgumentValue {
        match self {
            CommandLineArgument::Text(text) => ArgumentValue::Text(text@),
            CommandLineArgument::NotUnicode(bytes) => ArgumentValue::NotUnicode(bytes@),
        }
    }
}

impl CommandLineArgument {
    /// A copy of this argument.
    pub fn duplicate(&self) -> (copy: CommandLineArgument)
        ensures
            copy@ == self@,
    {
        match self {
            CommandLineArgument::Text(text) => CommandLineArgument::Text(text.clone()),
            CommandLineArgument::NotUnicode(bytes) => {
                let copied = bytes.clone();
                assert(copied@ =~= bytes@);
                CommandLineArgument::NotUnicode(copied)
            },
        }
    }
}

/// An optional argument as what it holds.
pub open spec fn option_argument(value: Option<CommandLineArgument>) -> Option<ArgumentValue> {
    match value {
        Some(a) => Some(a@),
        None => None,
    }
}

/// A list of arguments as what they hold.
pub open spec fn argument_values(values: Seq<CommandLineArgument>) -> Seq<ArgumentValue> {
    values.map_values(|a: CommandLineArgument| a@)
}

/// The message for an option given without its value.
pub open spec fn missing_value_message(name: Seq<char>, usage: Seq<char>) -> Seq<char> {
    "missing value for "@ + name + "\n\n"@ + usage
}

/// The message for an argument that must be, and is not, valid Unicode.
pub open spec fn not_unicode_message(name: Seq<char>) -> Seq<char> {
    name + " must be valid UTF-8"@
}

/// The message for an argument that is no option.
pub open spec fn unknown_argument_message(argument: Seq<char>, usage: Seq<char>) -> Seq<char> {
    "unknown argument: "@ + argument + "\n\n"@ + usage
}

/// The message for a required option that was not given.
pub open spec fn missing_required_message(name: Seq<char>, usage: Seq<char>) -> Seq<char> {
    "missing required "@ + name + "\n\n"@ + usage
}

/// The text value of the option at position `i`: the next argument, which must be Unicode.
pub open spec fn string_value(args: Seq<CommandLineArgument>, i: int, name: Seq<char>, usage: Seq<char>) -> Result<Seq<char>, Seq<char>> {
    if i + 1 >= args.len() {
        Err(missing_value_message(name, usage))
    } else {
        match args[i + 1] {
            CommandLineArgument::Text(text) => Ok(text@),
            CommandLineArgument::NotUnicode(_) => Err(not_unicode_message(name)),
        }
    }
}

/// The path value of the option at position `i`: the next argument, as given, Unicode or not.
pub open spec fn path_value(args: Seq<CommandLineArgument>, i: int, name: Seq<char>, usage: Seq<char>) -> Result<ArgumentValue, Seq<char>> {
    if i + 1 >= args.len() {
        Err(missing_value_message(name, usage))
    } else {
        Ok(args[i + 1]@)
    }
}

/// The message of an error, with the usage text after it.
fn message_with_usage(head: &str, name: &str, tail: &str, usage: &str) -> (message: String)
    ensures
        message@ == head@ + name@ + tail@ + usage@,
{
    let mut m = owned(head);
    append_str(&mut m, name);
    append_str(&mut m, tail);
    append_str(&mut m, usage);
    m
}

/// The text value of the option at position `i` (see `string_value`).
fn next_string(args: &Vec<CommandLineArgument>, i: usize, name: &str, usage: &str) -> (value: Result<String, String>)
    requires
        i < args@.len(),
    ensures
        match string_value(args@, i as int, name@, usage@) {
            Ok(v) => value matches Ok(s) && s@ == v,
            Err(e) => value matches Err(m) && m@ == e,
        },
{
    if i >= args.len() - 1 {
        return Err(message_with_usage("missing value for ", name, "\n\n", usage));
    }
    match &args[i + 1] {
        CommandLineArgument::Text(text) => Ok(text.clone()),
        CommandLineArgument::NotUnicode(_) => {
            let mut m = owned(name);
            append_str(&mut m, " must be valid UTF-8");
            Err(m)
        },
    }
}

/// The path value of the option at position `i` (see `path_value`).
fn next_path(args: &Vec<CommandLineArgument>, i: usize, name: &str, usage: &str) -> (value: Result<CommandLineArgument, String>)
    requires
        i < args@.len(),
    ensures
        match path_value(args@, i as int, name@, usage@) {
            Ok(v) => value matches Ok(a) && a@ == v,
            Err(e) => value matches Err(m) && m@ == e,
        },
{
    if i >= args.len() - 1 {
        return Err(message_with_usage("missing value for ", name, "\n\n", usage));
    }
    Ok(args[i + 1].duplicate())
}

/// An optional string as its characters.
pub open spec fn option_text(value: Option<String>) -> Option<Seq<char>> {
    match value {
        Some(s) => Some(s@),
        None => None,
    }
}

/// The membership epoch an advertisement carries when none is given.
pub const DEFAULT_PROFILE_SYNC_PEER_ADVERTISEMENT_MEMBERSHIP_EPOCH: i64 = 1;

/// The usage text of the advertisement tool.
pub open spec fn advertisement_usage() -> Seq<char> {
    "Generate a signed Slate profile-sync peer discovery advertisement.\n\nUsage:\n  slate-profile-sync-advertisement --key-file <path> --network-id <id> --device-id <id> --provider-id <id> --service-addr <addr> [--profile <profile>] [--membership-epoch <n>] [--sequence <n>] [--capability <name>...] [--output <path>]\n"@
}

/// The usage text of the advertisement tool.
pub fn advertisement_usage_text() -> (usage: &'static str)
    ensures
        usage@ == advertisement_usage(),
{
    "Generate a signed Slate profile-sync peer discovery advertisement.\n\nUsage:\n  slate-profile-sync-advertisement --key-file <path> --network-id <id> --device-id <id> --provider-id <id> --service-addr <addr> [--profile <profile>] [--membership-epoch <n>] [--sequence <n>] [--capability <name>...] [--output <path>]\n"
}

/// The options of the advertisement tool as read so far.
pub struct AdvertisementArgsScan {
    pub key_file: Option<ArgumentValue>,
    pub profile: Option<Seq<char>>,
    pub network_id: Option<Seq<char>>,
    pub device_id: Option<Seq<char>>,
    pub provider_id: Option<Seq<char>>,
    pub service_addr: Option<Seq<char>>,
    pub capabilities: Seq<Seq<char>>,
    pub membership_epoch: Option<int>,
    pub sequence: Option<int>,
    pub output: Option<ArgumentValue>,
}

/// No option read yet.
pub open spec fn empty_advertisement_scan() -> AdvertisementArgsScan {
    AdvertisementArgsScan {
        key_file: None,
        profile: None,
        network_id: None,
        device_id: None,
        provider_id: None,
        service_addr: None,
        capabilities: Seq::empty(),
        membership_epoch: None,
        sequence: None,
        output: None,
    }
}

/// Reads the advertisement tool's arguments from position `i` on, into `st`: each option takes
/// the argument after it as its value (a later one replaces an earlier one; capabilities
/// accumulate); help, an unknown argument, a missing or malformed value stops it with a message.
pub open spec fn scan_advertisement_args(args: Seq<CommandLineArgument>, i: int, st: AdvertisementArgsScan) -> Result<AdvertisementArgsScan, Seq<char>>
    decreases args.len() - i,
{
    if i < 0 || i >= args.len() {
        Ok(st)
    } else {
        let usage = advertisement_usage();
        match args[i] {
            CommandLineArgument::NotUnicode(_) => Err(not_unicode_message("argument"@)),
            CommandLineArgument::Text(text) => {
                let flag = text@;
                if flag == "--help"@ || flag == "-h"@ {
                    Err(usage)
                } else if flag == "--key-file"@ {
                    match path_value(args, i, flag, usage) {
                        Ok(v) => scan_advertisement_args(args, i + 2, AdvertisementArgsScan { key_file: Some(v), ..st }),
                        Err(e) => Err(e),
                    }
                } else if flag == "--profile"@ {
                    match string_value(args, i, flag, usage) {
                        Ok(v) => scan_advertisement_args(args, i + 2, AdvertisementArgsScan { profile: Some(v), ..st }),
                        Err(e) => Err(e),
                    }
                } else if flag == "--network-id"@ {
                    match string_value(args, i, flag, usage) {
                        Ok(v) => scan_advertisement_args(args, i + 2, AdvertisementArgsScan { network_id: Some(v), ..st }),
                        Err(e) => Err(e),
                    }
                } else if flag == "--device-id"@ {
                    match string_value(args, i, flag, usage) {
                        Ok(v) => scan_advertisement_args(args, i + 2, AdvertisementArgsScan { device_id: Some(v), ..st }),
                        Err(e) => Err(e),
                    }
                } else if flag == "--provider-id"@ {
                    match string_value(args, i, flag, usage) {
                        Ok(v) => scan_advertisement_args(args, i + 2, AdvertisementArgsScan { provider_id: Some(v), ..st }),
                        Err(e) => Err(e),
                    }
                } else if flag == "--service-addr"@ {
                    match string_value(args, i, flag, usage) {
                        Ok(v) => scan_advertisement_args(args, i + 2, AdvertisementArgsScan { service_addr: Some(v), ..st }),
                        Err(e) => Err(e),
                    }
                } else if flag == "--capability"@ {
                    match string_value(args, i, flag, usage) {
                        Ok(v) => scan_advertisement_args(args, i + 2, AdvertisementArgsScan { capabilities: st.capabilities.push(v), ..st }),
                        Err(e) => Err(e),
                    }
                } else if flag == "--membership-epoch"@ {
                    match string_value(args, i, flag, usage) {
                        Ok(v) => match parse_i64_spec(v) {
                            Ok(n) => scan_advertisement_args(args, i + 2, AdvertisementArgsScan { membership_epoch: Some(n), ..st }),
                            Err(pe) => Err(invalid_integer_message(v, pe)),
                        },
                        Err(e) => Err(e),
                    }
                } else if flag == "--sequence"@ {
                    match string_value(args, i, flag, usage) {
                        Ok(v) => match parse_u64_spec(v) {
                            Ok(n) => scan_advertisement_args(args, i + 2, AdvertisementArgsScan { sequence: Some(n), ..st }),
                            Err(pe) => Err(invalid_unsigned_integer_message(v, pe)),
                        },
                        Err(e) => Err(e),
                    }
                } else if flag == "--output"@ {
                    match path_value(args, i, flag, usage) {
                        Ok(v) => scan_advertisement_args(args, i + 2, AdvertisementArgsScan { output: Some(v), ..st }),
                        Err(e) => Err(e),
                    }
                } else {
                    Err(unknown_argument_message(flag, usage))
                }
            },
        }
    }
}

/// The options of the advertisement tool, or the message that stops it: the arguments are
/// read (see `scan_advertisement_args`), then the key file, network, device, provider and
/// service address must each have been given, checked in that order.
pub open spec fn advertisement_args_outcome(args: Seq<CommandLineArgument>) -> Result<AdvertisementArgsScan, Seq<char>> {
    let usage = advertisement_usage();
    match scan_advertisement_args(args, 0, empty_advertisement_scan()) {
        Err(e) => Err(e),
        Ok(st) => {
            if st.key_file is None {
                Err(missing_required_message("--key-file"@, usage))
            } else if st.network_id is None {
                Err(missing_required_message("--network-id"@, usage))
            } else if st.device_id is None {
                Err(missing_required_message("--device-id"@, usage))
            } else if st.provider_id is None {
                Err(missing_required_message("--provider-id"@, usage))
            } else if st.service_addr is None {
                Err(missing_required_message("--service-addr"@, usage))
            } else {
                Ok(st)
            }
        },
    }
}

/// The options of the advertisement tool while its arguments are read.
pub struct ParsedAdvertisementArgs {
    pub key_file: Option<CommandLineArgument>,
    pub profile: Option<String>,
    pub network_id: Option<String>,
    pub device_id: Option<String>,
    pub provider_id: Option<String>,
    pub service_addr: Option<String>,
    pub capabilities: Vec<String>,
    pub membership_epoch: Option<i64>,
    pub sequence: Option<u64>,
    pub output: Option<CommandLineArgument>,
}

impl View for ParsedAdvertisementArgs {
    type V = AdvertisementArgsScan;

    open spec fn view(&self) -> AdvertisementArgsScan {
        AdvertisementArgsScan {
            key_file: option_argument(self.key_file),
            profile: option_text(self.profile),
            network_id: option_text(self.network_id),
            device_id: option_text(self.device_id),
            provider_id: option_text(self.provider_id),
            service_addr: option_text(self.service_addr),
            capabilities: self.capabilities.deep_view(),
            membership_epoch: match self.membership_epoch {
                Some(n) => Some(n as int),
                None => None,
            },
            sequence: match self.sequence {
                Some(n) => Some(n as int),
                None => None,
            },
            output: option_argument(self.output),
        }
    }
}

/// The options of the advertisement tool.
#[derive(Clone, Debug, PartialEq, Eq)]
pub struct AdvertisementArgs {
    pub key_file: CommandLineArgument,
    pub profile: Option<String>,
    pub network_id: String,
    pub device_id: String,
    pub provider_id: String,
    pub service_addr: String,
    pub capabilities: Vec<String>,
    pub membership_epoch: i64,
    pub sequence: u64,
    pub output: Option<CommandLineArgument>,
}

/// Reads the advertisement tool's arguments (see `scan_advertisement_args`).
fn scan_advertisement_arguments(args: &Vec<CommandLineArgument>) -> (scanned: Result<ParsedAdvertisementArgs, String>)
    ensures
        match scan_advertisement_args(args@, 0, empty_advertisement_scan()) {
            Ok(st) => scanned matches Ok(p) && p@ == st,
            Err(e) => scanned matches Err(m) && m@ == e,
        },
{
    let usage = advertisement_usage_text();
    let mut parsed = ParsedAdvertisementArgs {
        key_file: None,
        profile: None,
        network_id: None,
        device_id: None,
        provider_id: None,
        service_addr: None,
        capabilities: Vec::new(),
        membership_epoch: None,
        sequence: None,
        output: None,
    };
    assert(parsed@ == empty_advertisement_scan()) by {
        assert(parsed.capabilities.deep_view() =~= Seq::<Seq<char>>::empty());
    }
    let mut i: usize = 0;
    while i < args.len()
        invariant
            i <= args@.len(),
            usage@ == advertisement_usage(),
            scan_advertisement_args(args@, 0, empty_advertisement_scan()) == scan_advertisement_args(args@, i as int, parsed@),
        decreases args.len() - i,
    {
        match &args[i] {
            CommandLineArgument::NotUnicode(_) => {
                let mut m = owned("argument");
                append_str(&mut m, " must be valid UTF-8");
                return Err(m);
            },
            CommandLineArgument::Text(text) => {
                let flag = text.as_str();
                if str_equal(flag, "--help") || str_equal(flag, "-h") {
                    return Err(owned(usage));
                } else if str_equal(flag, "--key-file") {
                    match next_path(args, i, flag, usage) {
                        Ok(v) => { parsed.key_file = Some(v); },
                        Err(e) => { return Err(e); },
                    }
                } else if str_equal(flag, "--profile") {
                    match next_string(args, i, flag, usage) {
                        Ok(v) => { parsed.profile = Some(v); },
                        Err(e) => { return Err(e); },
                    }
                } else if str_equal(flag, "--network-id") {
                    match next_string(args, i, flag, usage) {
                        Ok(v) => { parsed.network_id = Some(v); },
                        Err(e) => { return Err(e); },
                    }
                } else if str_equal(flag, "--device-id") {
                    match next_string(args, i, flag, usage) {
                        Ok(v) => { parsed.device_id = Some(v); },
                        Err(e) => { return Err(e); },
                    }
                } else if str_equal(flag, "--provider-id") {
                    match next_string(args, i, flag, usage) {
                        Ok(v) => { parsed.provider_id = Some(v); },
                        Err(e) => { return Err(e); },
                    }
                } else if str_equal(flag, "--service-addr") {
                    match next_string(args, i, flag, usage) {
                        Ok(v) => { parsed.service_addr = Some(v); },
                        Err(e) => { return Err(e); },
                    }
                } else if str_equal(flag, "--capability") {
                    match next_string(args, i, flag, usage) {
                        Ok(v) => {
                            let ghost before = parsed.capabilities.deep_view();
                            parsed.capabilities.push(v);
                            assert(parsed.capabilities.deep_view() =~= before.push(v@));
                        },
                        Err(e) => { return Err(e); },
                    }
                } else if str_equal(flag, "--membership-epoch") {
                    match next_string(args, i, flag, usage) {
                        Ok(v) => {
                            match parse_i64(v) {
                                Ok(n) => { parsed.membership_epoch = Some(n); },
                                Err(e) => { return Err(e); },
                            }
                        },
                        Err(e) => { return Err(e); },
                    }
                } else if str_equal(flag, "--sequence") {
                    match next_string(args, i, flag, usage) {
                        Ok(v) => {
                            match parse_u64(v) {
                                Ok(n) => { parsed.sequence = Some(n); },
                                Err(e) => { return Err(e); },
                            }
                        },
                        Err(e) => { return Err(e); },
                    }
                } else if str_equal(flag, "--output") {
                    match next_path(args, i, flag, usage) {
                        Ok(v) => { parsed.output = Some(v); },
                        Err(e) => { return Err(e); },
                    }
                } else {
                    return Err(message_with_usage("unknown argument: ", flag, "\n\n", usage));
                }
                i = i + 2;
            },
        }
    }
    Ok(parsed)
}

impl AdvertisementArgs {
    /// The advertisement tool's options from its arguments, or the message that stops it (see
    /// `advertisement_args_outcome`). The capabilities are the service-frame capability and
    /// then the given ones, each once; the membership epoch defaults to
    /// `DEFAULT_PROFILE_SYNC_PEER_ADVERTISEMENT_MEMBERSHIP_EPOCH`, and the sequence to the
    /// clock's seconds since the Unix epoch (at least 1).
    pub fn parse(args: Vec<CommandLineArgument>) -> (parsed: Result<AdvertisementArgs, String>)
        ensures
            match advertisement_args_outcome(args@) {
                Err(e) => parsed matches Err(m) && m@ == e,
                Ok(st) => parsed matches Ok(a) && {
                    &&& Some(a.key_file@) == st.key_file
                    &&& option_text(a.profile) == st.profile
                    &&& Some(a.network_id@) == st.network_id
                    &&& Some(a.device_id@) == st.device_id
                    &&& Some(a.provider_id@) == st.provider_id
                    &&& Some(a.service_addr@) == st.service_addr
                    &&& a.capabilities.deep_view() == extend_unique(seq![service_frame_capability()], st.capabilities)
                    &&& a.membership_epoch == (match st.membership_epoch {
                        Some(n) => n,
                        None => DEFAULT_PROFILE_SYNC_PEER_ADVERTISEMENT_MEMBERSHIP_EPOCH as int,
                    })
                    &&& match st.sequence {
                        Some(n) => a.sequence == n,
                        None => a.sequence >= 1,
                    }
                    &&& option_argument(a.output) == st.output
                },
            },
    {
        let usage = advertisement_usage_text();
        let parsed = match scan_advertisement_arguments(&args) {
            Ok(p) => p,
            Err(e) => { return Err(e); },
        };
        let ParsedAdvertisementArgs {
            key_file, profile, network_id, device_id, provider_id, service_addr, capabilities,
            membership_epoch, sequence, output,
        } = parsed;
        let key_file = match key_file {
            Some(v) => v,
            None => { return Err(message_with_usage("missing required ", "--key-file", "\n\n", usage)); },
        };
        let network_id = match network_id {
            Some(v) => v,
            None => { return Err(message_with_usage("missing required ", "--network-id", "\n\n", usage)); },
        };
        let device_id = match device_id {
            Some(v) => v,
            None => { return Err(message_with_usage("missing required ", "--device-id", "\n\n", usage)); },
        };
        let provider_id = match provider_id {
            Some(v) => v,
            None => { return Err(message_with_usage("missing required ", "--provider-id", "\n\n", usage)); },
        };
        let service_addr = match service_addr {
            Some(v) => v,
            None => { return Err(message_with_usage("missing required ", "--service-addr", "\n\n", usage)); },
        };
        let membership_epoch = match membership_epoch {
            Some(n) => n,
            None => DEFAULT_PROFILE_SYNC_PEER_ADVERTISEMENT_MEMBERSHIP_EPOCH,
        };
        let sequence = match sequence {
            Some(n) => n,
            None => unix_sequence(),
        };
        Ok(AdvertisementArgs {
            key_file,
            profile,
            network_id,
            device_id,
            provider_id,
            service_addr,
            capabilities: advertisement_capabilities(capabilities),
            membership_epoch,
            sequence,
            output,
        })
    }
}


/// The profile used when none is given.
pub open spec fn default_profile_id() -> Seq<char> {
    "default"@
}

/// The discovery namespace used when none is given.
pub open spec fn default_discovery_namespace() -> Seq<char> {
    "slate-profile-sync"@
}

/// The usage text of the discovery-check tool.
pub open spec fn discovery_check_usage() -> Seq<char> {
    "Check Slate profile-sync discovery advertisements against local profile trust.\n\nUsage:\n  slate-profile-sync-discovery-check --settings-db <path> --network-id <id> --advertisement-file <path>... [--profile <profile>] [--local-device-id <id>] [--protocol <name>] [--namespace <name>] [--require-capability <name>...] [--require-trusted] [--output <path>]\n"@
}

/// The usage text of the discovery-check tool.
pub fn discovery_check_usage_text() -> (usage: &'static str)
    ensures
        usage@ == discovery_check_usage(),
{
    "Check Slate profile-sync discovery advertisements against local profile trust.\n\nUsage:\n  slate-profile-sync-discovery-check --settings-db <path> --network-id <id> --advertisement-file <path>... [--profile <profile>] [--local-device-id <id>] [--protocol <name>] [--namespace <name>] [--require-capability <name>...] [--require-trusted] [--output <path>]\n"
}

/// The options of the discovery-check tool as read so far.
pub struct DiscoveryCheckArgsScan {
    pub settings_db: Option<ArgumentValue>,
    pub profile: Option<Seq<char>>,
    pub local_device_id: Option<Seq<char>>,
    pub network_id: Option<Seq<char>>,
    pub protocol: Option<ProfileSyncPeerDiscoveryProtocol>,
    pub namespace: Option<Seq<char>>,
    pub advertisement_files: Seq<ArgumentValue>,
    pub required_capabilities: Seq<Seq<char>>,
    pub require_trusted: bool,
    pub output: Option<ArgumentValue>,
}

/// No option read yet.
pub open spec fn empty_discovery_check_scan() -> DiscoveryCheckArgsScan {
    DiscoveryCheckArgsScan {
        settings_db: None,
        profile: None,
        local_device_id: None,
        network_id: None,
        protocol: None,
        namespace: None,
        advertisement_files: Seq::empty(),
        required_capabilities: Seq::empty(),
        require_trusted: false,
        output: None,
    }
}

/// Reads the discovery-check tool's arguments from position `i` on, into `st`, as
/// `scan_advertisement_args` does for the advertisement tool: advertisement files and required
/// capabilities accumulate, `--require-trusted` takes no value, and a protocol must be named.
pub open spec fn scan_discovery_check_args(args: Seq<CommandLineArgument>, i: int, st: DiscoveryCheckArgsScan) -> Result<DiscoveryCheckArgsScan, Seq<char>>
    decreases args.len() - i,
{
    if i < 0 || i >= args.len() {
        Ok(st)
    } else {
        let usage = discovery_check_usage();
        match args[i] {
            CommandLineArgument::NotUnicode(_) => Err(not_unicode_message("argument"@)),
            CommandLineArgument::Text(text) => {
                let flag = text@;
                if flag == "--help"@ || flag == "-h"@ {
                    Err(usage)
                } else if flag == "--settings-db"@ {
                    match path_value(args, i, flag, usage) {
                        Ok(v) => scan_discovery_check_args(args, i + 2, DiscoveryCheckArgsScan { settings_db: Some(v), ..st }),
                        Err(e) => Err(e),
                    }
                } else if flag == "--profile"@ {
                    match string_value(args, i, flag, usage) {
                        Ok(v) => scan_discovery_check_args(args, i + 2, DiscoveryCheckArgsScan { profile: Some(v), ..st }),
                        Err(e) => Err(e),
                    }
                } else if flag == "--local-device-id"@ {
                    match string_value(args, i, flag, usage) {
                        Ok(v) => scan_discovery_check_args(args, i + 2, DiscoveryCheckArgsScan { local_device_id: Some(v), ..st }),
                        Err(e) => Err(e),
                    }
                } else if flag == "--network-id"@ {
                    match string_value(args, i, flag, usage) {
                        Ok(v) => scan_discovery_check_args(args, i + 2, DiscoveryCheckArgsScan { network_id: Some(v), ..st }),
                        Err(e) => Err(e),
                    }
                } else if flag == "--protocol"@ {
                    match string_value(args, i, flag, usage) {
                        Ok(v) => match protocol_named(v) {
                            Some(p) => scan_discovery_check_args(args, i + 2, DiscoveryCheckArgsScan { protocol: Some(p), ..st }),
                            None => Err(unsupported_protocol_message(v)),
                        },
                        Err(e) => Err(e),
                    }
                } else if flag == "--namespace"@ {
                    match string_value(args, i, flag, usage) {
                        Ok(v) => scan_discovery_check_args(args, i + 2, DiscoveryCheckArgsScan { namespace: Some(v), ..st }),
                        Err(e) => Err(e),
                    }
                } else if flag == "--advertisement-file"@ {
                    match path_value(args, i, flag, usage) {
                        Ok(v) => scan_discovery_check_args(args, i + 2, DiscoveryCheckArgsScan { advertisement_files: st.advertisement_files.push(v), ..st }),
                        Err(e) => Err(e),
                    }
                } else if flag == "--require-capability"@ {
                    match string_value(args, i, flag, usage) {
                        Ok(v) => scan_discovery_check_args(args, i + 2, DiscoveryCheckArgsScan { required_capabilities: st.required_capabilities.push(v), ..st }),
                        Err(e) => Err(e),
                    }
                } else if flag == "--require-trusted"@ {
                    scan_discovery_check_args(args, i + 1, DiscoveryCheckArgsScan { require_trusted: true, ..st })
                } else if flag == "--output"@ {
                    match path_value(args, i, flag, usage) {
                        Ok(v) => scan_discovery_check_args(args, i + 2, DiscoveryCheckArgsScan { output: Some(v), ..st }),
                        Err(e) => Err(e),
                    }
                } else {
                    Err(unknown_argument_message(flag, usage))
                }
            },
        }
    }
}

/// The discovery-check options as read, or the message that stops the reading: the arguments
/// are read (see `scan_discovery_check_args`), and at least one advertisement file must be
/// named.
pub open spec fn discovery_check_scan_outcome(args: Seq<CommandLineArgument>) -> Result<DiscoveryCheckArgsScan, Seq<char>> {
    match scan_discovery_check_args(args, 0, empty_discovery_check_scan()) {
        Err(e) => Err(e),
        Ok(st) => if st.advertisement_files.len() == 0 {
            Err(missing_required_message("--advertisement-file"@, discovery_check_usage()))
        } else {
            Ok(st)
        },
    }
}

/// The options of the discovery-check tool as read from its arguments.
pub struct ParsedDiscoveryCheckArgs {
    pub settings_db: Option<CommandLineArgument>,
    pub profile: Option<String>,
    pub local_device_id: Option<String>,
    pub network_id: Option<String>,
    pub protocol: Option<ProfileSyncPeerDiscoveryProtocol>,
    pub namespace: Option<String>,
    pub advertisement_files: Vec<CommandLineArgument>,
    pub required_capabilities: Vec<String>,
    pub require_trusted: bool,
    pub output: Option<CommandLineArgument>,
}

impl View for ParsedDiscoveryCheckArgs {
    type V = DiscoveryCheckArgsScan;

    open spec fn view(&self) -> DiscoveryCheckArgsScan {
        DiscoveryCheckArgsScan {
            settings_db: option_argument(self.settings_db),
            profile: option_text(self.profile),
            local_device_id: option_text(self.local_device_id),
            network_id: option_text(self.network_id),
            protocol: self.protocol,
            namespace: option_text(self.namespace),
            advertisement_files: argument_values(self.advertisement_files@),
            required_capabilities: self.required_capabilities.deep_view(),
            require_trusted: self.require_trusted,
            output: option_argument(self.output),
        }
    }
}

/// The options of the discovery-check tool.
#[derive(Clone, Debug, PartialEq, Eq)]
pub struct DiscoveryCheckArgs {
    pub settings_db: CommandLineArgument,
    pub profile: String,
    pub local_device_id: Option<String>,
    pub network_id: String,
    pub protocol: ProfileSyncPeerDiscoveryProtocol,
    pub namespace: String,
    pub advertisement_files: Vec<CommandLineArgument>,
    pub required_capabilities: Vec<String>,
    pub require_trusted: bool,
    pub output: Option<CommandLineArgument>,
}

/// The message for a required capability that is not a valid capability name, given the
/// reason the capability check gave.
pub open spec fn invalid_required_capability_message(reason: Seq<char>) -> Seq<char> {
    "invalid required profile-sync discovery capability: "@ + reason
}

/// The message for a required capability that is not a valid capability name.
pub fn invalid_required_capability(reason: &str) -> (message: String)
    ensures
        message@ == invalid_required_capability_message(reason@),
{
    let mut m = owned("invalid required profile-sync discovery capability: ");
    append_str(&mut m, reason);
    m
}

impl ParsedDiscoveryCheckArgs {
    /// Reads the discovery-check tool's arguments, or gives the message that stops the reading
    /// (see `discovery_check_scan_outcome`). The required capabilities are then to be checked
    /// as capability names before `DiscoveryCheckArgs::from_checked` completes the options.
    pub fn from_arguments(args: Vec<CommandLineArgument>) -> (parsed: Result<ParsedDiscoveryCheckArgs, String>)
        ensures
            match discovery_check_scan_outcome(args@) {
                Ok(st) => parsed matches Ok(p) && p@ == st,
                Err(e) => parsed matches Err(m) && m@ == e,
            },
    {
        let usage = discovery_check_usage_text();
        let mut parsed = ParsedDiscoveryCheckArgs {
            settings_db: None,
            profile: None,
            local_device_id: None,
            network_id: None,
            protocol: None,
            namespace: None,
            advertisement_files: Vec::new(),
            required_capabilities: Vec::new(),
            require_trusted: false,
            output: None,
        };
        assert(parsed@ == empty_discovery_check_scan()) by {
            assert(argument_values(parsed.advertisement_files@) =~= Seq::<ArgumentValue>::empty());
            assert(parsed.required_capabilities.deep_view() =~= Seq::<Seq<char>>::empty());
        }
        let mut i: usize = 0;
        while i < args.len()
            invariant
                i <= args@.len(),
                usage@ == discovery_check_usage(),
                scan_discovery_check_args(args@, 0, empty_discovery_check_scan()) == scan_discovery_check_args(args@, i as int, parsed@),
            decreases args.len() - i,
        {
            match &args[i] {
                CommandLineArgument::NotUnicode(_) => {
                    let mut m = owned("argument");
                    append_str(&mut m, " must be valid UTF-8");
                    return Err(m);
                },
                CommandLineArgument::Text(text) => {
                    let flag = text.as_str();
                    if str_equal(flag, "--help") || str_equal(flag, "-h") {
                        return Err(owned(usage));
                    } else if str_equal(flag, "--settings-db") {
                        match next_path(&args, i, flag, usage) {
                            Ok(v) => { parsed.settings_db = Some(v); },
                            Err(e) => { return Err(e); },
                        }
                    } else if str_equal(flag, "--profile") {
                        match next_string(&args, i, flag, usage) {
                            Ok(v) => { parsed.profile = Some(v); },
                            Err(e) => { return Err(e); },
                        }
                    } else if str_equal(flag, "--local-device-id") {
                        match next_string(&args, i, flag, usage) {
                            Ok(v) => { parsed.local_device_id = Some(v); },
                            Err(e) => { return Err(e); },
                        }
                    } else if str_equal(flag, "--network-id") {
                        match next_string(&args, i, flag, usage) {
                            Ok(v) => { parsed.network_id = Some(v); },
                            Err(e) => { return Err(e); },
                        }
                    } else if str_equal(flag, "--protocol") {
                        match next_string(&args, i, flag, usage) {
                            Ok(v) => {
                                match parse_protocol(v.as_str()) {
                                    Ok(p) => { parsed.protocol = Some(p); },
                                    Err(e) => { return Err(e); },
                                }
                            },
                            Err(e) => { return Err(e); },
                        }
                    } else if str_equal(flag, "--namespace") {
                        match next_string(&args, i, flag, usage) {
                            Ok(v) => { parsed.namespace = Some(v); },
                            Err(e) => { return Err(e); },
                        }
                    } else if str_equal(flag, "--advertisement-file") {
                        match next_path(&args, i, flag, usage) {
                            Ok(v) => {
                                let ghost before = argument_values(parsed.advertisement_files@);
                                parsed.advertisement_files.push(v);
                                assert(argument_values(parsed.advertisement_files@) =~= before.push(v@));
                            },
                            Err(e) => { return Err(e); },
                        }
                    } else if str_equal(flag, "--require-capability") {
                        match next_string(&args, i, flag, usage) {
                            Ok(v) => {
                                let ghost before = parsed.required_capabilities.deep_view();
                                parsed.required_capabilities.push(v);
                                assert(parsed.required_capabilities.deep_view() =~= before.push(v@));
                            },
                            Err(e) => { return Err(e); },
                        }
                    } else if str_equal(flag, "--require-trusted") {
                        parsed.require_trusted = true;
                        i = i + 1;
                        continue;
                    } else if str_equal(flag, "--output") {
                        match next_path(&args, i, flag, usage) {
                            Ok(v) => { parsed.output = Some(v); },
                            Err(e) => { return Err(e); },
                        }
                    } else {
                        return Err(message_with_usage("unknown argument: ", flag, "\n\n", usage));
                    }
                    i = i + 2;
                },
            }
        }
        if parsed.advertisement_files.len() == 0 {
            return Err(message_with_usage("missing required ", "--advertisement-file", "\n\n", usage));
        }
        Ok(parsed)
    }
}

impl DiscoveryCheckArgs {
    /// Completes the discovery-check options once the required capabilities were found to be
    /// valid capability names: the settings database and the network must have been given
    /// (checked in that order); the profile defaults to `default`, the protocol to the local
    /// simulation, and the namespace to `slate-profile-sync`.
    pub fn from_checked(parsed: ParsedDiscoveryCheckArgs) -> (args: Result<DiscoveryCheckArgs, String>)
        ensures
            match (parsed@.settings_db, parsed@.network_id) {
                (None, _) => args matches Err(m) && m@ == missing_required_message("--settings-db"@, discovery_check_usage()),
                (Some(_), None) => args matches Err(m) && m@ == missing_required_message("--network-id"@, discovery_check_usage()),
                (Some(db), Some(network)) => args matches Ok(a) && {
                    &&& a.settings_db@ == db
                    &&& a.profile@ == (match parsed@.profile { Some(p) => p, None => default_profile_id() })
                    &&& option_text(a.local_device_id) == parsed@.local_device_id
                    &&& a.network_id@ == network
                    &&& a.protocol == (match parsed@.protocol {
                        Some(p) => p,
                        None => ProfileSyncPeerDiscoveryProtocol::LocalSimulation,
                    })
                    &&& a.namespace@ == (match parsed@.namespace { Some(n) => n, None => default_discovery_namespace() })
                    &&& argument_values(a.advertisement_files@) == parsed@.advertisement_files
                    &&& a.required_capabilities.deep_view() == parsed@.required_capabilities
                    &&& a.require_trusted == parsed@.require_trusted
                    &&& option_argument(a.output) == parsed@.output
                },
            },
    {
        let usage = discovery_check_usage_text();
        let ParsedDiscoveryCheckArgs {
            settings_db, profile, local_device_id, network_id, protocol, namespace,
            advertisement_files, required_capabilities, require_trusted, output,
        } = parsed;
        let settings_db = match settings_db {
            Some(v) => v,
            None => { return Err(message_with_usage("missing required ", "--settings-db", "\n\n", usage)); },
        };
        let network_id = match network_id {
            Some(v) => v,
            None => { return Err(message_with_usage("missing required ", "--network-id", "\n\n", usage)); },
        };
        let profile = match profile {
            Some(p) => p,
            None => owned("default"),
        };
        let protocol = match protocol {
            Some(p) => p,
            None => ProfileSyncPeerDiscoveryProtocol::LocalSimulation,
        };
        let namespace = match namespace {
            Some(n) => n,
            None => owned("slate-profile-sync"),
        };
        Ok(DiscoveryCheckArgs {
            settings_db,
            profile,
            local_device_id,
            network_id,
            protocol,
            namespace,
            advertisement_files,
            required_capabilities,
            require_trusted,
            output,
        })
    }
}


/// Whether an argument at position `from` or later is the text `flag`.
pub open spec fn names_option(args: Seq<CommandLineArgument>, from: int, flag: Seq<char>) -> bool {
    exists|j: int| from <= j < args.len() && #[trigger] args[j]@ == ArgumentValue::Text(flag)
}

/// An option named after position `i` is named from position `i` on.
proof fn lemma_names_option_later(args: Seq<CommandLineArgument>, i: int)
    ensures
        forall|f: Seq<char>| #[trigger] names_option(args, i + 1, f) ==> names_option(args, i, f),
        forall|f: Seq<char>| #[trigger] names_option(args, i + 2, f) ==> names_option(args, i, f),
{
    assert forall|f: Seq<char>| #[trigger] names_option(args, i + 1, f) implies names_option(args, i, f) by {
        let j = choose|j: int| i + 1 <= j < args.len() && #[trigger] args[j]@ == ArgumentValue::Text(f);
        assert(args[j]@ == ArgumentValue::Text(f));
    }
    assert forall|f: Seq<char>| #[trigger] names_option(args, i + 2, f) implies names_option(args, i, f) by {
        let j = choose|j: int| i + 2 <= j < args.len() && #[trigger] args[j]@ == ArgumentValue::Text(f);
        assert(args[j]@ == ArgumentValue::Text(f));
    }
}

/// Whether reading the advertisement tool's arguments from position `i` on, into `st`, sets no
/// required option, nor the membership epoch or sequence, that no argument from there on names.
pub open spec fn advertisement_scan_keeps_unnamed(args: Seq<CommandLineArgument>, i: int, st: AdvertisementArgsScan) -> bool {
    match scan_advertisement_args(args, i, st) {
        Ok(end) => {
            &&& st.key_file is None && !names_option(args, i, "--key-file"@) ==> end.key_file is None
            &&& st.network_id is None && !names_option(args, i, "--network-id"@) ==> end.network_id is None
            &&& st.device_id is None && !names_option(args, i, "--device-id"@) ==> end.device_id is None
            &&& st.provider_id is None && !names_option(args, i, "--provider-id"@) ==> end.provider_id is None
            &&& st.service_addr is None && !names_option(args, i, "--service-addr"@) ==> end.service_addr is None
            &&& st.membership_epoch is None && !names_option(args, i, "--membership-epoch"@) ==> end.membership_epoch is None
            &&& st.sequence is None && !names_option(args, i, "--sequence"@) ==> end.sequence is None
        },
        Err(_) => true,
    }
}

proof fn lemma_advertisement_scan_keeps_unnamed(args: Seq<CommandLineArgument>, i: int)
    requires
        0 <= i,
    ensures
        forall|st: AdvertisementArgsScan| #![trigger scan_advertisement_args(args, i, st)] advertisement_scan_keeps_unnamed(args, i, st),
    decreases args.len() + 2 - i,
{
    if i < args.len() {
        lemma_advertisement_scan_keeps_unnamed(args, i + 2);
        assert forall|st: AdvertisementArgsScan| #![trigger scan_advertisement_args(args, i, st)] advertisement_scan_keeps_unnamed(args, i, st) by {
            lemma_names_option_later(args, i);
            if let CommandLineArgument::Text(text) = args[i] {
                let flag = text@;
                let usage = advertisement_usage();
                assert(args[i]@ == ArgumentValue::Text(flag));
                assert(names_option(args, i, flag));
                if flag == "--help"@ || flag == "-h"@ {
                } else if flag == "--key-file"@ {
                    if let Ok(v) = path_value(args, i, flag, usage) {
                        assert(advertisement_scan_keeps_unnamed(args, i + 2, AdvertisementArgsScan { key_file: Some(v), ..st }));
                    }
                } else if flag == "--profile"@ {
                    if let Ok(v) = string_value(args, i, flag, usage) {
                        assert(advertisement_scan_keeps_unnamed(args, i + 2, AdvertisementArgsScan { profile: Some(v), ..st }));
                    }
                } else if flag == "--network-id"@ {
                    if let Ok(v) = string_value(args, i, flag, usage) {
                        assert(advertisement_scan_keeps_unnamed(args, i + 2, AdvertisementArgsScan { network_id: Some(v), ..st }));
                    }
                } else if flag == "--device-id"@ {
                    if let Ok(v) = string_value(args, i, flag, usage) {
                        assert(advertisement_scan_keeps_unnamed(args, i + 2, AdvertisementArgsScan { device_id: Some(v), ..st }));
                    }
                } else if flag == "--provider-id"@ {
                    if let Ok(v) = string_value(args, i, flag, usage) {
                        assert(advertisement_scan_keeps_unnamed(args, i + 2, AdvertisementArgsScan { provider_id: Some(v), ..st }));
                    }
                } else if flag == "--service-addr"@ {
                    if let Ok(v) = string_value(args, i, flag, usage) {
                        assert(advertisement_scan_keeps_unnamed(args, i + 2, AdvertisementArgsScan { service_addr: Some(v), ..st }));
                    }
                } else if flag == "--capability"@ {
                    if let Ok(v) = string_value(args, i, flag, usage) {
                        assert(advertisement_scan_keeps_unnamed(args, i + 2, AdvertisementArgsScan { capabilities: st.capabilities.push(v), ..st }));
                    }
                } else if flag == "--membership-epoch"@ {
                    if let Ok(v) = string_value(args, i, flag, usage) {
                        if let Ok(n) = parse_i64_spec(v) {
                            assert(advertisement_scan_keeps_unnamed(args, i + 2, AdvertisementArgsScan { membership_epoch: Some(n), ..st }));
                        }
                    }
                } else if flag == "--sequence"@ {
                    if let Ok(v) = string_value(args, i, flag, usage) {
                        if let Ok(n) = parse_u64_spec(v) {
                            assert(advertisement_scan_keeps_unnamed(args, i + 2, AdvertisementArgsScan { sequence: Some(n), ..st }));
                        }
                    }
                } else if flag == "--output"@ {
                    if let Ok(v) = path_value(args, i, flag, usage) {
                        assert(advertisement_scan_keeps_unnamed(args, i + 2, AdvertisementArgsScan { output: Some(v), ..st }));
                    }
                }
            }
        }
    }
}

/// The advertisement tool refuses arguments that do not name the key file, network, device,
/// provider and service address; when they do, an epoch or sequence that is not named takes its
/// default (see `AdvertisementArgs::parse`).
pub proof fn lemma_advertisement_args_need_required_options(args: Seq<CommandLineArgument>)
    ensures
        !names_option(args, 0, "--key-file"@) ==> advertisement_args_outcome(args) is Err,
        !names_option(args, 0, "--network-id"@) ==> advertisement_args_outcome(args) is Err,
        !names_option(args, 0, "--device-id"@) ==> advertisement_args_outcome(args) is Err,
        !names_option(args, 0, "--provider-id"@) ==> advertisement_args_outcome(args) is Err,
        !names_option(args, 0, "--service-addr"@) ==> advertisement_args_outcome(args) is Err,
        advertisement_args_outcome(args) matches Ok(st) ==> {
            &&& !names_option(args, 0, "--membership-epoch"@) ==> st.membership_epoch is None
            &&& !names_option(args, 0, "--sequence"@) ==> st.sequence is None
        },
{
    lemma_advertisement_scan_keeps_unnamed(args, 0);
    assert(scan_advertisement_args(args, 0, empty_advertisement_scan()) == scan_advertisement_args(args, 0, empty_advertisement_scan()));
}

/// Whether reading the discovery-check tool's arguments from position `i` on, into `st`, sets
/// no settings database, network, profile, protocol or namespace, and adds no advertisement
/// file, that no argument from there on names.
pub open spec fn discovery_check_scan_keeps_unnamed(args: Seq<CommandLineArgument>, i: int, st: DiscoveryCheckArgsScan) -> bool {
    match scan_discovery_check_args(args, i, st) {
        Ok(end) => {
            &&& st.settings_db is None && !names_option(args, i, "--settings-db"@) ==> end.settings_db is None
            &&& st.network_id is None && !names_option(args, i, "--network-id"@) ==> end.network_id is None
            &&& st.profile is None && !names_option(args, i, "--profile"@) ==> end.profile is None
            &&& st.protocol is None && !names_option(args, i, "--protocol"@) ==> end.protocol is None
            &&& st.namespace is None && !names_option(args, i, "--namespace"@) ==> end.namespace is None
            &&& st.advertisement_files.len() == 0 && !names_option(args, i, "--advertisement-file"@)
                ==> end.advertisement_files.len() == 0
        },
        Err(_) => true,
    }
}

proof fn lemma_discovery_check_scan_keeps_unnamed(args: Seq<CommandLineArgument>, i: int)
    requires
        0 <= i,
    ensures
        forall|st: DiscoveryCheckArgsScan| #![trigger scan_discovery_check_args(args, i, st)] discovery_check_scan_keeps_unnamed(args, i, st),
    decreases args.len() + 2 - i,
{
    if i < args.len() {
        lemma_discovery_check_scan_keeps_unnamed(args, i + 1);
        lemma_discovery_check_scan_keeps_unnamed(args, i + 2);
        assert forall|st: DiscoveryCheckArgsScan| #![trigger scan_discovery_check_args(args, i, st)] discovery_check_scan_keeps_unnamed(args, i, st) by {
            lemma_names_option_later(args, i);
            if let CommandLineArgument::Text(text) = args[i] {
                let flag = text@;
                let usage = discovery_check_usage();
                assert(args[i]@ == ArgumentValue::Text(flag));
                assert(names_option(args, i, flag));
                if flag == "--help"@ || flag == "-h"@ {
                } else if flag == "--settings-db"@ {
                    if let Ok(v) = path_value(args, i, flag, usage) {
                        assert(discovery_check_scan_keeps_unnamed(args, i + 2, DiscoveryCheckArgsScan { settings_db: Some(v), ..st }));
                    }
                } else if flag == "--profile"@ {
                    if let Ok(v) = string_value(args, i, flag, usage) {
                        assert(discovery_check_scan_keeps_unnamed(args, i + 2, DiscoveryCheckArgsScan { profile: Some(v), ..st }));
                    }
                } else if flag == "--local-device-id"@ {
                    if let Ok(v) = string_value(args, i, flag, usage) {
                        assert(discovery_check_scan_keeps_unnamed(args, i + 2, DiscoveryCheckArgsScan { local_device_id: Some(v), ..st }));
                    }
                } else if flag == "--network-id"@ {
                    if let Ok(v) = string_value(args, i, flag, usage) {
                        assert(discovery_check_scan_keeps_unnamed(args, i + 2, DiscoveryCheckArgsScan { network_id: Some(v), ..st }));
                    }
                } else if flag == "--protocol"@ {
                    if let Ok(v) = string_value(args, i, flag, usage) {
                        if let Some(p) = protocol_named(v) {
                            assert(discovery_check_scan_keeps_unnamed(args, i + 2, DiscoveryCheckArgsScan { protocol: Some(p), ..st }));
                        }
                    }
                } else if flag == "--namespace"@ {
                    if let Ok(v) = string_value(args, i, flag, usage) {
                        assert(discovery_check_scan_keeps_unnamed(args, i + 2, DiscoveryCheckArgsScan { namespace: Some(v), ..st }));
                    }
                } else if flag == "--advertisement-file"@ {
                    if let Ok(v) = path_value(args, i, flag, usage) {
                        assert(discovery_check_scan_keeps_unnamed(args, i + 2, DiscoveryCheckArgsScan { advertisement_files: st.advertisement_files.push(v), ..st }));
                    }
                } else if flag == "--require-capability"@ {
                    if let Ok(v) = string_value(args, i, flag, usage) {
                        assert(discovery_check_scan_keeps_unnamed(args, i + 2, DiscoveryCheckArgsScan { required_capabilities: st.required_capabilities.push(v), ..st }));
                    }
                } else if flag == "--require-trusted"@ {
                    assert(discovery_check_scan_keeps_unnamed(args, i + 1, DiscoveryCheckArgsScan { require_trusted: true, ..st }));
                } else if flag == "--output"@ {
                    if let Ok(v) = path_value(args, i, flag, usage) {
                        assert(discovery_check_scan_keeps_unnamed(args, i + 2, DiscoveryCheckArgsScan { output: Some(v), ..st }));
                    }
                }
            }
        }
    }
}

/// The discovery-check tool refuses arguments that name no advertisement file; of those it reads,
/// a settings database or network that is not named leaves its option unset, so that
/// `DiscoveryCheckArgs::from_checked` refuses them, and a profile, protocol or namespace that is
/// not named is left to take its default there.
pub proof fn lemma_discovery_check_args_need_required_options(args: Seq<CommandLineArgument>)
    ensures
        !names_option(args, 0, "--advertisement-file"@) ==> discovery_check_scan_outcome(args) is Err,
        discovery_check_scan_outcome(args) matches Ok(st) ==> {
            &&& !names_option(args, 0, "--settings-db"@) ==> st.settings_db is None
            &&& !names_option(args, 0, "--network-id"@) ==> st.network_id is None
            &&& !names_option(args, 0, "--profile"@) ==> st.profile is None
            &&& !names_option(args, 0, "--protocol"@) ==> st.protocol is None
            &&& !names_option(args, 0, "--namespace"@) ==> st.namespace is None
        },
{
    lemma_discovery_check_scan_keeps_unnamed(args, 0);
    assert(scan_discovery_check_args(args, 0, empty_discovery_check_scan()) == scan_discovery_check_args(args, 0, empty_discovery_check_scan()));
}

/// The number of arguments the advertisement tool's argument `flag` takes up, itself included,
/// when it names an option; 0 when it does not (help, or no option), which ends the reading.
pub open spec fn advertisement_option_width(flag: Seq<char>) -> int {
    if flag == "--key-file"@ || flag == "--profile"@ || flag == "--network-id"@ || flag == "--device-id"@ || flag == "--provider-id"@ || flag == "--service-addr"@ || flag == "--capability"@ || flag == "--membership-epoch"@ || flag == "--sequence"@ || flag == "--output"@ {
        2
    } else {
        0
    }
}

/// Whether reading the advertisement tool's arguments from the flag at position `p` on comes to
/// a flag at position `i`: every flag in between names an option, and its value follows it.
pub open spec fn advertisement_flag_reached(args: Seq<CommandLineArgument>, p: int, i: int) -> bool
    decreases i - p,
{
    if p == i {
        true
    } else if 0 <= p < i && p < args.len() {
        match args[p] {
            CommandLineArgument::Text(text) => {
                let width = advertisement_option_width(text@);
                0 < width && p + width <= i && advertisement_flag_reached(args, p + width, i)
            },
            CommandLineArgument::NotUnicode(_) => false,
        }
    } else {
        false
    }
}

/// Whether the advertisement tool's reading fails at a flag at position `i`: the argument there
/// is not Unicode; or it is help, `-h` or names no option; or it is an option given last, without
/// its value; or its value is not Unicode where text is needed, or is no number for the
/// membership epoch or the sequence.
pub open spec fn advertisement_fails_at(args: Seq<CommandLineArgument>, i: int) -> bool {
    0 <= i < args.len() && match args[i] {
        CommandLineArgument::NotUnicode(_) => true,
        CommandLineArgument::Text(text) => {
            let flag = text@;
            ||| advertisement_option_width(flag) == 0
            ||| i + 1 == args.len()
            ||| i + 1 < args.len() && match args[i + 1] {
                CommandLineArgument::NotUnicode(_) => flag != "--key-file"@ && flag != "--output"@,
                CommandLineArgument::Text(value) => {
                    ||| flag == "--membership-epoch"@ && parse_i64_spec(value@) is Err
                    ||| flag == "--sequence"@ && parse_u64_spec(value@) is Err
                },
            }
        },
    }
}

proof fn lemma_advertisement_failure_reached(args: Seq<CommandLineArgument>, p: int, i: int)
    requires
        0 <= p,
        advertisement_flag_reached(args, p, i),
        forall|st: AdvertisementArgsScan| #[trigger] scan_advertisement_args(args, i, st) is Err,
    ensures
        forall|st: AdvertisementArgsScan| #[trigger] scan_advertisement_args(args, p, st) is Err,
    decreases i - p,
{
    if p != i {
        lemma_advertisement_failure_reached(args, p + 2, i);
        assert forall|st: AdvertisementArgsScan| #[trigger] scan_advertisement_args(args, p, st) is Err by {
            if let CommandLineArgument::Text(text) = args[p] {
                let flag = text@;
                let usage = advertisement_usage();
                if flag == "--help"@ || flag == "-h"@ {
                } else if flag == "--key-file"@ {
                    if let Ok(v) = path_value(args, p, flag, usage) {
                        assert(scan_advertisement_args(args, p + 2, AdvertisementArgsScan { key_file: Some(v), ..st }) is Err);
                    }
                } else if flag == "--profile"@ {
                    if let Ok(v) = string_value(args, p, flag, usage) {
                        assert(scan_advertisement_args(args, p + 2, AdvertisementArgsScan { profile: Some(v), ..st }) is Err);
                    }
                } else if flag == "--network-id"@ {
                    if let Ok(v) = string_value(args, p, flag, usage) {
                        assert(scan_advertisement_args(args, p + 2, AdvertisementArgsScan { network_id: Some(v), ..st }) is Err);
                    }
                } else if flag == "--device-id"@ {
                    if let Ok(v) = string_value(args, p, flag, usage) {
                        assert(scan_advertisement_args(args, p + 2, AdvertisementArgsScan { device_id: Some(v), ..st }) is Err);
                    }
                } else if flag == "--provider-id"@ {
                    if let Ok(v) = string_value(args, p, flag, usage) {
                        assert(scan_advertisement_args(args, p + 2, AdvertisementArgsScan { provider_id: Some(v), ..st }) is Err);
                    }
                } else if flag == "--service-addr"@ {
                    if let Ok(v) = string_value(args, p, flag, usage) {
                        assert(scan_advertisement_args(args, p + 2, AdvertisementArgsScan { service_addr: Some(v), ..st }) is Err);
                    }
                } else if flag == "--capability"@ {
                    if let Ok(v) = string_value(args, p, flag, usage) {
                        assert(scan_advertisement_args(args, p + 2, AdvertisementArgsScan { capabilities: st.capabilities.push(v), ..st }) is Err);
                    }
                } else if flag == "--membership-epoch"@ {
                    if let Ok(v) = string_value(args, p, flag, usage) {
                        if let Ok(n) = parse_i64_spec(v) {
                            assert(scan_advertisement_args(args, p + 2, AdvertisementArgsScan { membership_epoch: Some(n), ..st }) is Err);
                        }
                    }
                } else if flag == "--sequence"@ {
                    if let Ok(v) = string_value(args, p, flag, usage) {
                        if let Ok(n) = parse_u64_spec(v) {
                            assert(scan_advertisement_args(args, p + 2, AdvertisementArgsScan { sequence: Some(n), ..st }) is Err);
                        }
                    }
                } else if flag == "--output"@ {
                    if let Ok(v) = path_value(args, p, flag, usage) {
                        assert(scan_advertisement_args(args, p + 2, AdvertisementArgsScan { output: Some(v), ..st }) is Err);
                    }
                }
            }
        }
    }
}

/// The advertisement tool refuses its arguments when its reading fails at a flag it reaches
/// (see `advertisement_fails_at`); a word given as an option's value is no flag.
pub proof fn lemma_advertisement_args_fail_at_reached_flag(args: Seq<CommandLineArgument>, i: int)
    requires
        advertisement_flag_reached(args, 0, i),
        advertisement_fails_at(args, i),
    ensures
        advertisement_args_outcome(args) is Err,
{
        reveal_strlit("--help");
        reveal_strlit("-h");
        reveal_strlit("--key-file");
        reveal_strlit("--profile");
        reveal_strlit("--network-id");
        reveal_strlit("--device-id");
        reveal_strlit("--provider-id");
        reveal_strlit("--service-addr");
        reveal_strlit("--capability");
        reveal_strlit("--membership-epoch");
        reveal_strlit("--sequence");
        reveal_strlit("--output");
    assert("--sequence"@[2] == 's' && "--key-file"@[2] == 'k');
    assert("--sequence"@ != "--key-file"@);
    assert forall|st: AdvertisementArgsScan| #[trigger] scan_advertisement_args(args, i, st) is Err by {
        if let CommandLineArgument::Text(text) = args[i] {
            let flag = text@;
            if advertisement_option_width(flag) == 0 {
                assert(scan_advertisement_args(args, i, st) is Err);
            } else if i + 1 == args.len() {
                assert(scan_advertisement_args(args, i, st) is Err);
            } else if let CommandLineArgument::NotUnicode(_) = args[i + 1] {
                assert(scan_advertisement_args(args, i, st) is Err);
            } else {
                assert("--help"@.len() == 6);
                assert("-h"@.len() == 2);
                assert("--key-file"@.len() == 10);
                assert("--profile"@.len() == 9);
                assert("--network-id"@.len() == 12);
                assert("--device-id"@.len() == 11);
                assert("--provider-id"@.len() == 13);
                assert("--service-addr"@.len() == 14);
                assert("--capability"@.len() == 12);
                assert("--membership-epoch"@.len() == 18);
                assert("--sequence"@.len() == 10);
                let usage = advertisement_usage();
                if let CommandLineArgument::Text(value) = args[i + 1] {
                    assert(string_value(args, i, flag, usage) == Ok::<Seq<char>, Seq<char>>(value@));
                }
                if flag == "--membership-epoch"@ {
                    assert(scan_advertisement_args(args, i, st) is Err);
                } else {
                    assert(flag == "--sequence"@);
                    assert(flag != "--membership-epoch"@);
                    assert(scan_advertisement_args(args, i, st) is Err);
                }
            }
        }
    }
    lemma_advertisement_failure_reached(args, 0, i);
    assert(scan_advertisement_args(args, 0, empty_advertisement_scan()) is Err);
}

/// The number of arguments the discovery-check tool's argument `flag` takes up, itself
/// included, when it names an option; 0 when it does not (help, or no option), which ends the
/// reading.
pub open spec fn discovery_check_option_width(flag: Seq<char>) -> int {
    if flag == "--settings-db"@ || flag == "--profile"@ || flag == "--local-device-id"@ || flag == "--network-id"@ || flag == "--protocol"@ || flag == "--namespace"@ || flag == "--advertisement-file"@ || flag == "--require-capability"@ || flag == "--output"@ {
        2
    } else if flag == "--require-trusted"@ {
        1
    } else {
        0
    }
}

/// Whether reading the discovery-check tool's arguments from the flag at position `p` on comes
/// to a flag at position `i`: every flag in between names an option, and its value, if it takes
/// one, follows it.
pub open spec fn discovery_check_flag_reached(args: Seq<CommandLineArgument>, p: int, i: int) -> bool
    decreases i - p,
{
    if p == i {
        true
    } else if 0 <= p < i && p < args.len() {
        match args[p] {
            CommandLineArgument::Text(text) => {
                let width = discovery_check_option_width(text@);
                0 < width && p + width <= i && discovery_check_flag_reached(args, p + width, i)
            },
            CommandLineArgument::NotUnicode(_) => false,
        }
    } else {
        false
    }
}

/// Whether the discovery-check tool's reading fails at a flag at position `i`: the argument
/// there is not Unicode; or it is help, `-h` or names no option; or it is an option that takes a
/// value given last, without it; or its value is not Unicode where text is needed, or names no
/// protocol for `--protocol`.
pub open spec fn discovery_check_fails_at(args: Seq<CommandLineArgument>, i: int) -> bool {
    0 <= i < args.len() && match args[i] {
        CommandLineArgument::NotUnicode(_) => true,
        CommandLineArgument::Text(text) => {
            let flag = text@;
            ||| discovery_check_option_width(flag) == 0
            ||| discovery_check_option_width(flag) == 2 && i + 1 == args.len()
            ||| discovery_check_option_width(flag) == 2 && i + 1 < args.len() && match args[i + 1] {
                CommandLineArgument::NotUnicode(_) =>
                    flag != "--settings-db"@ && flag != "--advertisement-file"@ && flag != "--output"@,
                CommandLineArgument::Text(value) => flag == "--protocol"@ && protocol_named(value@) is None,
            }
        },
    }
}

proof fn lemma_discovery_check_failure_reached(args: Seq<CommandLineArgument>, p: int, i: int)
    requires
        0 <= p,
        discovery_check_flag_reached(args, p, i),
        forall|st: DiscoveryCheckArgsScan| #[trigger] scan_discovery_check_args(args, i, st) is Err,
    ensures
        forall|st: DiscoveryCheckArgsScan| #[trigger] scan_discovery_check_args(args, p, st) is Err,
    decreases i - p,
{
    if p != i {
        reveal_strlit("--settings-db");
        reveal_strlit("--profile");
        reveal_strlit("--local-device-id");
        reveal_strlit("--network-id");
        reveal_strlit("--protocol");
        reveal_strlit("--namespace");
        reveal_strlit("--advertisement-file");
        reveal_strlit("--require-capability");
        reveal_strlit("--output");
        reveal_strlit("--require-trusted");
        assert("--require-trusted"@[2] == 'r' && "--local-device-id"@[2] == 'l');
        assert("--require-trusted"@ != "--local-device-id"@);
        let width = match args[p] {
            CommandLineArgument::Text(text) => discovery_check_option_width(text@),
            CommandLineArgument::NotUnicode(_) => 0,
        };
        lemma_discovery_check_failure_reached(args, p + width, i);
        assert forall|st: DiscoveryCheckArgsScan| #[trigger] scan_discovery_check_args(args, p, st) is Err by {
            if let CommandLineArgument::Text(text) = args[p] {
                let flag = text@;
                let usage = discovery_check_usage();
                if flag == "--help"@ || flag == "-h"@ {
                } else if flag == "--settings-db"@ {
                    if let Ok(v) = path_value(args, p, flag, usage) {
                        assert(scan_discovery_check_args(args, p + 2, DiscoveryCheckArgsScan { settings_db: Some(v), ..st }) is Err);
                    }
                } else if flag == "--profile"@ {
                    if let Ok(v) = string_value(args, p, flag, usage) {
                        assert(scan_discovery_check_args(args, p + 2, DiscoveryCheckArgsScan { profile: Some(v), ..st }) is Err);
                    }
                } else if flag == "--local-device-id"@ {
                    if let Ok(v) = string_value(args, p, flag, usage) {
                        assert(scan_discovery_check_args(args, p + 2, DiscoveryCheckArgsScan { local_device_id: Some(v), ..st }) is Err);
                    }
                } else if flag == "--network-id"@ {
                    if let Ok(v) = string_value(args, p, flag, usage) {
                        assert(scan_discovery_check_args(args, p + 2, DiscoveryCheckArgsScan { network_id: Some(v), ..st }) is Err);
                    }
                } else if flag == "--protocol"@ {
                    if let Ok(v) = string_value(args, p, flag, usage) {
                        if let Some(pr) = protocol_named(v) {
                            assert(scan_discovery_check_args(args, p + 2, DiscoveryCheckArgsScan { protocol: Some(pr), ..st }) is Err);
                        }
                    }
                } else if flag == "--namespace"@ {
                    if let Ok(v) = string_value(args, p, flag, usage) {
                        assert(scan_discovery_check_args(args, p + 2, DiscoveryCheckArgsScan { namespace: Some(v), ..st }) is Err);
                    }
                } else if flag == "--advertisement-file"@ {
                    if let Ok(v) = path_value(args, p, flag, usage) {
                        assert(scan_discovery_check_args(args, p + 2, DiscoveryCheckArgsScan { advertisement_files: st.advertisement_files.push(v), ..st }) is Err);
                    }
                } else if flag == "--require-capability"@ {
                    if let Ok(v) = string_value(args, p, flag, usage) {
                        assert(scan_discovery_check_args(args, p + 2, DiscoveryCheckArgsScan { required_capabilities: st.required_capabilities.push(v), ..st }) is Err);
                    }
                } else if flag == "--require-trusted"@ {
                    assert(scan_discovery_check_args(args, p + 1, DiscoveryCheckArgsScan { require_trusted: true, ..st }) is Err);
                } else if flag == "--output"@ {
                    if let Ok(v) = path_value(args, p, flag, usage) {
                        assert(scan_discovery_check_args(args, p + 2, DiscoveryCheckArgsScan { output: Some(v), ..st }) is Err);
                    }
                }
            }
        }
    }
}

/// The discovery-check tool refuses its arguments when its reading fails at a flag it reaches
/// (see `discovery_check_fails_at`); a word given as an option's value is no flag.
pub proof fn lemma_discovery_check_args_fail_at_reached_flag(args: Seq<CommandLineArgument>, i: int)
    requires
        discovery_check_flag_reached(args, 0, i),
        discovery_check_fails_at(args, i),
    ensures
        discovery_check_scan_outcome(args) is Err,
{
        reveal_strlit("--help");
        reveal_strlit("-h");
        reveal_strlit("--settings-db");
        reveal_strlit("--profile");
        reveal_strlit("--local-device-id");
        reveal_strlit("--network-id");
        reveal_strlit("--protocol");
        reveal_strlit("--namespace");
        reveal_strlit("--advertisement-file");
        reveal_strlit("--require-capability");
        reveal_strlit("--output");
        reveal_strlit("--require-trusted");
    assert("--require-trusted"@[2] == 'r' && "--local-device-id"@[2] == 'l');
    assert("--require-trusted"@ != "--local-device-id"@);
    assert forall|st: DiscoveryCheckArgsScan| #[trigger] scan_discovery_check_args(args, i, st) is Err by {
    }
    lemma_discovery_check_failure_reached(args, 0, i);
    assert(scan_discovery_check_args(args, 0, empty_discovery_check_scan()) is Err);
}

/// The text an argument holds; nothing for one that is not Unicode.
pub open spec fn argument_text_of(value: ArgumentValue) -> Seq<char> {
    match value {
        ArgumentValue::Text(text) => text,
        ArgumentValue::NotUnicode(_) => Seq::empty(),
    }
}

/// The texts arguments hold.
pub open spec fn argument_texts(values: Seq<ArgumentValue>) -> Seq<Seq<char>> {
    values.map_values(|value: ArgumentValue| argument_text_of(value))
}

/// A single-valued option after reading: the last value given to it, or what it held before
/// when none was given.
pub open spec fn last_given<T>(before: Option<T>, given: Seq<T>) -> Option<T> {
    if given.len() == 0 {
        before
    } else {
        Some(given.last())
    }
}

/// The values given, in order, to the discovery-check option `flag` at the flags that reading
/// the arguments from position `p` on reaches (for `--require-trusted`, which takes no value,
/// the flag itself each time it is given).
pub open spec fn discovery_check_option_values(args: Seq<CommandLineArgument>, p: int, flag: Seq<char>) -> Seq<ArgumentValue>
    decreases args.len() - p,
{
    if p < 0 || p >= args.len() {
        Seq::empty()
    } else {
        match args[p] {
            CommandLineArgument::Text(text) => {
                let width = discovery_check_option_width(text@);
                if width == 0 || p + width > args.len() {
                    Seq::empty()
                } else if text@ == flag {
                    seq![args[p + width - 1]@] + discovery_check_option_values(args, p + width, flag)
                } else {
                    discovery_check_option_values(args, p + width, flag)
                }
            },
            CommandLineArgument::NotUnicode(_) => Seq::empty(),
        }
    }
}

/// Whether reading the discovery-check arguments from position `p` on, into `st`, leaves every
/// option with the values given to it at the flags it reaches: a single-valued option holds the
/// last value given (the protocol it names, for `--protocol`), a list option gains every value
/// given, in order, and `--require-trusted` is set once given.
pub open spec fn discovery_check_scan_collects(args: Seq<CommandLineArgument>, p: int, st: DiscoveryCheckArgsScan) -> bool {
    match scan_discovery_check_args(args, p, st) {
        Ok(end) => {
            &&& end.settings_db == last_given(st.settings_db, discovery_check_option_values(args, p, "--settings-db"@))
            &&& end.profile == last_given(st.profile, argument_texts(discovery_check_option_values(args, p, "--profile"@)))
            &&& end.local_device_id == last_given(st.local_device_id, argument_texts(discovery_check_option_values(args, p, "--local-device-id"@)))
            &&& end.network_id == last_given(st.network_id, argument_texts(discovery_check_option_values(args, p, "--network-id"@)))
            &&& discovery_check_option_values(args, p, "--protocol"@).len() == 0 ==> end.protocol == st.protocol
            &&& discovery_check_option_values(args, p, "--protocol"@).len() > 0
                ==> end.protocol == protocol_named(argument_text_of(discovery_check_option_values(args, p, "--protocol"@).last()))
            &&& end.namespace == last_given(st.namespace, argument_texts(discovery_check_option_values(args, p, "--namespace"@)))
            &&& end.advertisement_files == st.advertisement_files + discovery_check_option_values(args, p, "--advertisement-file"@)
            &&& end.required_capabilities == st.required_capabilities + argument_texts(discovery_check_option_values(args, p, "--require-capability"@))
            &&& end.require_trusted == (st.require_trusted || discovery_check_option_values(args, p, "--require-trusted"@).len() > 0)
            &&& end.output == last_given(st.output, discovery_check_option_values(args, p, "--output"@))
        },
        Err(_) => true,
    }
}

proof fn lemma_discovery_check_scan_collects(args: Seq<CommandLineArgument>, p: int)
    requires
        0 <= p,
    ensures
        forall|st: DiscoveryCheckArgsScan| #![trigger scan_discovery_check_args(args, p, st)] discovery_check_scan_collects(args, p, st),
    decreases args.len() + 2 - p,
{
    if p < args.len() {
        reveal_strlit("--help");
        reveal_strlit("-h");
        reveal_strlit("--settings-db");
        reveal_strlit("--profile");
        reveal_strlit("--local-device-id");
        reveal_strlit("--network-id");
        reveal_strlit("--protocol");
        reveal_strlit("--namespace");
        reveal_strlit("--advertisement-file");
        reveal_strlit("--require-capability");
        reveal_strlit("--require-trusted");
        reveal_strlit("--output");
        assert("--require-trusted"@[2] == 'r' && "--local-device-id"@[2] == 'l');
        assert("--advertisement-file"@[2] == 'a' && "--require-capability"@[2] == 'r');
        lemma_discovery_check_scan_collects(args, p + 1);
        lemma_discovery_check_scan_collects(args, p + 2);
        assert forall|st: DiscoveryCheckArgsScan| #![trigger scan_discovery_check_args(args, p, st)] discovery_check_scan_collects(args, p, st) by {
            if let CommandLineArgument::Text(text) = args[p] {
                let flag = text@;
                let usage = discovery_check_usage();
                if flag == "--help"@ || flag == "-h"@ {
                } else if flag == "--settings-db"@ {
                    if let Ok(v) = path_value(args, p, flag, usage) {
                        assert(discovery_check_scan_collects(args, p + 2, DiscoveryCheckArgsScan { settings_db: Some(v), ..st }));
                        assert(discovery_check_option_values(args, p, "--settings-db"@) == seq![args[p + 1]@] + discovery_check_option_values(args, p + 2, "--settings-db"@));
                        assert(discovery_check_option_values(args, p, "--profile"@) == discovery_check_option_values(args, p + 2, "--profile"@));
                        assert(discovery_check_option_values(args, p, "--local-device-id"@) == discovery_check_option_values(args, p + 2, "--local-device-id"@));
                        assert(discovery_check_option_values(args, p, "--network-id"@) == discovery_check_option_values(args, p + 2, "--network-id"@));
                        assert(discovery_check_option_values(args, p, "--protocol"@) == discovery_check_option_values(args, p + 2, "--protocol"@));
                        assert(discovery_check_option_values(args, p, "--namespace"@) == discovery_check_option_values(args, p + 2, "--namespace"@));
                        assert(discovery_check_option_values(args, p, "--advertisement-file"@) == discovery_check_option_values(args, p + 2, "--advertisement-file"@));
                        assert(discovery_check_option_values(args, p, "--require-capability"@) == discovery_check_option_values(args, p + 2, "--require-capability"@));
                        assert(discovery_check_option_values(args, p, "--require-trusted"@) == discovery_check_option_values(args, p + 2, "--require-trusted"@));
                        assert(discovery_check_option_values(args, p, "--output"@) == discovery_check_option_values(args, p + 2, "--output"@));
                    }
                } else if flag == "--profile"@ {
                    if let Ok(v) = string_value(args, p, flag, usage) {
                        assert(discovery_check_scan_collects(args, p + 2, DiscoveryCheckArgsScan { profile: Some(v), ..st }));
                        assert(args[p + 1]@ == ArgumentValue::Text(v));
                        assert(discovery_check_option_values(args, p, "--settings-db"@) == discovery_check_option_values(args, p + 2, "--settings-db"@));
                        assert(discovery_check_option_values(args, p, "--profile"@) == seq![args[p + 1]@] + discovery_check_option_values(args, p + 2, "--profile"@));
                        assert(discovery_check_option_values(args, p, "--local-device-id"@) == discovery_check_option_values(args, p + 2, "--local-device-id"@));
                        assert(discovery_check_option_values(args, p, "--network-id"@) == discovery_check_option_values(args, p + 2, "--network-id"@));
                        assert(discovery_check_option_values(args, p, "--protocol"@) == discovery_check_option_values(args, p + 2, "--protocol"@));
                        assert(discovery_check_option_values(args, p, "--namespace"@) == discovery_check_option_values(args, p + 2, "--namespace"@));
                        assert(discovery_check_option_values(args, p, "--advertisement-file"@) == discovery_check_option_values(args, p + 2, "--advertisement-file"@));
                        assert(discovery_check_option_values(args, p, "--require-capability"@) == discovery_check_option_values(args, p + 2, "--require-capability"@));
                        assert(discovery_check_option_values(args, p, "--require-trusted"@) == discovery_check_option_values(args, p + 2, "--require-trusted"@));
                        assert(discovery_check_option_values(args, p, "--output"@) == discovery_check_option_values(args, p + 2, "--output"@));
                    }
                } else if flag == "--local-device-id"@ {
                    if let Ok(v) = string_value(args, p, flag, usage) {
                        assert(discovery_check_scan_collects(args, p + 2, DiscoveryCheckArgsScan { local_device_id: Some(v), ..st }));
                        assert(args[p + 1]@ == ArgumentValue::Text(v));
                        assert(discovery_check_option_values(args, p, "--settings-db"@) == discovery_check_option_values(args, p + 2, "--settings-db"@));
                        assert(discovery_check_option_values(args, p, "--profile"@) == discovery_check_option_values(args, p + 2, "--profile"@));
                        assert(discovery_check_option_values(args, p, "--local-device-id"@) == seq![args[p + 1]@] + discovery_check_option_values(args, p + 2, "--local-device-id"@));
                        assert(discovery_check_option_values(args, p, "--network-id"@) == discovery_check_option_values(args, p + 2, "--network-id"@));
                        assert(discovery_check_option_values(args, p, "--protocol"@) == discovery_check_option_values(args, p + 2, "--protocol"@));
                        assert(discovery_check_option_values(args, p, "--namespace"@) == discovery_check_option_values(args, p + 2, "--namespace"@));
                        assert(discovery_check_option_values(args, p, "--advertisement-file"@) == discovery_check_option_values(args, p + 2, "--advertisement-file"@));
                        assert(discovery_check_option_values(args, p, "--require-capability"@) == discovery_check_option_values(args, p + 2, "--require-capability"@));
                        assert(discovery_check_option_values(args, p, "--require-trusted"@) == discovery_check_option_values(args, p + 2, "--require-trusted"@));
                        assert(discovery_check_option_values(args, p, "--output"@) == discovery_check_option_values(args, p + 2, "--output"@));
                    }
                } else if flag == "--network-id"@ {
                    if let Ok(v) = string_value(args, p, flag, usage) {
                        assert(discovery_check_scan_collects(args, p + 2, DiscoveryCheckArgsScan { network_id: Some(v), ..st }));
                        assert(args[p + 1]@ == ArgumentValue::Text(v));
                        assert(discovery_check_option_values(args, p, "--settings-db"@) == discovery_check_option_values(args, p + 2, "--settings-db"@));
                        assert(discovery_check_option_values(args, p, "--profile"@) == discovery_check_option_values(args, p + 2, "--profile"@));
                        assert(discovery_check_option_values(args, p, "--local-device-id"@) == discovery_check_option_values(args, p + 2, "--local-device-id"@));
                        assert(discovery_check_option_values(args, p, "--network-id"@) == seq![args[p + 1]@] + discovery_check_option_values(args, p + 2, "--network-id"@));
                        assert(discovery_check_option_values(args, p, "--protocol"@) == discovery_check_option_values(args, p + 2, "--protocol"@));
                        assert(discovery_check_option_values(args, p, "--namespace"@) == discovery_check_option_values(args, p + 2, "--namespace"@));
                        assert(discovery_check_option_values(args, p, "--advertisement-file"@) == discovery_check_option_values(args, p + 2, "--advertisement-file"@));
                        assert(discovery_check_option_values(args, p, "--require-capability"@) == discovery_check_option_values(args, p + 2, "--require-capability"@));
                        assert(discovery_check_option_values(args, p, "--require-trusted"@) == discovery_check_option_values(args, p + 2, "--require-trusted"@));
                        assert(discovery_check_option_values(args, p, "--output"@) == discovery_check_option_values(args, p + 2, "--output"@));
                    }
                } else if flag == "--protocol"@ {
                    if let Ok(v) = string_value(args, p, flag, usage) {
                        if let Some(pr) = protocol_named(v) {
                            assert(discovery_check_scan_collects(args, p + 2, DiscoveryCheckArgsScan { protocol: Some(pr), ..st }));
                            assert(args[p + 1]@ == ArgumentValue::Text(v));
                            assert(discovery_check_option_values(args, p, "--settings-db"@) == discovery_check_option_values(args, p + 2, "--settings-db"@));
                            assert(discovery_check_option_values(args, p, "--profile"@) == discovery_check_option_values(args, p + 2, "--profile"@));
                            assert(discovery_check_option_values(args, p, "--local-device-id"@) == discovery_check_option_values(args, p + 2, "--local-device-id"@));
                            assert(discovery_check_option_values(args, p, "--network-id"@) == discovery_check_option_values(args, p + 2, "--network-id"@));
                            assert(discovery_check_option_values(args, p, "--protocol"@) == seq![args[p + 1]@] + discovery_check_option_values(args, p + 2, "--protocol"@));
                            assert(discovery_check_option_values(args, p, "--namespace"@) == discovery_check_option_values(args, p + 2, "--namespace"@));
                            assert(discovery_check_option_values(args, p, "--advertisement-file"@) == discovery_check_option_values(args, p + 2, "--advertisement-file"@));
                            assert(discovery_check_option_values(args, p, "--require-capability"@) == discovery_check_option_values(args, p + 2, "--require-capability"@));
                            assert(discovery_check_option_values(args, p, "--require-trusted"@) == discovery_check_option_values(args, p + 2, "--require-trusted"@));
                            assert(discovery_check_option_values(args, p, "--output"@) == discovery_check_option_values(args, p + 2, "--output"@));
                        }
                    }
                } else if flag == "--namespace"@ {
                    if let Ok(v) = string_value(args, p, flag, usage) {
                        assert(discovery_check_scan_collects(args, p + 2, DiscoveryCheckArgsScan { namespace: Some(v), ..st }));
                        assert(args[p + 1]@ == ArgumentValue::Text(v));
                        assert(discovery_check_option_values(args, p, "--settings-db"@) == discovery_check_option_values(args, p + 2, "--settings-db"@));
                        assert(discovery_check_option_values(args, p, "--profile"@) == discovery_check_option_values(args, p + 2, "--profile"@));
                        assert(discovery_check_option_values(args, p, "--local-device-id"@) == discovery_check_option_values(args, p + 2, "--local-device-id"@));
                        assert(discovery_check_option_values(args, p, "--network-id"@) == discovery_check_option_values(args, p + 2, "--network-id"@));
                        assert(discovery_check_option_values(args, p, "--protocol"@) == discovery_check_option_values(args, p + 2, "--protocol"@));
                        assert(discovery_check_option_values(args, p, "--namespace"@) == seq![args[p + 1]@] + discovery_check_option_values(args, p + 2, "--namespace"@));
                        assert(discovery_check_option_values(args, p, "--advertisement-file"@) == discovery_check_option_values(args, p + 2, "--advertisement-file"@));
                        assert(discovery_check_option_values(args, p, "--require-capability"@) == discovery_check_option_values(args, p + 2, "--require-capability"@));
                        assert(discovery_check_option_values(args, p, "--require-trusted"@) == discovery_check_option_values(args, p + 2, "--require-trusted"@));
                        assert(discovery_check_option_values(args, p, "--output"@) == discovery_check_option_values(args, p + 2, "--output"@));
                    }
                } else if flag == "--advertisement-file"@ {
                    if let Ok(v) = path_value(args, p, flag, usage) {
                        assert(discovery_check_scan_collects(args, p + 2, DiscoveryCheckArgsScan { advertisement_files: st.advertisement_files.push(v), ..st }));
                        assert(discovery_check_option_values(args, p, "--settings-db"@) == discovery_check_option_values(args, p + 2, "--settings-db"@));
                        assert(discovery_check_option_values(args, p, "--profile"@) == discovery_check_option_values(args, p + 2, "--profile"@));
                        assert(discovery_check_option_values(args, p, "--local-device-id"@) == discovery_check_option_values(args, p + 2, "--local-device-id"@));
                        assert(discovery_check_option_values(args, p, "--network-id"@) == discovery_check_option_values(args, p + 2, "--network-id"@));
                        assert(discovery_check_option_values(args, p, "--protocol"@) == discovery_check_option_values(args, p + 2, "--protocol"@));
                        assert(discovery_check_option_values(args, p, "--namespace"@) == discovery_check_option_values(args, p + 2, "--namespace"@));
                        assert(discovery_check_option_values(args, p, "--advertisement-file"@) == seq![args[p + 1]@] + discovery_check_option_values(args, p + 2, "--advertisement-file"@));
                        assert(discovery_check_option_values(args, p, "--require-capability"@) == discovery_check_option_values(args, p + 2, "--require-capability"@));
                        assert(discovery_check_option_values(args, p, "--require-trusted"@) == discovery_check_option_values(args, p + 2, "--require-trusted"@));
                        assert(discovery_check_option_values(args, p, "--output"@) == discovery_check_option_values(args, p + 2, "--output"@));
                        assert(st.advertisement_files.push(v) + discovery_check_option_values(args, p + 2, "--advertisement-file"@) =~= st.advertisement_files + discovery_check_option_values(args, p, "--advertisement-file"@));
                    }
                } else if flag == "--require-capability"@ {
                    if let Ok(v) = string_value(args, p, flag, usage) {
                        assert(discovery_check_scan_collects(args, p + 2, DiscoveryCheckArgsScan { required_capabilities: st.required_capabilities.push(v), ..st }));
                        assert(args[p + 1]@ == ArgumentValue::Text(v));
                        assert(discovery_check_option_values(args, p, "--settings-db"@) == discovery_check_option_values(args, p + 2, "--settings-db"@));
                        assert(discovery_check_option_values(args, p, "--profile"@) == discovery_check_option_values(args, p + 2, "--profile"@));
                        assert(discovery_check_option_values(args, p, "--local-device-id"@) == discovery_check_option_values(args, p + 2, "--local-device-id"@));
                        assert(discovery_check_option_values(args, p, "--network-id"@) == discovery_check_option_values(args, p + 2, "--network-id"@));
                        assert(discovery_check_option_values(args, p, "--protocol"@) == discovery_check_option_values(args, p + 2, "--protocol"@));
                        assert(discovery_check_option_values(args, p, "--namespace"@) == discovery_check_option_values(args, p + 2, "--namespace"@));
                        assert(discovery_check_option_values(args, p, "--advertisement-file"@) == discovery_check_option_values(args, p + 2, "--advertisement-file"@));
                        assert(discovery_check_option_values(args, p, "--require-capability"@) == seq![args[p + 1]@] + discovery_check_option_values(args, p + 2, "--require-capability"@));
                        assert(discovery_check_option_values(args, p, "--require-trusted"@) == discovery_check_option_values(args, p + 2, "--require-trusted"@));
                        assert(discovery_check_option_values(args, p, "--output"@) == discovery_check_option_values(args, p + 2, "--output"@));
                        assert(argument_texts(discovery_check_option_values(args, p, "--require-capability"@)) =~= seq![v] + argument_texts(discovery_check_option_values(args, p + 2, "--require-capability"@)));
                        assert(st.required_capabilities.push(v) + argument_texts(discovery_check_option_values(args, p + 2, "--require-capability"@)) =~= st.required_capabilities + argument_texts(discovery_check_option_values(args, p, "--require-capability"@)));
                    }
                } else if flag == "--require-trusted"@ {
                    assert(discovery_check_scan_collects(args, p + 1, DiscoveryCheckArgsScan { require_trusted: true, ..st }));
                    assert(discovery_check_option_values(args, p, "--settings-db"@) == discovery_check_option_values(args, p + 1, "--settings-db"@));
                    assert(discovery_check_option_values(args, p, "--profile"@) == discovery_check_option_values(args, p + 1, "--profile"@));
                    assert(discovery_check_option_values(args, p, "--local-device-id"@) == discovery_check_option_values(args, p + 1, "--local-device-id"@));
                    assert(discovery_check_option_values(args, p, "--network-id"@) == discovery_check_option_values(args, p + 1, "--network-id"@));
                    assert(discovery_check_option_values(args, p, "--protocol"@) == discovery_check_option_values(args, p + 1, "--protocol"@));
                    assert(discovery_check_option_values(args, p, "--namespace"@) == discovery_check_option_values(args, p + 1, "--namespace"@));
                    assert(discovery_check_option_values(args, p, "--advertisement-file"@) == discovery_check_option_values(args, p + 1, "--advertisement-file"@));
                    assert(discovery_check_option_values(args, p, "--require-capability"@) == discovery_check_option_values(args, p + 1, "--require-capability"@));
                    assert(discovery_check_option_values(args, p, "--require-trusted"@) == seq![args[p + 0]@] + discovery_check_option_values(args, p + 1, "--require-trusted"@));
                    assert(discovery_check_option_values(args, p, "--output"@) == discovery_check_option_values(args, p + 1, "--output"@));
                } else if flag == "--output"@ {
                    if let Ok(v) = path_value(args, p, flag, usage) {
                        assert(discovery_check_scan_collects(args, p + 2, DiscoveryCheckArgsScan { output: Some(v), ..st }));
                        assert(discovery_check_option_values(args, p, "--settings-db"@) == discovery_check_option_values(args, p + 2, "--settings-db"@));
                        assert(discovery_check_option_values(args, p, "--profile"@) == discovery_check_option_values(args, p + 2, "--profile"@));
                        assert(discovery_check_option_values(args, p, "--local-device-id"@) == discovery_check_option_values(args, p + 2, "--local-device-id"@));
                        assert(discovery_check_option_values(args, p, "--network-id"@) == discovery_check_option_values(args, p + 2, "--network-id"@));
                        assert(discovery_check_option_values(args, p, "--protocol"@) == discovery_check_option_values(args, p + 2, "--protocol"@));
                        assert(discovery_check_option_values(args, p, "--namespace"@) == discovery_check_option_values(args, p + 2, "--namespace"@));
                        assert(discovery_check_option_values(args, p, "--advertisement-file"@) == discovery_check_option_values(args, p + 2, "--advertisement-file"@));
                        assert(discovery_check_option_values(args, p, "--require-capability"@) == discovery_check_option_values(args, p + 2, "--require-capability"@));
                        assert(discovery_check_option_values(args, p, "--require-trusted"@) == discovery_check_option_values(args, p + 2, "--require-trusted"@));
                        assert(discovery_check_option_values(args, p, "--output"@) == seq![args[p + 1]@] + discovery_check_option_values(args, p + 2, "--output"@));
                    }
                }
            }
        }
    }
}

/// Every option the discovery-check tool reads takes the values given to it at the flags the
/// reading reaches (see `discovery_check_scan_collects`): a single-valued option the last value
/// given, or none; the advertisement files and required capabilities every value given, in
/// order; `--require-trusted` whether it was given.
pub proof fn lemma_discovery_check_args_take_given_values(args: Seq<CommandLineArgument>)
    ensures
        discovery_check_scan_collects(args, 0, empty_discovery_check_scan()),
{
    lemma_discovery_check_scan_collects(args, 0);
    assert(scan_discovery_check_args(args, 0, empty_discovery_check_scan()) == scan_discovery_check_args(args, 0, empty_discovery_check_scan()));
}

/// The values given, in order, to the advertisement tool's option `flag` at the flags that
/// reading the arguments from position `p` on reaches.
pub open spec fn advertisement_option_values(args: Seq<CommandLineArgument>, p: int, flag: Seq<char>) -> Seq<ArgumentValue>
    decreases args.len() - p,
{
    if p < 0 || p >= args.len() {
        Seq::empty()
    } else {
        match args[p] {
            CommandLineArgument::Text(text) => {
                let width = advertisement_option_width(text@);
                if width == 0 || p + width > args.len() {
                    Seq::empty()
                } else if text@ == flag {
                    seq![args[p + width - 1]@] + advertisement_option_values(args, p + width, flag)
                } else {
                    advertisement_option_values(args, p + width, flag)
                }
            },
            CommandLineArgument::NotUnicode(_) => Seq::empty(),
        }
    }
}

/// Whether reading the advertisement tool's arguments from position `p` on, into `st`, leaves
/// every option with the values given to it at the flags it reaches: a single-valued option holds
/// the last value given (the number it reads as, for the membership epoch and the sequence), and
/// the capabilities gain every value given, in order.
pub open spec fn advertisement_scan_collects(args: Seq<CommandLineArgument>, p: int, st: AdvertisementArgsScan) -> bool {
    match scan_advertisement_args(args, p, st) {
        Ok(end) => {
            &&& end.key_file == last_given(st.key_file, advertisement_option_values(args, p, "--key-file"@))
            &&& end.profile == last_given(st.profile, argument_texts(advertisement_option_values(args, p, "--profile"@)))
            &&& end.network_id == last_given(st.network_id, argument_texts(advertisement_option_values(args, p, "--network-id"@)))
            &&& end.device_id == last_given(st.device_id, argument_texts(advertisement_option_values(args, p, "--device-id"@)))
            &&& end.provider_id == last_given(st.provider_id, argument_texts(advertisement_option_values(args, p, "--provider-id"@)))
            &&& end.service_addr == last_given(st.service_addr, argument_texts(advertisement_option_values(args, p, "--service-addr"@)))
            &&& end.capabilities == st.capabilities + argument_texts(advertisement_option_values(args, p, "--capability"@))
            &&& advertisement_option_values(args, p, "--membership-epoch"@).len() == 0 ==> end.membership_epoch == st.membership_epoch
            &&& advertisement_option_values(args, p, "--membership-epoch"@).len() > 0 ==> (parse_i64_spec(argument_text_of(advertisement_option_values(args, p, "--membership-epoch"@).last()))
                matches Ok(n) && end.membership_epoch == Some(n))
            &&& advertisement_option_values(args, p, "--sequence"@).len() == 0 ==> end.sequence == st.sequence
            &&& advertisement_option_values(args, p, "--sequence"@).len() > 0 ==> (parse_u64_spec(argument_text_of(advertisement_option_values(args, p, "--sequence"@).last()))
                matches Ok(n) && end.sequence == Some(n))
            &&& end.output == last_given(st.output, advertisement_option_values(args, p, "--output"@))
        },
        Err(_) => true,
    }
}

proof fn lemma_advertisement_scan_collects(args: Seq<CommandLineArgument>, p: int)
    requires
        0 <= p,
    ensures
        forall|st: AdvertisementArgsScan| #![trigger scan_advertisement_args(args, p, st)] advertisement_scan_collects(args, p, st),
    decreases args.len() + 2 - p,
{
    if p < args.len() {
        reveal_strlit("--help");
        reveal_strlit("-h");
        reveal_strlit("--key-file");
        reveal_strlit("--profile");
        reveal_strlit("--network-id");
        reveal_strlit("--device-id");
        reveal_strlit("--provider-id");
        reveal_strlit("--service-addr");
        reveal_strlit("--capability");
        reveal_strlit("--membership-epoch");
        reveal_strlit("--sequence");
        reveal_strlit("--output");
        assert("--sequence"@[2] == 's' && "--key-file"@[2] == 'k');
        assert("--network-id"@[2] == 'n' && "--capability"@[2] == 'c');
        assert("--help"@.len() == 6);
        assert("-h"@.len() == 2);
        assert("--key-file"@.len() == 10);
        assert("--profile"@.len() == 9);
        assert("--network-id"@.len() == 12);
        assert("--device-id"@.len() == 11);
        assert("--provider-id"@.len() == 13);
        assert("--service-addr"@.len() == 14);
        assert("--capability"@.len() == 12);
        assert("--membership-epoch"@.len() == 18);
        assert("--sequence"@.len() == 10);
        assert("--output"@.len() == 8);
        lemma_advertisement_scan_collects(args, p + 2);
        assert forall|st: AdvertisementArgsScan| #![trigger scan_advertisement_args(args, p, st)] advertisement_scan_collects(args, p, st) by {
            if let CommandLineArgument::Text(text) = args[p] {
                let flag = text@;
                let usage = advertisement_usage();
                if flag == "--help"@ || flag == "-h"@ {
                } else if flag == "--key-file"@ {
                    if let Ok(v) = path_value(args, p, flag, usage) {
                        assert(advertisement_scan_collects(args, p + 2, AdvertisementArgsScan { key_file: Some(v), ..st }));
                        assert(advertisement_option_values(args, p, "--key-file"@) == seq![args[p + 1]@] + advertisement_option_values(args, p + 2, "--key-file"@));
                        assert(advertisement_option_values(args, p, "--profile"@) == advertisement_option_values(args, p + 2, "--profile"@));
                        assert(advertisement_option_values(args, p, "--network-id"@) == advertisement_option_values(args, p + 2, "--network-id"@));
                        assert(advertisement_option_values(args, p, "--device-id"@) == advertisement_option_values(args, p + 2, "--device-id"@));
                        assert(advertisement_option_values(args, p, "--provider-id"@) == advertisement_option_values(args, p + 2, "--provider-id"@));
                        assert(advertisement_option_values(args, p, "--service-addr"@) == advertisement_option_values(args, p + 2, "--service-addr"@));
                        assert(advertisement_option_values(args, p, "--capability"@) == advertisement_option_values(args, p + 2, "--capability"@));
                        assert(advertisement_option_values(args, p, "--membership-epoch"@) == advertisement_option_values(args, p + 2, "--membership-epoch"@));
                        assert(advertisement_option_values(args, p, "--sequence"@) == advertisement_option_values(args, p + 2, "--sequence"@));
                        assert(advertisement_option_values(args, p, "--output"@) == advertisement_option_values(args, p + 2, "--output"@));
                    }
                } else if flag == "--profile"@ {
                    if let Ok(v) = string_value(args, p, flag, usage) {
                        assert(advertisement_scan_collects(args, p + 2, AdvertisementArgsScan { profile: Some(v), ..st }));
                        assert(args[p + 1]@ == ArgumentValue::Text(v));
                        assert(advertisement_option_values(args, p, "--key-file"@) == advertisement_option_values(args, p + 2, "--key-file"@));
                        assert(advertisement_option_values(args, p, "--profile"@) == seq![args[p + 1]@] + advertisement_option_values(args, p + 2, "--profile"@));
                        assert(advertisement_option_values(args, p, "--network-id"@) == advertisement_option_values(args, p + 2, "--network-id"@));
                        assert(advertisement_option_values(args, p, "--device-id"@) == advertisement_option_values(args, p + 2, "--device-id"@));
                        assert(advertisement_option_values(args, p, "--provider-id"@) == advertisement_option_values(args, p + 2, "--provider-id"@));
                        assert(advertisement_option_values(args, p, "--service-addr"@) == advertisement_option_values(args, p + 2, "--service-addr"@));
                        assert(advertisement_option_values(args, p, "--capability"@) == advertisement_option_values(args, p + 2, "--capability"@));
                        assert(advertisement_option_values(args, p, "--membership-epoch"@) == advertisement_option_values(args, p + 2, "--membership-epoch"@));
                        assert(advertisement_option_values(args, p, "--sequence"@) == advertisement_option_values(args, p + 2, "--sequence"@));
                        assert(advertisement_option_values(args, p, "--output"@) == advertisement_option_values(args, p + 2, "--output"@));
                    }
                } else if flag == "--network-id"@ {
                    if let Ok(v) = string_value(args, p, flag, usage) {
                        assert(advertisement_scan_collects(args, p + 2, AdvertisementArgsScan { network_id: Some(v), ..st }));
                        assert(args[p + 1]@ == ArgumentValue::Text(v));
                        assert(advertisement_option_values(args, p, "--key-file"@) == advertisement_option_values(args, p + 2, "--key-file"@));
                        assert(advertisement_option_values(args, p, "--profile"@) == advertisement_option_values(args, p + 2, "--profile"@));
                        assert(advertisement_option_values(args, p, "--network-id"@) == seq![args[p + 1]@] + advertisement_option_values(args, p + 2, "--network-id"@));
                        assert(advertisement_option_values(args, p, "--device-id"@) == advertisement_option_values(args, p + 2, "--device-id"@));
                        assert(advertisement_option_values(args, p, "--provider-id"@) == advertisement_option_values(args, p + 2, "--provider-id"@));
                        assert(advertisement_option_values(args, p, "--service-addr"@) == advertisement_option_values(args, p + 2, "--service-addr"@));
                        assert(advertisement_option_values(args, p, "--capability"@) == advertisement_option_values(args, p + 2, "--capability"@));
                        assert(advertisement_option_values(args, p, "--membership-epoch"@) == advertisement_option_values(args, p + 2, "--membership-epoch"@));
                        assert(advertisement_option_values(args, p, "--sequence"@) == advertisement_option_values(args, p + 2, "--sequence"@));
                        assert(advertisement_option_values(args, p, "--output"@) == advertisement_option_values(args, p + 2, "--output"@));
                    }
                } else if flag == "--device-id"@ {
                    if let Ok(v) = string_value(args, p, flag, usage) {
                        assert(advertisement_scan_collects(args, p + 2, AdvertisementArgsScan { device_id: Some(v), ..st }));
                        assert(args[p + 1]@ == ArgumentValue::Text(v));
                        assert(advertisement_option_values(args, p, "--key-file"@) == advertisement_option_values(args, p + 2, "--key-file"@));
                        assert(advertisement_option_values(args, p, "--profile"@) == advertisement_option_values(args, p + 2, "--profile"@));
                        assert(advertisement_option_values(args, p, "--network-id"@) == advertisement_option_values(args, p + 2, "--network-id"@));
                        assert(advertisement_option_values(args, p, "--device-id"@) == seq![args[p + 1]@] + advertisement_option_values(args, p + 2, "--device-id"@));
                        assert(advertisement_option_values(args, p, "--provider-id"@) == advertisement_option_values(args, p + 2, "--provider-id"@));
                        assert(advertisement_option_values(args, p, "--service-addr"@) == advertisement_option_values(args, p + 2, "--service-addr"@));
                        assert(advertisement_option_values(args, p, "--capability"@) == advertisement_option_values(args, p + 2, "--capability"@));
                        assert(advertisement_option_values(args, p, "--membership-epoch"@) == advertisement_option_values(args, p + 2, "--membership-epoch"@));
                        assert(advertisement_option_values(args, p, "--sequence"@) == advertisement_option_values(args, p + 2, "--sequence"@));
                        assert(advertisement_option_values(args, p, "--output"@) == advertisement_option_values(args, p + 2, "--output"@));
                    }
                } else if flag == "--provider-id"@ {
                    if let Ok(v) = string_value(args, p, flag, usage) {
                        assert(advertisement_scan_collects(args, p + 2, AdvertisementArgsScan { provider_id: Some(v), ..st }));
                        assert(args[p + 1]@ == ArgumentValue::Text(v));
                        assert(advertisement_option_values(args, p, "--key-file"@) == advertisement_option_values(args, p + 2, "--key-file"@));
                        assert(advertisement_option_values(args, p, "--profile"@) == advertisement_option_values(args, p + 2, "--profile"@));
                        assert(advertisement_option_values(args, p, "--network-id"@) == advertisement_option_values(args, p + 2, "--network-id"@));
                        assert(advertisement_option_values(args, p, "--device-id"@) == advertisement_option_values(args, p + 2, "--device-id"@));
                        assert(advertisement_option_values(args, p, "--provider-id"@) == seq![args[p + 1]@] + advertisement_option_values(args, p + 2, "--provider-id"@));
                        assert(advertisement_option_values(args, p, "--service-addr"@) == advertisement_option_values(args, p + 2, "--service-addr"@));
                        assert(advertisement_option_values(args, p, "--capability"@) == advertisement_option_values(args, p + 2, "--capability"@));
                        assert(advertisement_option_values(args, p, "--membership-epoch"@) == advertisement_option_values(args, p + 2, "--membership-epoch"@));
                        assert(advertisement_option_values(args, p, "--sequence"@) == advertisement_option_values(args, p + 2, "--sequence"@));
                        assert(advertisement_option_values(args, p, "--output"@) == advertisement_option_values(args, p + 2, "--output"@));
                    }
                } else if flag == "--service-addr"@ {
                    if let Ok(v) = string_value(args, p, flag, usage) {
                        assert(advertisement_scan_collects(args, p + 2, AdvertisementArgsScan { service_addr: Some(v), ..st }));
                        assert(args[p + 1]@ == ArgumentValue::Text(v));
                        assert(advertisement_option_values(args, p, "--key-file"@) == advertisement_option_values(args, p + 2, "--key-file"@));
                        assert(advertisement_option_values(args, p, "--profile"@) == advertisement_option_values(args, p + 2, "--profile"@));
                        assert(advertisement_option_values(args, p, "--network-id"@) == advertisement_option_values(args, p + 2, "--network-id"@));
                        assert(advertisement_option_values(args, p, "--device-id"@) == advertisement_option_values(args, p + 2, "--device-id"@));
                        assert(advertisement_option_values(args, p, "--provider-id"@) == advertisement_option_values(args, p + 2, "--provider-id"@));
                        assert(advertisement_option_values(args, p, "--service-addr"@) == seq![args[p + 1]@] + advertisement_option_values(args, p + 2, "--service-addr"@));
                        assert(advertisement_option_values(args, p, "--capability"@) == advertisement_option_values(args, p + 2, "--capability"@));
                        assert(advertisement_option_values(args, p, "--membership-epoch"@) == advertisement_option_values(args, p + 2, "--membership-epoch"@));
                        assert(advertisement_option_values(args, p, "--sequence"@) == advertisement_option_values(args, p + 2, "--sequence"@));
                        assert(advertisement_option_values(args, p, "--output"@) == advertisement_option_values(args, p + 2, "--output"@));
                    }
                } else if flag == "--capability"@ {
                    if let Ok(v) = string_value(args, p, flag, usage) {
                        assert(advertisement_scan_collects(args, p + 2, AdvertisementArgsScan { capabilities: st.capabilities.push(v), ..st }));
                        assert(args[p + 1]@ == ArgumentValue::Text(v));
                        assert(advertisement_option_values(args, p, "--key-file"@) == advertisement_option_values(args, p + 2, "--key-file"@));
                        assert(advertisement_option_values(args, p, "--profile"@) == advertisement_option_values(args, p + 2, "--profile"@));
                        assert(advertisement_option_values(args, p, "--network-id"@) == advertisement_option_values(args, p + 2, "--network-id"@));
                        assert(advertisement_option_values(args, p, "--device-id"@) == advertisement_option_values(args, p + 2, "--device-id"@));
                        assert(advertisement_option_values(args, p, "--provider-id"@) == advertisement_option_values(args, p + 2, "--provider-id"@));
                        assert(advertisement_option_values(args, p, "--service-addr"@) == advertisement_option_values(args, p + 2, "--service-addr"@));
                        assert(advertisement_option_values(args, p, "--capability"@) == seq![args[p + 1]@] + advertisement_option_values(args, p + 2, "--capability"@));
                        assert(advertisement_option_values(args, p, "--membership-epoch"@) == advertisement_option_values(args, p + 2, "--membership-epoch"@));
                        assert(advertisement_option_values(args, p, "--sequence"@) == advertisement_option_values(args, p + 2, "--sequence"@));
                        assert(advertisement_option_values(args, p, "--output"@) == advertisement_option_values(args, p + 2, "--output"@));
                        assert(argument_texts(advertisement_option_values(args, p, "--capability"@)) =~= seq![v] + argument_texts(advertisement_option_values(args, p + 2, "--capability"@)));
                        assert(st.capabilities.push(v) + argument_texts(advertisement_option_values(args, p + 2, "--capability"@)) =~= st.capabilities + argument_texts(advertisement_option_values(args, p, "--capability"@)));
                    }
                } else if flag == "--membership-epoch"@ {
                    if let Ok(v) = string_value(args, p, flag, usage) {
                        if let Ok(n) = parse_i64_spec(v) {
                            assert(advertisement_scan_collects(args, p + 2, AdvertisementArgsScan { membership_epoch: Some(n), ..st }));
                            assert(args[p + 1]@ == ArgumentValue::Text(v));
                            assert(advertisement_option_values(args, p, "--key-file"@) == advertisement_option_values(args, p + 2, "--key-file"@));
                            assert(advertisement_option_values(args, p, "--profile"@) == advertisement_option_values(args, p + 2, "--profile"@));
                            assert(advertisement_option_values(args, p, "--network-id"@) == advertisement_option_values(args, p + 2, "--network-id"@));
                            assert(advertisement_option_values(args, p, "--device-id"@) == advertisement_option_values(args, p + 2, "--device-id"@));
                            assert(advertisement_option_values(args, p, "--provider-id"@) == advertisement_option_values(args, p + 2, "--provider-id"@));
                            assert(advertisement_option_values(args, p, "--service-addr"@) == advertisement_option_values(args, p + 2, "--service-addr"@));
                            assert(advertisement_option_values(args, p, "--capability"@) == advertisement_option_values(args, p + 2, "--capability"@));
                            assert(advertisement_option_values(args, p, "--membership-epoch"@) == seq![args[p + 1]@] + advertisement_option_values(args, p + 2, "--membership-epoch"@));
                            assert(advertisement_option_values(args, p, "--sequence"@) == advertisement_option_values(args, p + 2, "--sequence"@));
                            assert(advertisement_option_values(args, p, "--output"@) == advertisement_option_values(args, p + 2, "--output"@));
                        }
                    }
                } else if flag == "--sequence"@ {
                    if let Ok(v) = string_value(args, p, flag, usage) {
                        if let Ok(n) = parse_u64_spec(v) {
                            assert(advertisement_scan_collects(args, p + 2, AdvertisementArgsScan { sequence: Some(n), ..st }));
                            assert(args[p + 1]@ == ArgumentValue::Text(v));
                            assert(advertisement_option_values(args, p, "--key-file"@) == advertisement_option_values(args, p + 2, "--key-file"@));
                            assert(advertisement_option_values(args, p, "--profile"@) == advertisement_option_values(args, p + 2, "--profile"@));
                            assert(advertisement_option_values(args, p, "--network-id"@) == advertisement_option_values(args, p + 2, "--network-id"@));
                            assert(advertisement_option_values(args, p, "--device-id"@) == advertisement_option_values(args, p + 2, "--device-id"@));
                            assert(advertisement_option_values(args, p, "--provider-id"@) == advertisement_option_values(args, p + 2, "--provider-id"@));
                            assert(advertisement_option_values(args, p, "--service-addr"@) == advertisement_option_values(args, p + 2, "--service-addr"@));
                            assert(advertisement_option_values(args, p, "--capability"@) == advertisement_option_values(args, p + 2, "--capability"@));
                            assert(advertisement_option_values(args, p, "--membership-epoch"@) == advertisement_option_values(args, p + 2, "--membership-epoch"@));
                            assert(advertisement_option_values(args, p, "--sequence"@) == seq![args[p + 1]@] + advertisement_option_values(args, p + 2, "--sequence"@));
                            assert(advertisement_option_values(args, p, "--output"@) == advertisement_option_values(args, p + 2, "--output"@));
                        }
                    }
                } else if flag == "--output"@ {
                    if let Ok(v) = path_value(args, p, flag, usage) {
                        assert(advertisement_scan_collects(args, p + 2, AdvertisementArgsScan { output: Some(v), ..st }));
                        assert(advertisement_option_values(args, p, "--key-file"@) == advertisement_option_values(args, p + 2, "--key-file"@));
                        assert(advertisement_option_values(args, p, "--profile"@) == advertisement_option_values(args, p + 2, "--profile"@));
                        assert(advertisement_option_values(args, p, "--network-id"@) == advertisement_option_values(args, p + 2, "--network-id"@));
                        assert(advertisement_option_values(args, p, "--device-id"@) == advertisement_option_values(args, p + 2, "--device-id"@));
                        assert(advertisement_option_values(args, p, "--provider-id"@) == advertisement_option_values(args, p + 2, "--provider-id"@));
                        assert(advertisement_option_values(args, p, "--service-addr"@) == advertisement_option_values(args, p + 2, "--service-addr"@));
                        assert(advertisement_option_values(args, p, "--capability"@) == advertisement_option_values(args, p + 2, "--capability"@));
                        assert(advertisement_option_values(args, p, "--membership-epoch"@) == advertisement_option_values(args, p + 2, "--membership-epoch"@));
                        assert(advertisement_option_values(args, p, "--sequence"@) == advertisement_option_values(args, p + 2, "--sequence"@));
                        assert(advertisement_option_values(args, p, "--output"@) == seq![args[p + 1]@] + advertisement_option_values(args, p + 2, "--output"@));
                    }
                }
            }
        }
    }
}

/// Every option the advertisement tool reads takes the values given to it at the flags the
/// reading reaches (see `advertisement_scan_collects`): a single-valued option the last value
/// given, or none; the capabilities every value given, in order.
pub proof fn lemma_advertisement_args_take_given_values(args: Seq<CommandLineArgument>)
    ensures
        advertisement_scan_collects(args, 0, empty_advertisement_scan()),
{
    lemma_advertisement_scan_collects(args, 0);
    assert(scan_advertisement_args(args, 0, empty_advertisement_scan()) == scan_advertisement_args(args, 0, empty_advertisement_scan()));
}

/// An advertisement's capabilities start with the service-frame capability, name it and each
/// extra capability exactly once, and name nothing else.
pub proof fn lemma_advertisement_capabilities(extra: Seq<Seq<char>>)
    ensures
        extend_unique(seq![service_frame_capability()], extra)[0] == service_frame_capability(),
        extend_unique(seq![service_frame_capability()], extra).no_duplicates(),
        forall|c: Seq<char>| #[trigger] extend_unique(seq![service_frame_capability()], extra).contains(c)
            <==> (c == service_frame_capability() || extra.contains(c)),
{
    let base = seq![service_frame_capability()];
    lemma_extend_unique(base, extra);
    assert(base.is_prefix_of(extend_unique(base, extra)));
    assert(base[0] == service_frame_capability());
    assert forall|c: Seq<char>| base.contains(c) <==> c == service_frame_capability() by {
        if base.contains(c) {
            let k = choose|k: int| 0 <= k < base.len() && base[k] == c;
            assert(k == 0);
        }
        if c == service_frame_capability() {
            assert(base[0] == c);
        }
    }
}


proof fn lemma_scan_digits_push(s: Seq<char>, c: char, i: int, acc: int, limit: int)
    requires
        0 <= i <= s.len(),
    ensures
        scan_digits(s.push(c), i, acc, limit) == (match scan_digits(s, i, acc, limit) {
            DigitScan::Value(v) => if !is_decimal_digit(c) {
                DigitScan::InvalidDigit
            } else if v * 10 + decimal_digit_value(c) > limit {
                DigitScan::Overflow
            } else {
                DigitScan::Value(v * 10 + decimal_digit_value(c))
            },
            DigitScan::InvalidDigit => DigitScan::InvalidDigit,
            DigitScan::Overflow => DigitScan::Overflow,
        }),
    decreases s.len() - i,
{
    let t = s.push(c);
    if i < s.len() {
        assert(t[i] == s[i]);
        if is_decimal_digit(s[i]) && acc * 10 + decimal_digit_value(s[i]) <= limit {
            lemma_scan_digits_push(s, c, i + 1, acc * 10 + decimal_digit_value(s[i]), limit);
        }
    } else {
        assert(t[i] == c);
        if is_decimal_digit(c) && acc * 10 + decimal_digit_value(c) <= limit {
            assert(scan_digits(t, i + 1, acc * 10 + decimal_digit_value(c), limit) == DigitScan::Value(acc * 10 + decimal_digit_value(c)));
        }
    }
}

proof fn lemma_scan_digits_shift(t: Seq<char>, c: char, i: int, acc: int, limit: int)
    requires
        0 <= i <= t.len(),
    ensures
        scan_digits(seq![c] + t, i + 1, acc, limit) == scan_digits(t, i, acc, limit),
    decreases t.len() - i,
{
    let s = seq![c] + t;
    if i < t.len() {
        assert(s[i + 1] == t[i]);
        if is_decimal_digit(t[i]) && acc * 10 + decimal_digit_value(t[i]) <= limit {
            lemma_scan_digits_shift(t, c, i + 1, acc * 10 + decimal_digit_value(t[i]), limit);
        }
    }
}

proof fn lemma_digit_char(d: nat)
    requires
        d < 10,
    ensures
        is_decimal_digit(digit_char(d)),
        decimal_digit_value(digit_char(d)) == d,
        digit_char(d) != '+',
        digit_char(d) != '-',
{
}

proof fn lemma_decimal_scans(n: nat, limit: int)
    requires
        n <= limit,
    ensures
        scan_digits(decimal(n), 0, 0, limit) == DigitScan::Value(n as int),
        decimal(n).len() >= 1,
        is_decimal_digit(decimal(n)[0]),
    decreases n,
{
    if n < 10 {
        lemma_digit_char(n);
        assert(decimal(n) =~= Seq::<char>::empty().push(digit_char(n)));
        lemma_scan_digits_push(Seq::<char>::empty(), digit_char(n), 0, 0, limit);
    } else {
        let high = n / 10;
        let low = (n % 10) as nat;
        lemma_decimal_scans(high, limit);
        lemma_digit_char(low);
        lemma_scan_digits_push(decimal(high), digit_char(low), 0, 0, limit);
        assert(high * 10 + low == n);
        assert(decimal(n)[0] == decimal(high)[0]);
    }
}

/// The decimal text of every `u64` reads back as that number.
pub proof fn lemma_decimal_text_parses_back(n: u64)
    ensures
        parse_u64_spec(decimal(n as nat)) == Ok::<int, IntegerParseError>(n as int),
{
    lemma_decimal_scans(n as nat, u64::MAX as int);
}

/// The signed decimal text of every `i64` reads back as that number.
pub proof fn lemma_signed_decimal_text_parses_back(v: i64)
    ensures
        parse_i64_spec(signed_decimal(v as int)) == Ok::<int, IntegerParseError>(v as int),
{
    if v < 0 {
        let magnitude = (-(v as int)) as nat;
        lemma_decimal_scans(magnitude, 0x8000_0000_0000_0000);
        let s = signed_decimal(v as int);
        assert(s == seq!['-'] + decimal(magnitude));
        assert(s[0] == '-');
        lemma_scan_digits_shift(decimal(magnitude), '-', 0, 0, 0x8000_0000_0000_0000);
    } else {
        lemma_decimal_scans(v as nat, i64::MAX as int);
    }
}

} // verus!
