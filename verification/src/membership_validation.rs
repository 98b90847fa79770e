//! Validation of received membership logs and of their entries against signed records.
use vstd::prelude::*;
use crate::membership::{
    ProfileSyncMembershipLog, ProfileSyncMembershipLogEntry, PROFILE_SYNC_MEMBERSHIP_LOG_MAX_RECORDS,
    PROFILE_SYNC_MEMBERSHIP_LOG_SCHEMA_VERSION, sync_membership_record_root_id,
    sync_membership_record_root_id_spec,
};
use crate::errors::ProfileSyncReceiveError;
use crate::text::{
    chars_lt_from, append_decimal_i64, append_decimal_u64, append_decimal_usize, append_str, chars_lt, decimal,
    owned, signed_decimal, str_equal, str_less,
};

verus! {

/// Why a received membership log, or one of its entries, is refused.
#[derive(Clone, Debug, PartialEq, Eq)]
pub enum MembershipLogRejection {
    UnsupportedSchemaVersion { schema_version: u8 },
    ProfileMismatch { expected_profile: String, actual_profile: String },
    TooManyRecords { max_records: usize, actual_records: usize },
    EmptyRecordId,
    UnexpectedRoot { record_id: String, root_id: String },
    EmptyObjectId { record_id: String },
    InvalidMembershipEpoch { record_id: String, membership_epoch: i64 },
    DuplicateRecord { record_id: String },
    OutOfOrder,
    EntryMismatch { record_id: String },
}

/// The fields of a decoded, signature-checked membership record that a log entry must repeat.
#[derive(Clone, Debug, PartialEq, Eq)]
pub struct ProfileSyncMembershipRecord {
    pub profile: String,
    pub record_id: String,
    pub membership_epoch: i64,
    pub record_kind: String,
    pub device_id: String,
}

/// Whether `prev` sorts after `cur` by (membership epoch, record id).
pub open spec fn entry_key_after(prev: ProfileSyncMembershipLogEntry, cur: ProfileSyncMembershipLogEntry) -> bool {
    prev.membership_epoch > cur.membership_epoch || (prev.membership_epoch == cur.membership_epoch
        && chars_lt(cur.record_id@, prev.record_id@))
}

/// Whether an earlier entry already used the record id of entry `i`.
pub open spec fn record_id_seen(records: Seq<ProfileSyncMembershipLogEntry>, i: int) -> bool {
    exists|j: int| 0 <= j < i && #[trigger] records[j].record_id@ == records[i].record_id@
}

/// Whether entry `i` of a log is refused, given the entries before it.
pub open spec fn entry_defective(records: Seq<ProfileSyncMembershipLogEntry>, i: int) -> bool {
    let e = records[i];
    ||| e.record_id@.len() == 0
    ||| e.root_id@ != sync_membership_record_root_id_spec(e.record_id@)
    ||| e.object_id@.len() == 0
    ||| e.membership_epoch < 1
    ||| record_id_seen(records, i)
    ||| (i > 0 && entry_key_after(records[i - 1], e))
}

/// The rejection reported for entry `i`: its first failing check, in the order the checks run.
pub open spec fn entry_rejection(records: Seq<ProfileSyncMembershipLogEntry>, i: int, r: MembershipLogRejection) -> bool {
    let e = records[i];
    if e.record_id@.len() == 0 {
        r is EmptyRecordId
    } else if e.root_id@ != sync_membership_record_root_id_spec(e.record_id@) {
        r matches MembershipLogRejection::UnexpectedRoot { record_id, root_id } && record_id@ == e.record_id@
            && root_id@ == e.root_id@
    } else if e.object_id@.len() == 0 {
        r matches MembershipLogRejection::EmptyObjectId { record_id } && record_id@ == e.record_id@
    } else if e.membership_epoch < 1 {
        r matches MembershipLogRejection::InvalidMembershipEpoch { record_id, membership_epoch }
            && record_id@ == e.record_id@ && membership_epoch == e.membership_epoch
    } else if record_id_seen(records, i) {
        r matches MembershipLogRejection::DuplicateRecord { record_id } && record_id@ == e.record_id@
    } else {
        r is OutOfOrder
    }
}

/// Entry `i` is the first refused entry.
pub open spec fn first_defect(records: Seq<ProfileSyncMembershipLogEntry>, i: int) -> bool {
    &&& 0 <= i < records.len()
    &&& entry_defective(records, i)
    &&& forall|j: int| 0 <= j < i ==> !entry_defective(records, j)
}

/// A log is accepted: current schema, the expected profile, within the record limit, and no
/// refused entry.
pub open spec fn membership_log_valid(log: ProfileSyncMembershipLog, expected_profile: Seq<char>) -> bool {
    &&& log.schema_version == PROFILE_SYNC_MEMBERSHIP_LOG_SCHEMA_VERSION
    &&& log.profile@ == expected_profile
    &&& log.records.len() <= PROFILE_SYNC_MEMBERSHIP_LOG_MAX_RECORDS
    &&& forall|i: int| 0 <= i < log.records.len() ==> !entry_defective(log.records@, i)
}

/// The outcome of checking a log: `None` when it is accepted, else the first failing check.
pub open spec fn membership_log_rejection_is(
    log: ProfileSyncMembershipLog,
    expected_profile: Seq<char>,
    r: Option<MembershipLogRejection>,
) -> bool {
    if log.schema_version != PROFILE_SYNC_MEMBERSHIP_LOG_SCHEMA_VERSION {
        r matches Some(MembershipLogRejection::UnsupportedSchemaVersion { schema_version })
            && schema_version == log.schema_version
    } else if log.profile@ != expected_profile {
        r matches Some(MembershipLogRejection::ProfileMismatch { expected_profile: x, actual_profile: y })
            && x@ == expected_profile && y@ == log.profile@
    } else if log.records.len() > PROFILE_SYNC_MEMBERSHIP_LOG_MAX_RECORDS {
        r matches Some(MembershipLogRejection::TooManyRecords { max_records, actual_records })
            && max_records == PROFILE_SYNC_MEMBERSHIP_LOG_MAX_RECORDS && actual_records == log.records.len()
    } else if exists|i: int| first_defect(log.records@, i) {
        r matches Some(rejection) && exists|i: int| #[trigger] first_defect(log.records@, i)
            && entry_rejection(log.records@, i, rejection)
    } else {
        r is None
    }
}

/// The human-readable reason for a rejection.
pub open spec fn rejection_message(r: MembershipLogRejection) -> Seq<char> {
    match r {
        MembershipLogRejection::UnsupportedSchemaVersion { schema_version } =>
            "unsupported schema version "@ + decimal(schema_version as nat),
        MembershipLogRejection::ProfileMismatch { expected_profile, actual_profile } =>
            "expected profile "@ + expected_profile@ + ", got "@ + actual_profile@,
        MembershipLogRejection::TooManyRecords { max_records, actual_records } =>
            "too many records: max "@ + decimal(max_records as nat) + ", got "@ + decimal(actual_records as nat),
        MembershipLogRejection::EmptyRecordId => "record id must not be empty"@,
        MembershipLogRejection::UnexpectedRoot { record_id, root_id } =>
            "record "@ + record_id@ + " has unexpected root "@ + root_id@,
        MembershipLogRejection::EmptyObjectId { record_id } =>
            "record "@ + record_id@ + " has an empty object id"@,
        MembershipLogRejection::InvalidMembershipEpoch { record_id, membership_epoch } =>
            "record "@ + record_id@ + " has invalid membership epoch "@ + signed_decimal(membership_epoch as int),
        MembershipLogRejection::DuplicateRecord { record_id } =>
            "record "@ + record_id@ + " is duplicated"@,
        MembershipLogRejection::OutOfOrder =>
            "records must be ordered by membership epoch and record id"@,
        MembershipLogRejection::EntryMismatch { record_id } =>
            "entry "@ + record_id@ + " does not match its signed membership record"@,
    }
}

impl MembershipLogRejection {
    /// The human-readable reason for this rejection.
    pub fn message(&self) -> (message: String)
        ensures
            message@ == rejection_message(*self),
    {
        match self {
            MembershipLogRejection::UnsupportedSchemaVersion { schema_version } => {
                let mut m = owned("unsupported schema version ");
                append_decimal_u64(&mut m, *schema_version as u64);
                m
            },
            MembershipLogRejection::ProfileMismatch { expected_profile, actual_profile } => {
                let mut m = owned("expected profile ");
                append_str(&mut m, expected_profile.as_str());
                append_str(&mut m, ", got ");
                append_str(&mut m, actual_profile.as_str());
                m
            },
            MembershipLogRejection::TooManyRecords { max_records, actual_records } => {
                let mut m = owned("too many records: max ");
                append_decimal_usize(&mut m, *max_records);
                append_str(&mut m, ", got ");
                append_decimal_usize(&mut m, *actual_records);
                m
            },
            MembershipLogRejection::EmptyRecordId => owned("record id must not be empty"),
            MembershipLogRejection::UnexpectedRoot { record_id, root_id } => {
                let mut m = owned("record ");
                append_str(&mut m, record_id.as_str());
                append_str(&mut m, " has unexpected root ");
                append_str(&mut m, root_id.as_str());
                m
            },
            MembershipLogRejection::EmptyObjectId { record_id } => {
                let mut m = owned("record ");
                append_str(&mut m, record_id.as_str());
                append_str(&mut m, " has an empty object id");
                m
            },
            MembershipLogRejection::InvalidMembershipEpoch { record_id, membership_epoch } => {
                let mut m = owned("record ");
                append_str(&mut m, record_id.as_str());
                append_str(&mut m, " has invalid membership epoch ");
                append_decimal_i64(&mut m, *membership_epoch);
                m
            },
            MembershipLogRejection::DuplicateRecord { record_id } => {
                let mut m = owned("record ");
                append_str(&mut m, record_id.as_str());
                append_str(&mut m, " is duplicated");
                m
            },
            MembershipLogRejection::OutOfOrder => owned(
                "records must be ordered by membership epoch and record id",
            ),
            MembershipLogRejection::EntryMismatch { record_id } => {
                let mut m = owned("entry ");
                append_str(&mut m, record_id.as_str());
                append_str(&mut m, " does not match its signed membership record");
                m
            },
        }
    }
}

// The record ids seen so far are found again in the entries themselves rather than kept in a
// `BTreeSet<String>`: vstd states what `BTreeSet` holds only for key types whose order it
// models (`obeys_cmp`), and `String` is not one of them, so such a set would carry nothing
// that a proof could use.
fn record_id_seen_before(records: &Vec<ProfileSyncMembershipLogEntry>, i: usize) -> (seen: bool)
    requires
        i < records.len(),
    ensures
        seen == record_id_seen(records@, i as int),
{
    let mut j: usize = 0;
    while j < i
        invariant
            i < records.len(),
            j <= i,
            forall|k: int| 0 <= k < j ==> records@[k].record_id@ != records@[i as int].record_id@,
        decreases i - j,
    {
        if str_equal(records[j].record_id.as_str(), records[i].record_id.as_str()) {
            assert(records@[j as int].record_id@ == records@[i as int].record_id@);
            return true;
        }
        j = j + 1;
    }
    false
}

fn entry_check(records: &Vec<ProfileSyncMembershipLogEntry>, i: usize) -> (rejection: Option<MembershipLogRejection>)
    requires
        i < records.len(),
    ensures
        rejection is None <==> !entry_defective(records@, i as int),
        rejection matches Some(r) ==> entry_rejection(records@, i as int, r),
{
    let e = &records[i];
    if e.record_id.as_str().is_empty() {
        return Some(MembershipLogRejection::EmptyRecordId);
    }
    let expected_root = sync_membership_record_root_id(e.record_id.as_str());
    if !str_equal(e.root_id.as_str(), expected_root.as_str()) {
        return Some(MembershipLogRejection::UnexpectedRoot {
            record_id: e.record_id.clone(),
            root_id: e.root_id.clone(),
        });
    }
    if e.object_id.as_str().is_empty() {
        return Some(MembershipLogRejection::EmptyObjectId { record_id: e.record_id.clone() });
    }
    if e.membership_epoch < 1 {
        return Some(MembershipLogRejection::InvalidMembershipEpoch {
            record_id: e.record_id.clone(),
            membership_epoch: e.membership_epoch,
        });
    }
    if record_id_seen_before(records, i) {
        return Some(MembershipLogRejection::DuplicateRecord { record_id: e.record_id.clone() });
    }
    if i > 0 {
        let p = &records[i - 1];
        if p.membership_epoch > e.membership_epoch || (p.membership_epoch == e.membership_epoch
            && str_less(e.record_id.as_str(), p.record_id.as_str())) {
            return Some(MembershipLogRejection::OutOfOrder);
        }
    }
    None
}

/// Checks a received membership log: the current schema, the expected profile, at most the
/// record limit, and entries with a non-empty record id, the record's own root, a non-empty
/// object id, a positive epoch, no repeated record id, and ordered by (epoch, record id).
/// Returns the first failing check, or `None` when the log is accepted.
pub fn membership_log_rejection(log: &ProfileSyncMembershipLog, expected_profile: &str) -> (rejection: Option<MembershipLogRejection>)
    ensures
        membership_log_rejection_is(*log, expected_profile@, rejection),
        rejection is None <==> membership_log_valid(*log, expected_profile@),
{
    if log.schema_version != PROFILE_SYNC_MEMBERSHIP_LOG_SCHEMA_VERSION {
        return Some(MembershipLogRejection::UnsupportedSchemaVersion { schema_version: log.schema_version });
    }
    if !str_equal(log.profile.as_str(), expected_profile) {
        return Some(MembershipLogRejection::ProfileMismatch {
            expected_profile: owned(expected_profile),
            actual_profile: log.profile.clone(),
        });
    }
    if log.records.len() > PROFILE_SYNC_MEMBERSHIP_LOG_MAX_RECORDS {
        return Some(MembershipLogRejection::TooManyRecords {
            max_records: PROFILE_SYNC_MEMBERSHIP_LOG_MAX_RECORDS,
            actual_records: log.records.len(),
        });
    }
    let mut i: usize = 0;
    while i < log.records.len()
        invariant
            i <= log.records.len(),
            log.schema_version == PROFILE_SYNC_MEMBERSHIP_LOG_SCHEMA_VERSION,
            log.profile@ == expected_profile@,
            log.records.len() <= PROFILE_SYNC_MEMBERSHIP_LOG_MAX_RECORDS,
            forall|j: int| 0 <= j < i ==> !entry_defective(log.records@, j),
        decreases log.records.len() - i,
    {
        let checked = entry_check(&log.records, i);
        if checked.is_some() {
            assert(first_defect(log.records@, i as int));
            assert(entry_rejection(log.records@, i as int, checked->0));
            return checked;
        }
        i = i + 1;
    }
    proof {
        if exists|k: int| first_defect(log.records@, k) {
            let k = choose|k: int| first_defect(log.records@, k);
            assert(!entry_defective(log.records@, k));
        }
    }
    None
}

/// Checks a received membership log (see `membership_log_rejection`); a refused log is an
/// `InvalidMembershipLog` error whose text is the first failing check's reason.
pub fn validate_profile_sync_membership_log(log: &ProfileSyncMembershipLog, expected_profile: &str) -> (result: Result<(), ProfileSyncReceiveError>)
    ensures
        result is Ok <==> membership_log_valid(*log, expected_profile@),
        result matches Err(e) ==> exists|r: MembershipLogRejection| #[trigger] membership_log_rejection_is(*log, expected_profile@, Some(r))
            && (e matches ProfileSyncReceiveError::InvalidMembershipLog(m) && m@ == rejection_message(r)),
{
    match membership_log_rejection(log, expected_profile) {
        None => Ok(()),
        Some(rejection) => {
            let message = rejection.message();
            proof {
                assert(membership_log_rejection_is(*log, expected_profile@, Some(rejection)));
            }
            Err(ProfileSyncReceiveError::InvalidMembershipLog(message))
        },
    }
}

/// Whether a log entry repeats the fields of the signed membership record it points at.
pub open spec fn entry_matches_record(
    expected_profile: Seq<char>,
    entry: ProfileSyncMembershipLogEntry,
    signer_device_id: Seq<char>,
    record: ProfileSyncMembershipRecord,
) -> bool {
    &&& record.profile@ == expected_profile
    &&& entry.record_id@ == record.record_id@
    &&& entry.root_id@ == sync_membership_record_root_id_spec(record.record_id@)
    &&& entry.membership_epoch == record.membership_epoch
    &&& entry.record_kind@ == record.record_kind@
    &&& entry.device_id@ == record.device_id@
    &&& entry.signer_device_id@ == signer_device_id
}

/// Checks a log entry against the decoded membership record its object holds and the device
/// that signed that object; refuses the entry on any difference.
pub fn membership_log_entry_rejection(
    expected_profile: &str,
    entry: &ProfileSyncMembershipLogEntry,
    signer_device_id: &str,
    record: &ProfileSyncMembershipRecord,
) -> (rejection: Option<MembershipLogRejection>)
    ensures
        rejection is None <==> entry_matches_record(expected_profile@, *entry, signer_device_id@, *record),
        rejection matches Some(r) ==> (r matches MembershipLogRejection::EntryMismatch { record_id }
            && record_id@ == entry.record_id@),
{
    let expected_root_id = sync_membership_record_root_id(record.record_id.as_str());
    if !str_equal(record.profile.as_str(), expected_profile)
        || !str_equal(entry.record_id.as_str(), record.record_id.as_str())
        || !str_equal(entry.root_id.as_str(), expected_root_id.as_str())
        || entry.membership_epoch != record.membership_epoch
        || !str_equal(entry.record_kind.as_str(), record.record_kind.as_str())
        || !str_equal(entry.device_id.as_str(), record.device_id.as_str())
        || !str_equal(entry.signer_device_id.as_str(), signer_device_id)
    {
        return Some(MembershipLogRejection::EntryMismatch { record_id: entry.record_id.clone() });
    }
    None
}


/// Checks a log entry against the signed membership record its object holds (see
/// `membership_log_entry_rejection`); a mismatch is an `InvalidMembershipLog` error.
pub fn validate_membership_log_entry_object(
    expected_profile: &str,
    entry: &ProfileSyncMembershipLogEntry,
    signer_device_id: &str,
    record: &ProfileSyncMembershipRecord,
) -> (result: Result<(), ProfileSyncReceiveError>)
    ensures
        result is Ok <==> entry_matches_record(expected_profile@, *entry, signer_device_id@, *record),
        result matches Err(e) ==> (e matches ProfileSyncReceiveError::InvalidMembershipLog(m)
            && m@ == "entry "@ + entry.record_id@ + " does not match its signed membership record"@),
{
    match membership_log_entry_rejection(expected_profile, entry, signer_device_id, record) {
        None => Ok(()),
        Some(rejection) => Err(ProfileSyncReceiveError::InvalidMembershipLog(rejection.message())),
    }
}

proof fn lemma_chars_lt_from_transitive(a: Seq<char>, b: Seq<char>, c: Seq<char>, i: int)
    requires
        0 <= i,
        chars_lt_from(a, b, i),
        chars_lt_from(b, c, i),
    ensures
        chars_lt_from(a, c, i),
    decreases a.len() - i,
{
    if i < a.len() && i < b.len() && i < c.len() && a[i] == b[i] && b[i] == c[i] {
        lemma_chars_lt_from_transitive(a, b, c, i + 1);
    }
}

proof fn lemma_chars_lt_from_total(a: Seq<char>, b: Seq<char>, i: int)
    requires
        0 <= i <= a.len(),
        i <= b.len(),
        a.subrange(0, i) == b.subrange(0, i),
        a != b,
    ensures
        chars_lt_from(a, b, i) || chars_lt_from(b, a, i),
    decreases a.len() - i,
{
    if i == a.len() && i == b.len() {
        assert(a =~= a.subrange(0, i));
        assert(b =~= b.subrange(0, i));
    } else if i < a.len() && i < b.len() && a[i] == b[i] {
        assert(a.subrange(0, i + 1) =~= a.subrange(0, i).push(a[i]));
        assert(b.subrange(0, i + 1) =~= b.subrange(0, i).push(b[i]));
        lemma_chars_lt_from_total(a, b, i + 1);
    } else if i < a.len() && i < b.len() {
        assert((a[i] as int) != (b[i] as int));
    }
}

/// Code-point lexicographic order is transitive.
pub proof fn lemma_chars_lt_transitive(a: Seq<char>, b: Seq<char>, c: Seq<char>)
    requires
        chars_lt(a, b),
        chars_lt(b, c),
    ensures
        chars_lt(a, c),
{
    lemma_chars_lt_from_transitive(a, b, c, 0);
}

/// Code-point lexicographic order is total on distinct sequences.
pub proof fn lemma_chars_lt_total(a: Seq<char>, b: Seq<char>)
    requires
        a != b,
    ensures
        chars_lt(a, b) || chars_lt(b, a),
{
    assert(a.subrange(0, 0) =~= b.subrange(0, 0));
    lemma_chars_lt_from_total(a, b, 0);
}

/// Whether `prev` sorts strictly before `cur` by (membership epoch, record id).
pub open spec fn entry_key_before(prev: ProfileSyncMembershipLogEntry, cur: ProfileSyncMembershipLogEntry) -> bool {
    prev.membership_epoch < cur.membership_epoch || (prev.membership_epoch == cur.membership_epoch
        && chars_lt(prev.record_id@, cur.record_id@))
}

/// An accepted membership log is one of the expected profile, in the current schema, within the
/// record limit; a current-schema log of another profile is refused as a profile mismatch that
/// names both profiles.
pub proof fn lemma_membership_log_belongs_to_expected_profile(
    log: ProfileSyncMembershipLog,
    expected_profile: Seq<char>,
    rejection: Option<MembershipLogRejection>,
)
    ensures
        membership_log_valid(log, expected_profile) ==> {
            &&& log.profile@ == expected_profile
            &&& log.schema_version == PROFILE_SYNC_MEMBERSHIP_LOG_SCHEMA_VERSION
            &&& log.records.len() <= PROFILE_SYNC_MEMBERSHIP_LOG_MAX_RECORDS
        },
        log.profile@ != expected_profile ==> !membership_log_valid(log, expected_profile),
        membership_log_rejection_is(log, expected_profile, rejection)
            && log.schema_version == PROFILE_SYNC_MEMBERSHIP_LOG_SCHEMA_VERSION
            && log.profile@ != expected_profile ==> (rejection matches Some(MembershipLogRejection::ProfileMismatch {
                expected_profile: x,
                actual_profile: y,
            }) && x@ == expected_profile && y@ == log.profile@),
        membership_log_rejection_is(log, expected_profile, rejection) && log.profile@ != expected_profile
            ==> rejection is Some,
{
}

/// An accepted membership log lists each record once, strictly ordered by (membership epoch,
/// record id), every entry under its record's own root with a non-empty object id and a
/// positive epoch.
pub proof fn lemma_valid_membership_log_is_strictly_ordered(log: ProfileSyncMembershipLog, expected_profile: Seq<char>)
    requires
        membership_log_valid(log, expected_profile),
    ensures
        forall|i: int, j: int| 0 <= i < j < log.records.len() ==>
            #[trigger] entry_key_before(log.records@[i], log.records@[j]),
        forall|i: int, j: int| 0 <= i < j < log.records.len() ==>
            #[trigger] log.records@[i].record_id@ != #[trigger] log.records@[j].record_id@,
        forall|i: int| 0 <= i < log.records.len() ==> {
            &&& (#[trigger] log.records@[i]).record_id@.len() > 0
            &&& log.records@[i].root_id@ == sync_membership_record_root_id_spec(log.records@[i].record_id@)
            &&& log.records@[i].object_id@.len() > 0
            &&& log.records@[i].membership_epoch >= 1
        },
{
    let r = log.records@;
    assert forall|i: int, j: int| 0 <= i < j < r.len() implies r[i].record_id@ != r[j].record_id@ by {
        assert(!entry_defective(r, j));
        if r[i].record_id@ == r[j].record_id@ {
            assert(record_id_seen(r, j));
        }
    }
    assert forall|j: int| 0 < j < r.len() implies entry_key_before(r[j - 1], #[trigger] r[j]) by {
        assert(!entry_defective(r, j));
        assert(r[j - 1].record_id@ != r[j].record_id@);
        if r[j - 1].membership_epoch == r[j].membership_epoch {
            lemma_chars_lt_total(r[j - 1].record_id@, r[j].record_id@);
        }
    }
    assert forall|i: int, j: int| 0 <= i < j < r.len() implies #[trigger] entry_key_before(r[i], r[j]) by {
        lemma_entry_key_chain(r, i, j);
    }
    assert forall|i: int| 0 <= i < r.len() implies {
        &&& (#[trigger] r[i]).record_id@.len() > 0
        &&& r[i].root_id@ == sync_membership_record_root_id_spec(r[i].record_id@)
        &&& r[i].object_id@.len() > 0
        &&& r[i].membership_epoch >= 1
    } by {
        assert(!entry_defective(r, i));
    }
}

proof fn lemma_entry_key_chain(r: Seq<ProfileSyncMembershipLogEntry>, i: int, j: int)
    requires
        0 <= i < j < r.len(),
        forall|k: int| 0 < k < r.len() ==> entry_key_before(r[k - 1], #[trigger] r[k]),
    ensures
        entry_key_before(r[i], r[j]),
    decreases j - i,
{
    assert(entry_key_before(r[j - 1], r[j]));
    if i < j - 1 {
        lemma_entry_key_chain(r, i, j - 1);
        if r[i].membership_epoch == r[j - 1].membership_epoch && r[j - 1].membership_epoch == r[j].membership_epoch {
            lemma_chars_lt_transitive(r[i].record_id@, r[j - 1].record_id@, r[j].record_id@);
        }
    }
}

} // verus!
