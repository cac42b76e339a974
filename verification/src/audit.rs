//! The append-only, hash-chained audit ledger. Every entry commits to the
//! previous entry's hash, so any retroactive edit breaks the chain and is
//! found by `verify_integrity`. The ledger here is the in-memory image of
//! the backing file, one entry per persisted line; reading and writing the
//! file itself is the unverified shell's work.

use vstd::prelude::*;
use vstd::utf8::encode_utf8;

use crate::digest::{digest16, digest16_of, push_str_bytes};
use crate::fresh::{fresh_id, now_rfc3339};

verus! {

/// The kinds of governance events the ledger records.
#[derive(Clone, Copy, Debug, PartialEq, Eq)]
pub enum AuditEventType {
    AdapterCreated,
    AdapterActivated,
    AdapterDeactivated,
    AdapterQuarantined,
    AdapterDestroyed,
    KillSwitchActivated,
    KillSwitchReset,
    SignatureVerified,
    SignatureFailed,
    PolicyEvaluated,
    AccessDenied,
    TrainingStarted,
    TrainingCompleted,
    TrainingFailed,
}

/// The name of an event kind, as it enters the digest preimage.
pub open spec fn event_label(t: AuditEventType) -> Seq<char> {
    match t {
        AuditEventType::AdapterCreated => "AdapterCreated"@,
        AuditEventType::AdapterActivated => "AdapterActivated"@,
        AuditEventType::AdapterDeactivated => "AdapterDeactivated"@,
        AuditEventType::AdapterQuarantined => "AdapterQuarantined"@,
        AuditEventType::AdapterDestroyed => "AdapterDestroyed"@,
        AuditEventType::KillSwitchActivated => "KillSwitchActivated"@,
        AuditEventType::KillSwitchReset => "KillSwitchReset"@,
        AuditEventType::SignatureVerified => "SignatureVerified"@,
        AuditEventType::SignatureFailed => "SignatureFailed"@,
        AuditEventType::PolicyEvaluated => "PolicyEvaluated"@,
        AuditEventType::AccessDenied => "AccessDenied"@,
        AuditEventType::TrainingStarted => "TrainingStarted"@,
        AuditEventType::TrainingCompleted => "TrainingCompleted"@,
        AuditEventType::TrainingFailed => "TrainingFailed"@,
    }
}

/// The name of an event kind, for building digest preimages.
pub fn event_label_text(t: AuditEventType) -> (r: &'static str)
    ensures
        r@ == event_label(t),
{
    match t {
        AuditEventType::AdapterCreated => "AdapterCreated",
        AuditEventType::AdapterActivated => "AdapterActivated",
        AuditEventType::AdapterDeactivated => "AdapterDeactivated",
        AuditEventType::AdapterQuarantined => "AdapterQuarantined",
        AuditEventType::AdapterDestroyed => "AdapterDestroyed",
        AuditEventType::KillSwitchActivated => "KillSwitchActivated",
        AuditEventType::KillSwitchReset => "KillSwitchReset",
        AuditEventType::SignatureVerified => "SignatureVerified",
        AuditEventType::SignatureFailed => "SignatureFailed",
        AuditEventType::PolicyEvaluated => "PolicyEvaluated",
        AuditEventType::AccessDenied => "AccessDenied",
        AuditEventType::TrainingStarted => "TrainingStarted",
        AuditEventType::TrainingCompleted => "TrainingCompleted",
        AuditEventType::TrainingFailed => "TrainingFailed",
    }
}

/// One immutable ledger entry. The timestamp is an RFC 3339 rendering and
/// `details` holds the event's structured payload as one serialized line;
/// both enter the digest exactly as written here.
#[derive(Debug)]
pub struct AuditEntry {
    pub id: String,
    pub timestamp: String,
    pub event_type: AuditEventType,
    pub actor: String,
    pub target_type: Option<String>,
    pub target_id: Option<String>,
    pub details: String,
    pub previous_hash: String,
    pub hash: String,
}

impl Clone for AuditEntry {
    fn clone(&self) -> (r: Self)
        ensures
            r == *self,
    {
        AuditEntry {
            id: self.id.clone(),
            timestamp: self.timestamp.clone(),
            event_type: self.event_type,
            actor: self.actor.clone(),
            target_type: clone_opt_string(&self.target_type),
            target_id: clone_opt_string(&self.target_id),
            details: self.details.clone(),
            previous_hash: self.previous_hash.clone(),
            hash: self.hash.clone(),
        }
    }
}

/// Copies an optional string value for value.
fn clone_opt_string(o: &Option<String>) -> (r: Option<String>)
    ensures
        r == *o,
{
    match o {
        Some(s) => Some(s.clone()),
        None => None,
    }
}

/// What opening or checking the ledger can fail with. The file and
/// serialization variants are raised by the shell that owns the backing
/// file; the ledger itself only ever reports an integrity violation.
#[derive(Debug)]
pub enum AuditError {
    /// A failure of the backing file, as a message.
    Io(String),
    /// A malformed persisted line, as a message.
    Serialization(String),
    /// The first mismatch found in the hash chain: the value the chain
    /// requires and the value actually stored.
    IntegrityViolation { expected: String, actual: String },
}

/// The sentinel that stands in for the hash of the entry before the first.
pub open spec fn genesis() -> Seq<char> {
    "genesis"@
}

/// The sentinel as a value.
pub fn genesis_text() -> (r: String)
    ensures
        r@ == genesis(),
{
    "genesis".to_owned()
}

/// The digest preimage of an entry: the UTF-8 bytes of its fields, in
/// ledger order. The entry's own hash is not part of it.
pub open spec fn audit_preimage(
    id: Seq<char>,
    timestamp: Seq<char>,
    event_type: AuditEventType,
    actor: Seq<char>,
    details: Seq<char>,
    previous_hash: Seq<char>,
) -> Seq<u8> {
    encode_utf8(id) + encode_utf8(timestamp) + encode_utf8(event_label(event_type))
        + encode_utf8(actor) + encode_utf8(details) + encode_utf8(previous_hash)
}

/// The digest preimage of a stored entry.
pub open spec fn entry_preimage(e: AuditEntry) -> Seq<u8> {
    audit_preimage(e.id@, e.timestamp@, e.event_type, e.actor@, e.details@, e.previous_hash@)
}

/// Whether an entry's stored hash is the digest of its own fields.
pub open spec fn hash_ok(e: AuditEntry) -> bool {
    e.hash@ == digest16_of(entry_preimage(e))
}

/// The hash that entry `i` must name as its predecessor.
pub open spec fn expected_link(entries: Seq<AuditEntry>, i: int) -> Seq<char> {
    if i == 0 {
        genesis()
    } else {
        entries[i - 1].hash@
    }
}

/// Whether entry `i` names its true predecessor.
pub open spec fn link_ok(entries: Seq<AuditEntry>, i: int) -> bool {
    entries[i].previous_hash@ == expected_link(entries, i)
}

/// Whether entry `i` is sound: correctly linked and correctly hashed.
pub open spec fn entry_ok(entries: Seq<AuditEntry>, i: int) -> bool {
    link_ok(entries, i) && hash_ok(entries[i])
}

/// Whether the whole ledger is an unbroken hash chain.
pub open spec fn chain_ok(entries: Seq<AuditEntry>) -> bool {
    forall|i: int| 0 <= i < entries.len() ==> entry_ok(entries, i)
}

/// The hash of the newest entry, or the genesis sentinel for an empty
/// ledger: what the next entry must commit to.
pub open spec fn chain_tip(entries: Seq<AuditEntry>) -> Seq<char> {
    if entries.len() == 0 {
        genesis()
    } else {
        entries.last().hash@
    }
}

/// A ledger with no entries is an unbroken chain.
pub proof fn lemma_empty_chain_ok()
    ensures
        chain_ok(Seq::<AuditEntry>::empty()),
{
}

/// Appending an entry that commits to the chain's tip and hashes its own
/// fields keeps the chain unbroken. Together with `lemma_empty_chain_ok`
/// this is why any sequence of appends to a fresh ledger verifies.
pub proof fn lemma_chain_extends(entries: Seq<AuditEntry>, e: AuditEntry)
    requires
        chain_ok(entries),
        e.previous_hash@ == chain_tip(entries),
        hash_ok(e),
    ensures
        chain_ok(entries.push(e)),
{
    let grown = entries.push(e);
    assert forall|i: int| 0 <= i < grown.len() implies entry_ok(grown, i) by {
        if i < entries.len() {
            assert(entry_ok(entries, i));
            assert(grown[i] == entries[i]);
            if i > 0 {
                assert(grown[i - 1] == entries[i - 1]);
            }
        } else {
            assert(grown[i] == e);
            if i > 0 {
                assert(grown[i - 1] == entries[i - 1]);
            }
        }
    }
}

/// Forging the stored hash of any entry of a sound chain is detected: the
/// entry's hash no longer matches the digest of its fields, so the chain no
/// longer verifies. (Detecting a forged field such as the actor or the
/// details rests on the digest not colliding, which no proof here assumes;
/// that case is exercised by tests against the real digest.)
pub proof fn lemma_hash_tamper_detected(entries: Seq<AuditEntry>, i: int, forged: AuditEntry)
    requires
        chain_ok(entries),
        0 <= i < entries.len(),
        forged.hash@ != entries[i].hash@,
        forged.id == entries[i].id,
        forged.timestamp == entries[i].timestamp,
        forged.event_type == entries[i].event_type,
        forged.actor == entries[i].actor,
        forged.details == entries[i].details,
        forged.previous_hash == entries[i].previous_hash,
    ensures
        !chain_ok(entries.update(i, forged)),
{
    let tampered = entries.update(i, forged);
    assert(entry_ok(entries, i));
    assert(entry_preimage(forged) == entry_preimage(entries[i]));
    assert(!hash_ok(forged));
    assert(tampered[i] == forged);
    assert(!entry_ok(tampered, i));
}

/// The ledger: the entries as persisted, oldest first, and the hash of the
/// newest one.
pub struct AuditLog {
    entries: Vec<AuditEntry>,
    last_hash: String,
}

/// Whether two optional strings spell the same text.
pub open spec fn opt_text_matches(stored: Option<String>, given: Option<Seq<char>>) -> bool {
    match stored {
        Some(s) => given matches Some(t) && s@ == t,
        None => given is None,
    }
}

/// Exactly what `append` does: the one relation between the ledger before
/// the call, the ledger after it, the arguments, and the returned entry.
pub open spec fn append_spec(
    pre: AuditLog,
    post: AuditLog,
    event_type: AuditEventType,
    actor: Seq<char>,
    target_type: Option<Seq<char>>,
    target_id: Option<Seq<char>>,
    details: Seq<char>,
    r: AuditEntry,
) -> bool {
    &&& r.event_type == event_type
    &&& r.actor@ == actor
    &&& opt_text_matches(r.target_type, target_type)
    &&& opt_text_matches(r.target_id, target_id)
    &&& r.details@ == details
    &&& r.previous_hash@ == pre.spec_last_hash()
    &&& hash_ok(r)
    &&& post.spec_entries() == pre.spec_entries().push(r)
    &&& post.spec_last_hash() == r.hash@
    &&& post.wf()
    &&& (pre.wf() && chain_ok(pre.spec_entries())) ==> chain_ok(post.spec_entries())
}

/// How an integrity violation is reported: `i` is the first unsound entry,
/// and the error carries the value the chain requires and the value stored,
/// for the link if the link is broken, else for the entry's own hash.
pub open spec fn violation_reported(
    entries: Seq<AuditEntry>,
    i: int,
    expected: Seq<char>,
    actual: Seq<char>,
) -> bool {
    &&& 0 <= i < entries.len()
    &&& forall|j: int| 0 <= j < i ==> entry_ok(entries, j)
    &&& !entry_ok(entries, i)
    &&& if !link_ok(entries, i) {
        expected == expected_link(entries, i) && actual == entries[i].previous_hash@
    } else {
        expected == digest16_of(entry_preimage(entries[i])) && actual == entries[i].hash@
    }
}

/// Exactly what `verify_integrity` answers over a ledger's entries: true
/// for an unbroken chain, and otherwise the first violation, reported as
/// the value the chain requires against the value stored.
pub open spec fn integrity_report(entries: Seq<AuditEntry>, r: Result<bool, AuditError>) -> bool {
    match r {
        Ok(b) => b && chain_ok(entries),
        Err(AuditError::IntegrityViolation { expected, actual }) => {
            &&& !chain_ok(entries)
            &&& exists|i: int| violation_reported(entries, i, expected@, actual@)
        },
        _ => false,
    }
}

impl AuditLog {
    /// The persisted entries, oldest first.
    pub closed spec fn spec_entries(&self) -> Seq<AuditEntry> {
        self.entries@
    }

    /// The hash of the newest entry, or the genesis sentinel.
    pub closed spec fn spec_last_hash(&self) -> Seq<char> {
        self.last_hash@
    }

    /// The ledger's one internal invariant: it remembers the chain's tip.
    pub open spec fn wf(&self) -> bool {
        self.spec_last_hash() == chain_tip(self.spec_entries())
    }

    /// Opens a ledger over the entries replayed from the backing file, in
    /// file order; an absent or empty file replays to no entries. The tip
    /// is the hash of the last entry, as replay tracks it.
    pub fn open(entries: Vec<AuditEntry>) -> (r: AuditLog)
        ensures
            r.spec_entries() == entries@,
            r.wf(),
    {
        let last_hash: String = if entries.len() == 0 {
            genesis_text()
        } else {
            entries[entries.len() - 1].hash.clone()
        };
        AuditLog { entries, last_hash }
    }

    /// The digest an entry with these fields must store: the truncated
    /// SHA-256 digest of the fields' UTF-8 bytes, in ledger order.
    pub fn compute_hash(
        &self,
        id: &str,
        timestamp: &str,
        event_type: AuditEventType,
        actor: &str,
        details: &str,
        previous_hash: &str,
    ) -> (r: String)
        ensures
            r@ == digest16_of(
                audit_preimage(id@, timestamp@, event_type, actor@, details@, previous_hash@),
            ),
            r@.len() == 16,
    {
        let mut data: Vec<u8> = Vec::new();
        push_str_bytes(&mut data, id);
        push_str_bytes(&mut data, timestamp);
        push_str_bytes(&mut data, event_label_text(event_type));
        push_str_bytes(&mut data, actor);
        push_str_bytes(&mut data, details);
        push_str_bytes(&mut data, previous_hash);
        proof {
            assert(data@ =~= audit_preimage(
                id@,
                timestamp@,
                event_type,
                actor@,
                details@,
                previous_hash@,
            ));
        }
        digest16(data.as_slice())
    }

    /// Appends one entry: a fresh id and timestamp, a hash over the entry's
    /// own fields and the chain's tip, and the tip moved forward. This is
    /// the ledger's only mutation; nothing is ever edited or removed.
    pub fn append(
        &mut self,
        event_type: AuditEventType,
        actor: &str,
        target_type: Option<&str>,
        target_id: Option<&str>,
        details: &str,
    ) -> (r: AuditEntry)
        ensures
            append_spec(
                *old(self),
                *final(self),
                event_type,
                actor@,
                match target_type {
                    Some(s) => Some(s@),
                    None => None,
                },
                match target_id {
                    Some(s) => Some(s@),
                    None => None,
                },
                details@,
                r,
            ),
    {
        let id = fresh_id();
        let timestamp = now_rfc3339();
        let previous_hash = self.last_hash.clone();
        let hash = self.compute_hash(
            id.as_str(),
            timestamp.as_str(),
            event_type,
            actor,
            details,
            previous_hash.as_str(),
        );
        let entry = AuditEntry {
            id,
            timestamp,
            event_type,
            actor: actor.to_owned(),
            target_type: match target_type {
                Some(s) => Some(s.to_owned()),
                None => None,
            },
            target_id: match target_id {
                Some(s) => Some(s.to_owned()),
                None => None,
            },
            details: details.to_owned(),
            previous_hash,
            hash: hash.clone(),
        };
        let returned = entry.clone();
        self.last_hash = hash;
        self.entries.push(entry);
        proof {
            if old(self).wf() && chain_ok(old(self).spec_entries()) {
                lemma_chain_extends(old(self).spec_entries(), returned);
            }
        }
        returned
    }

    /// Walks the whole ledger: recomputes every entry's hash from its
    /// fields and checks every link to its predecessor, the first entry
    /// against the genesis sentinel. Returns true for an unbroken chain —
    /// in particular for an empty ledger — and reports the first mismatch
    /// otherwise, never a partial answer.
    pub fn verify_integrity(&self) -> (r: Result<bool, AuditError>)
        ensures
            integrity_report(self.spec_entries(), r),
    {
        let mut expected_prev: String = genesis_text();
        let n = self.entries.len();
        for idx in 0..n
            invariant
                n == self.entries@.len(),
                forall|j: int| 0 <= j < idx ==> entry_ok(self.entries@, j),
                expected_prev@ == expected_link(self.entries@, idx as int),
        {
            let e = &self.entries[idx];
            if !(e.previous_hash == expected_prev) {
                let report = AuditError::IntegrityViolation {
                    expected: expected_prev,
                    actual: e.previous_hash.clone(),
                };
                proof {
                    assert(!entry_ok(self.spec_entries(), idx as int));
                    assert(!chain_ok(self.spec_entries()));
                    assert(violation_reported(
                        self.spec_entries(),
                        idx as int,
                        report->IntegrityViolation_expected@,
                        report->IntegrityViolation_actual@,
                    ));
                    assert(integrity_report(
                        self.spec_entries(),
                        Err::<bool, AuditError>(report),
                    ));
                }
                return Err(report);
            }
            let computed = self.compute_hash(
                e.id.as_str(),
                e.timestamp.as_str(),
                e.event_type,
                e.actor.as_str(),
                e.details.as_str(),
                e.previous_hash.as_str(),
            );
            if !(computed == e.hash) {
                let report = AuditError::IntegrityViolation {
                    expected: computed,
                    actual: e.hash.clone(),
                };
                proof {
                    assert(!entry_ok(self.spec_entries(), idx as int));
                    assert(!chain_ok(self.spec_entries()));
                    assert(violation_reported(
                        self.spec_entries(),
                        idx as int,
                        report->IntegrityViolation_expected@,
                        report->IntegrityViolation_actual@,
                    ));
                    assert(integrity_report(
                        self.spec_entries(),
                        Err::<bool, AuditError>(report),
                    ));
                }
                return Err(report);
            }
            expected_prev = e.hash.clone();
        }
        Ok(true)
    }

    /// The persisted entries, oldest first.
    pub fn entries(&self) -> (r: &Vec<AuditEntry>)
        ensures
            r@ == self.spec_entries(),
    {
        &self.entries
    }

    /// The hash of the newest entry, or the genesis sentinel.
    pub fn last_hash(&self) -> (r: &String)
        ensures
            r@ == self.spec_last_hash(),
    {
        &self.last_hash
    }
}

} // verus!
