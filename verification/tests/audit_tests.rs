use authority_kernel::audit::{AuditEntry, AuditError, AuditEventType, AuditLog};

#[test]
fn empty_ledger_verifies() {
    let log = AuditLog::open(Vec::new());
    assert_eq!(log.last_hash(), "genesis");
    assert!(matches!(log.verify_integrity(), Ok(true)));
}

#[test]
fn appended_entries_always_verify() {
    let mut log = AuditLog::open(Vec::new());
    for i in 0..5 {
        log.append(
            AuditEventType::PolicyEvaluated,
            "policy-engine",
            Some("adapter"),
            Some("adapter-1"),
            &format!("{{\"round\":{}}}", i),
        );
        assert!(matches!(log.verify_integrity(), Ok(true)));
    }
}

#[test]
fn three_appends_chain_back_to_genesis() {
    let mut log = AuditLog::open(Vec::new());
    let first = log.append(AuditEventType::AdapterCreated, "alice", None, None, "{}");
    let second = log.append(
        AuditEventType::SignatureVerified,
        "verifier",
        Some("adapter"),
        Some("adapter-1"),
        "{}",
    );
    let third = log.append(AuditEventType::KillSwitchActivated, "alice", None, None, "{}");

    assert_eq!(first.previous_hash, "genesis");
    assert_eq!(second.previous_hash, first.hash);
    assert_eq!(third.previous_hash, second.hash);
    assert_eq!(log.last_hash(), &third.hash);
    assert_eq!(first.hash.len(), 16);
    assert!(matches!(log.verify_integrity(), Ok(true)));
}

fn three_entries() -> Vec<AuditEntry> {
    let mut log = AuditLog::open(Vec::new());
    log.append(AuditEventType::AdapterCreated, "alice", None, None, "{\"v\":1}");
    log.append(AuditEventType::TrainingStarted, "trainer", Some("run"), Some("run-9"), "{\"v\":2}");
    log.append(AuditEventType::TrainingCompleted, "trainer", Some("run"), Some("run-9"), "{\"v\":3}");
    log.entries().clone()
}

#[test]
fn tampered_actor_is_detected() {
    let mut entries = three_entries();
    entries[1].actor = "Trainer".to_string();
    let stored = entries[1].hash.clone();
    match AuditLog::open(entries).verify_integrity() {
        Err(AuditError::IntegrityViolation { expected, actual }) => {
            assert_eq!(actual, stored);
            assert_ne!(expected, actual);
        }
        other => panic!("expected IntegrityViolation, got {:?}", other),
    }
}

#[test]
fn tampered_details_are_detected() {
    let mut entries = three_entries();
    entries[2].details = "{\"v\":4}".to_string();
    let stored = entries[2].hash.clone();
    match AuditLog::open(entries).verify_integrity() {
        Err(AuditError::IntegrityViolation { expected, actual }) => {
            assert_eq!(actual, stored);
            assert_ne!(expected, actual);
        }
        other => panic!("expected IntegrityViolation, got {:?}", other),
    }
}

#[test]
fn tampered_hash_is_detected() {
    let mut entries = three_entries();
    entries[0].hash = "0000000000000000".to_string();
    match AuditLog::open(entries).verify_integrity() {
        Err(AuditError::IntegrityViolation { expected, actual }) => {
            assert_eq!(actual, "0000000000000000");
            assert_ne!(expected, actual);
        }
        other => panic!("expected IntegrityViolation, got {:?}", other),
    }
}

#[test]
fn broken_link_is_detected_at_its_entry() {
    let mut entries = three_entries();
    let true_link = entries[1].previous_hash.clone();
    entries[1].previous_hash = "ffffffffffffffff".to_string();
    // Recompute entry 1's own hash so only the link is wrong.
    let log = AuditLog::open(Vec::new());
    entries[1].hash = log.compute_hash(
        &entries[1].id,
        &entries[1].timestamp,
        entries[1].event_type,
        &entries[1].actor,
        &entries[1].details,
        &entries[1].previous_hash,
    );
    match AuditLog::open(entries).verify_integrity() {
        Err(AuditError::IntegrityViolation { expected, actual }) => {
            assert_eq!(expected, true_link);
            assert_eq!(actual, "ffffffffffffffff");
        }
        other => panic!("expected IntegrityViolation, got {:?}", other),
    }
}

#[test]
fn compute_hash_is_deterministic_and_keyed_on_fields() {
    let log = AuditLog::open(Vec::new());
    let a = log.compute_hash("id-1", "t0", AuditEventType::AccessDenied, "alice", "{}", "genesis");
    let b = log.compute_hash("id-1", "t0", AuditEventType::AccessDenied, "alice", "{}", "genesis");
    let c = log.compute_hash("id-1", "t0", AuditEventType::AccessDenied, "bob", "{}", "genesis");
    assert_eq!(a, b);
    assert_ne!(a, c);
    assert_eq!(a.len(), 16);
    assert!(a.chars().all(|ch| ch.is_ascii_hexdigit()));
}

#[test]
fn open_resumes_from_the_last_entry() {
    let mut log = AuditLog::open(Vec::new());
    log.append(AuditEventType::AdapterActivated, "alice", None, None, "{}");
    let tip = log.last_hash().clone();
    let reopened = AuditLog::open(log.entries().clone());
    assert_eq!(reopened.last_hash(), &tip);

    let mut resumed = reopened;
    let next = resumed.append(AuditEventType::AdapterDeactivated, "alice", None, None, "{}");
    assert_eq!(next.previous_hash, tip);
    assert!(matches!(resumed.verify_integrity(), Ok(true)));
}
