use authority_kernel::types::{
    AdapterGovernanceStatus, AdapterId, AuditEventType, GovernanceDecision, KillReason, ModelId,
    ProvenanceChain, ProvenanceEntry, ProvenanceOperation, RunId, Signature,
};

#[test]
fn identifiers_compare_by_value() {
    assert_eq!(AdapterId("a-1".to_string()), AdapterId("a-1".to_string()));
    assert_ne!(AdapterId("a-1".to_string()), AdapterId("a-2".to_string()));
    assert_eq!(ModelId("m".to_string()), ModelId("m".to_string()));
    assert_ne!(RunId("r-1".to_string()), RunId("r-2".to_string()));
}

#[test]
fn governance_status_distinguishes_states() {
    assert_eq!(AdapterGovernanceStatus::Verified, AdapterGovernanceStatus::Verified);
    assert_ne!(AdapterGovernanceStatus::Verified, AdapterGovernanceStatus::Quarantined);
}

#[test]
fn provenance_chain_carries_its_entries() {
    let entry = ProvenanceEntry {
        adapter_id: AdapterId("a-1".to_string()),
        version: 0,
        operation: ProvenanceOperation::Created,
        actor: "alice".to_string(),
        timestamp: "2024-01-01T00:00:00+00:00".to_string(),
        signature: Some(Signature {
            algorithm: "sha256".to_string(),
            value: vec![0xba, 0x78],
            signer_id: "signer-A".to_string(),
            signed_at: "2024-01-01T00:00:00+00:00".to_string(),
        }),
    };
    let chain = ProvenanceChain { entries: vec![entry.clone()] };
    assert_eq!(chain.entries.len(), 1);
    assert_eq!(chain.entries[0].adapter_id, entry.adapter_id);
    assert!(matches!(chain.entries[0].operation, ProvenanceOperation::Created));
}

#[test]
fn kill_decision_carries_its_reason() {
    let decision = GovernanceDecision::Kill {
        reason: KillReason::AnomalyDetected { adapter_id: AdapterId("a-9".to_string()), score: 990 },
    };
    match decision {
        GovernanceDecision::Kill {
            reason: KillReason::AnomalyDetected { adapter_id, score },
        } => {
            assert_eq!(adapter_id, AdapterId("a-9".to_string()));
            assert_eq!(score, 990);
        }
        other => panic!("expected Kill decision, got {:?}", other),
    }
    assert!(matches!(
        AuditEventType::ProvenanceChecked,
        AuditEventType::ProvenanceChecked
    ));
}
