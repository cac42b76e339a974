//! Shared governance types for the wider platform: identifiers, provenance
//! records, governance decisions, and the audit vocabulary as other
//! subsystems exchange them. Timestamps are carried as RFC 3339 text and
//! anomaly scores in thousandths, so every field is a plain value.

use vstd::prelude::*;

verus! {

/// Unique identifier for an adapter.
#[derive(Debug, Clone, Hash, Eq, PartialEq)]
pub struct AdapterId(pub String);

/// Unique identifier for a model.
#[derive(Debug, Clone, Hash, Eq, PartialEq)]
pub struct ModelId(pub String);

/// Unique identifier for an experiment run.
#[derive(Debug, Clone, Hash, Eq, PartialEq)]
pub struct RunId(pub String);

/// Digital signature for an adapter.
#[derive(Debug, Clone)]
pub struct Signature {
    pub algorithm: String,
    pub value: Vec<u8>,
    pub signer_id: String,
    pub signed_at: String,
}

/// A single entry in the provenance chain.
#[derive(Debug, Clone)]
pub struct ProvenanceEntry {
    pub adapter_id: AdapterId,
    pub version: u32,
    pub operation: ProvenanceOperation,
    pub actor: String,
    pub timestamp: String,
    pub signature: Option<Signature>,
}

/// Type of provenance operation.
#[derive(Debug, Clone)]
pub enum ProvenanceOperation {
    Created,
    Trained,
    Merged,
    Cloned,
    Transferred,
}

/// Full provenance chain for an adapter.
#[derive(Debug, Clone)]
pub struct ProvenanceChain {
    pub entries: Vec<ProvenanceEntry>,
}

/// Reason for activating the kill-switch.
#[derive(Debug, Clone)]
pub enum KillReason {
    /// Manual trigger by operator.
    ManualTrigger { operator: String },
    /// Anomaly detected in adapter behaviour; the score is in thousandths.
    AnomalyDetected { adapter_id: AdapterId, score: u64 },
    /// Reward hacking detected during training.
    RewardHacking { adapter_id: AdapterId },
    /// Unauthorized authority escalation attempt.
    UnauthorizedEscalation { actor: String },
    /// Provenance chain violation.
    ProvenanceViolation { adapter_id: AdapterId },
    /// External safety signal.
    ExternalSignal { source: String, message: String },
}

/// Result of a governance decision.
#[derive(Debug, Clone)]
pub enum GovernanceDecision {
    /// Allow the operation.
    Allow,
    /// Deny the operation with reason.
    Deny { reason: String },
    /// Quarantine the adapter.
    Quarantine { adapter_id: AdapterId, reason: String },
    /// Destroy the adapter immediately.
    Destroy { adapter_id: AdapterId, reason: String },
    /// Activate the kill-switch.
    Kill { reason: KillReason },
}

/// Type of auditable event.
#[derive(Debug, Clone)]
pub enum AuditEventType {
    AdapterCreated,
    AdapterActivated,
    AdapterDeactivated,
    AdapterQuarantined,
    AdapterDestroyed,
    KillSwitchActivated,
    KillSwitchReset,
    SignatureVerified,
    SignatureFailed,
    ProvenanceChecked,
    PolicyEvaluated,
    AccessDenied,
}

/// An immutable audit log entry as other subsystems exchange it.
#[derive(Debug, Clone)]
pub struct AuditEntry {
    pub id: String,
    pub timestamp: String,
    pub event_type: AuditEventType,
    pub actor: String,
    pub target_type: Option<String>,
    pub target_id: Option<String>,
    pub details: String,
    pub previous_hash: String,
    pub hash: String,
}

/// Adapter status from the governance perspective.
#[derive(Debug, Clone, PartialEq, Eq)]
pub enum AdapterGovernanceStatus {
    /// Adapter is verified and active.
    Verified,
    /// Adapter is pending verification.
    Pending,
    /// Adapter is quarantined on suspicious behaviour.
    Quarantined,
    /// Adapter has been destroyed.
    Destroyed,
    /// Adapter signature is invalid.
    SignatureInvalid,
}

} // verus!
