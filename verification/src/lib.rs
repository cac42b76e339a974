//! Authority kernel for an adapter platform: the kill-switch that halts
//! adapter and training operations, the hash-chained audit ledger that
//! records governance events, and the verifier for content signatures and
//! per-adapter provenance chains.

pub mod audit;
pub mod digest;
mod fresh;
pub mod killswitch;
pub mod roster;
pub mod signatures;
pub mod types;

pub use audit::AuditLog;
pub use killswitch::KillSwitch;
pub use signatures::SignatureVerifier;
