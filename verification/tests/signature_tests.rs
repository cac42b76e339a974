use authority_kernel::digest::digest16;
use authority_kernel::signatures::{ProvenanceEntry, SignatureError, SignatureVerifier};

fn signers(names: &[&str]) -> Vec<String> {
    names.iter().map(|s| s.to_string()).collect()
}

#[test]
fn digest_has_known_values() {
    // SHA-256 of the empty input and of "abc", truncated to 16 hex chars.
    assert_eq!(digest16(b""), "e3b0c44298fc1c14");
    assert_eq!(digest16(b"abc"), "ba7816bf8f01cfea");
    assert_ne!(digest16(b"abc"), digest16(b"abd"));
}

#[test]
fn sign_then_verify_round_trips() {
    let verifier = SignatureVerifier::new(signers(&["signer-A"]));
    let content = b"adapter weights";
    let signature = verifier.sign(content, "signer-A");
    assert_eq!(signature.algorithm, "sha256");
    assert_eq!(signature.signer_id, "signer-A");
    assert_eq!(signature.value.len(), 16);
    assert!(matches!(verifier.verify(content, &signature), Ok(true)));
}

#[test]
fn unknown_signer_is_an_error_not_a_no() {
    let verifier = SignatureVerifier::new(signers(&["signer-A"]));
    let stranger = SignatureVerifier::new(signers(&["signer-B"]));
    let signature = stranger.sign(b"payload", "signer-B");
    match verifier.verify(b"payload", &signature) {
        Err(SignatureError::UnknownSigner(who)) => assert_eq!(who, "signer-B"),
        other => panic!("expected UnknownSigner, got {:?}", other),
    }
}

#[test]
fn altered_content_verifies_false() {
    let verifier = SignatureVerifier::new(signers(&["signer-A"]));
    let signature = verifier.sign(b"adapter weights", "signer-A");
    assert!(matches!(verifier.verify(b"adapter weight_", &signature), Ok(false)));
}

fn step(
    verifier: &SignatureVerifier,
    adapter: &str,
    version: u32,
    operation: &str,
    parent_hash: Option<String>,
) -> ProvenanceEntry {
    let mut entry = ProvenanceEntry {
        adapter_id: adapter.to_string(),
        version,
        operation: operation.to_string(),
        actor: "trainer".to_string(),
        timestamp: format!("2024-01-0{}T00:00:00+00:00", version + 1),
        signature: None,
        parent_hash,
        hash: String::new(),
    };
    entry.hash = verifier.compute_entry_hash(&entry);
    entry
}

fn linked_chain(verifier: &SignatureVerifier) -> Vec<ProvenanceEntry> {
    let first = step(verifier, "adapter-1", 0, "created", None);
    let second = step(verifier, "adapter-1", 1, "trained", Some(first.hash.clone()));
    let third = step(verifier, "adapter-1", 2, "merged", Some(second.hash.clone()));
    vec![first, second, third]
}

#[test]
fn empty_chain_is_valid() {
    let verifier = SignatureVerifier::new(Vec::new());
    assert!(matches!(verifier.verify_provenance(&[]), Ok(true)));
}

#[test]
fn linked_chain_verifies() {
    let verifier = SignatureVerifier::new(Vec::new());
    let chain = linked_chain(&verifier);
    assert!(matches!(verifier.verify_provenance(&chain), Ok(true)));
}

#[test]
fn mislinked_entry_breaks_the_chain() {
    let verifier = SignatureVerifier::new(Vec::new());
    let mut chain = linked_chain(&verifier);
    chain[2].parent_hash = Some("ffffffffffffffff".to_string());
    chain[2].hash = verifier.compute_entry_hash(&chain[2]);
    match verifier.verify_provenance(&chain) {
        Err(SignatureError::BrokenChain(adapter)) => assert_eq!(adapter, "adapter-1"),
        other => panic!("expected BrokenChain, got {:?}", other),
    }
}

#[test]
fn first_entry_with_a_parent_breaks_the_chain() {
    let verifier = SignatureVerifier::new(Vec::new());
    let first = step(&verifier, "adapter-2", 0, "created", Some("ffffffffffffffff".to_string()));
    match verifier.verify_provenance(&[first]) {
        Err(SignatureError::BrokenChain(adapter)) => assert_eq!(adapter, "adapter-2"),
        other => panic!("expected BrokenChain, got {:?}", other),
    }
}

#[test]
fn tampered_entry_hash_breaks_the_chain() {
    let verifier = SignatureVerifier::new(Vec::new());
    let mut chain = linked_chain(&verifier);
    chain[1].hash = "0000000000000000".to_string();
    match verifier.verify_provenance(&chain) {
        Err(SignatureError::BrokenChain(adapter)) => assert_eq!(adapter, "adapter-1"),
        other => panic!("expected BrokenChain, got {:?}", other),
    }
}

#[test]
fn tampered_entry_field_breaks_the_chain() {
    let verifier = SignatureVerifier::new(Vec::new());
    let mut chain = linked_chain(&verifier);
    chain[1].actor = "intruder".to_string();
    match verifier.verify_provenance(&chain) {
        Err(SignatureError::BrokenChain(adapter)) => assert_eq!(adapter, "adapter-1"),
        other => panic!("expected BrokenChain, got {:?}", other),
    }
}
