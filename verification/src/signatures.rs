//! Content signatures and provenance-chain verification. A signature here
//! is a truncated digest over the content, the signer and the signing time
//! — a stand-in for a real public-key scheme, as the digest-based value
//! makes explicit — and a provenance chain is sound only when every entry
//! hashes its own fields and names its true parent.

use vstd::bytes::{spec_u32_to_le_bytes, u32_to_le_bytes};
use vstd::prelude::*;
use vstd::utf8::encode_utf8;

use crate::digest::{digest16, digest16_of, push_str_bytes};
use crate::fresh::now_rfc3339;
use crate::roster::{in_roster, roster_holds};

verus! {

/// A signature over one content blob: the algorithm tag, the truncated
/// digest, the signer, and the signing time as an RFC 3339 rendering.
#[derive(Debug)]
pub struct Signature {
    pub algorithm: String,
    pub value: String,
    pub signer_id: String,
    pub signed_at: String,
}

impl Clone for Signature {
    fn clone(&self) -> (r: Self)
        ensures
            r == *self,
    {
        Signature {
            algorithm: self.algorithm.clone(),
            value: self.value.clone(),
            signer_id: self.signer_id.clone(),
            signed_at: self.signed_at.clone(),
        }
    }
}

/// One step in an adapter's history, linked to the step before it by that
/// step's hash.
#[derive(Debug)]
pub struct ProvenanceEntry {
    pub adapter_id: String,
    pub version: u32,
    pub operation: String,
    pub actor: String,
    pub timestamp: String,
    pub signature: Option<Signature>,
    pub parent_hash: Option<String>,
    pub hash: String,
}

/// What signing and verification can fail with.
#[derive(Debug)]
pub enum SignatureError {
    /// The signature's digest does not match the content.
    InvalidSignature,
    /// The signature is too old to accept.
    Expired,
    /// The named signer is not trusted.
    UnknownSigner(String),
    /// The provenance chain of the named adapter is broken.
    BrokenChain(String),
}

/// The digest preimage of a signature: the content bytes, then the UTF-8
/// bytes of the signer and of the signing time.
pub open spec fn sig_preimage(content: Seq<u8>, signer: Seq<char>, signed_at: Seq<char>) -> Seq<
    u8,
> {
    content + encode_utf8(signer) + encode_utf8(signed_at)
}

/// Whether a signature's stored value is the digest its fields demand for
/// this content: what `verify` answers for a trusted signer.
pub open spec fn sig_matches(content: Seq<u8>, sig: Signature) -> bool {
    sig.value@ == digest16_of(sig_preimage(content, sig.signer_id@, sig.signed_at@))
}

/// The digest preimage of a provenance entry: the UTF-8 bytes of its
/// fields in order, the version as four little-endian bytes, and the
/// parent hash only where there is one. The entry's own hash and its
/// signature are not part of it.
pub open spec fn prov_preimage(e: ProvenanceEntry) -> Seq<u8> {
    encode_utf8(e.adapter_id@) + spec_u32_to_le_bytes(e.version) + encode_utf8(e.operation@)
        + encode_utf8(e.actor@) + encode_utf8(e.timestamp@) + (match e.parent_hash {
        Some(p) => encode_utf8(p@),
        None => Seq::<u8>::empty(),
    })
}

/// Whether a provenance entry's stored hash is the digest of its fields.
pub open spec fn prov_hash_ok(e: ProvenanceEntry) -> bool {
    e.hash@ == digest16_of(prov_preimage(e))
}

/// Whether entry `i` names its true parent: the first entry must have no
/// parent, and every later entry must carry the hash of the one before it.
pub open spec fn prov_link_ok(chain: Seq<ProvenanceEntry>, i: int) -> bool {
    if i == 0 {
        chain[0].parent_hash is None
    } else {
        chain[i].parent_hash matches Some(p) && p@ == chain[i - 1].hash@
    }
}

/// Whether entry `i` is sound: correctly linked and correctly hashed.
pub open spec fn prov_entry_ok(chain: Seq<ProvenanceEntry>, i: int) -> bool {
    prov_link_ok(chain, i) && prov_hash_ok(chain[i])
}

/// Whether the whole chain is unbroken. An empty chain is trivially sound.
pub open spec fn prov_chain_ok(chain: Seq<ProvenanceEntry>) -> bool {
    forall|i: int| 0 <= i < chain.len() ==> prov_entry_ok(chain, i)
}

/// Exactly what `verify_provenance` answers: true for an unbroken chain,
/// else `BrokenChain` naming the adapter of the first unsound entry.
pub open spec fn provenance_report(
    chain: Seq<ProvenanceEntry>,
    r: Result<bool, SignatureError>,
) -> bool {
    match r {
        Ok(b) => b && prov_chain_ok(chain),
        Err(SignatureError::BrokenChain(adapter)) => {
            &&& !prov_chain_ok(chain)
            &&& exists|i: int| broken_at_reported(chain, i, adapter@)
        },
        _ => false,
    }
}

/// Whether `i` is the first unsound entry and `adapter` names its adapter.
pub open spec fn broken_at_reported(
    chain: Seq<ProvenanceEntry>,
    i: int,
    adapter: Seq<char>,
) -> bool {
    &&& 0 <= i < chain.len()
    &&& forall|j: int| 0 <= j < i ==> prov_entry_ok(chain, j)
    &&& !prov_entry_ok(chain, i)
    &&& adapter == chain[i].adapter_id@
}

/// Exactly what `verify` answers for a signature over this content.
pub open spec fn verify_report(
    v: SignatureVerifier,
    content: Seq<u8>,
    sig: Signature,
    r: Result<bool, SignatureError>,
) -> bool {
    match r {
        Ok(b) => v.spec_trusted(sig.signer_id@) && b == sig_matches(content, sig),
        Err(SignatureError::UnknownSigner(who)) => {
            &&& !v.spec_trusted(sig.signer_id@)
            &&& who@ == sig.signer_id@
        },
        _ => false,
    }
}

/// The verifier: an allow-list of trusted signers, fixed at construction.
pub struct SignatureVerifier {
    trusted_signers: Vec<String>,
}

impl SignatureVerifier {
    /// The allow-list fixed at construction.
    pub closed spec fn spec_signers(&self) -> Seq<String> {
        self.trusted_signers@
    }

    /// Whether `signer` is trusted by this verifier.
    pub open spec fn spec_trusted(&self, signer: Seq<char>) -> bool {
        in_roster(self.spec_signers(), signer)
    }

    /// A verifier that trusts exactly the given signers.
    pub fn new(trusted_signers: Vec<String>) -> (r: Self)
        ensures
            r.spec_signers() == trusted_signers@,
    {
        SignatureVerifier { trusted_signers }
    }

    /// Signs `content` as `signer_id`, at the current time: the returned
    /// signature's value is the digest its own fields demand, so it
    /// verifies against the same content. Signing does not consult the
    /// allow-list; only verification does.
    pub fn sign(&self, content: &[u8], signer_id: &str) -> (r: Signature)
        ensures
            r.algorithm@ == "sha256"@,
            r.signer_id@ == signer_id@,
            sig_matches(content@, r),
            r.value@.len() == 16,
    {
        let signed_at = now_rfc3339();
        let value = signature_digest(content, signer_id, signed_at.as_str());
        Signature {
            algorithm: "sha256".to_owned(),
            value,
            signer_id: signer_id.to_owned(),
            signed_at,
        }
    }

    /// Checks `signature` against `content`: an untrusted signer is an
    /// error naming that signer; for a trusted one the answer is whether
    /// the recomputed digest matches the stored value — a plain no, never
    /// an error, on mismatch.
    pub fn verify(&self, content: &[u8], signature: &Signature) -> (r: Result<
        bool,
        SignatureError,
    >)
        ensures
            verify_report(*self, content@, *signature, r),
    {
        if !roster_holds(&self.trusted_signers, signature.signer_id.as_str()) {
            return Err(SignatureError::UnknownSigner(signature.signer_id.clone()));
        }
        let expected = signature_digest(
            content,
            signature.signer_id.as_str(),
            signature.signed_at.as_str(),
        );
        Ok(signature.value == expected)
    }

    /// The digest a provenance entry with these fields must store.
    pub fn compute_entry_hash(&self, entry: &ProvenanceEntry) -> (r: String)
        ensures
            r@ == digest16_of(prov_preimage(*entry)),
            r@.len() == 16,
    {
        let mut data: Vec<u8> = Vec::new();
        push_str_bytes(&mut data, entry.adapter_id.as_str());
        let mut version_bytes = u32_to_le_bytes(entry.version);
        data.append(&mut version_bytes);
        push_str_bytes(&mut data, entry.operation.as_str());
        push_str_bytes(&mut data, entry.actor.as_str());
        push_str_bytes(&mut data, entry.timestamp.as_str());
        match &entry.parent_hash {
            Some(p) => push_str_bytes(&mut data, p.as_str()),
            None => (),
        }
        proof {
            assert(data@ =~= prov_preimage(*entry));
        }
        digest16(data.as_slice())
    }

    /// Walks an adapter's history: the first entry must carry no parent,
    /// every later entry must carry the hash of the one before it, and
    /// every entry's stored hash must be the digest of its own fields.
    /// Returns true for an unbroken chain — in particular for an empty one
    /// — and stops at the first break, naming the offending adapter.
    pub fn verify_provenance(&self, chain: &[ProvenanceEntry]) -> (r: Result<
        bool,
        SignatureError,
    >)
        ensures
            provenance_report(chain@, r),
    {
        let n = chain.len();
        for idx in 0..n
            invariant
                n == chain@.len(),
                forall|j: int| 0 <= j < idx ==> prov_entry_ok(chain@, j),
        {
            let e = &chain[idx];
            let linked: bool = if idx == 0 {
                e.parent_hash.is_none()
            } else {
                match &e.parent_hash {
                    Some(p) => *p == chain[idx - 1].hash,
                    None => false,
                }
            };
            if !linked {
                let report = SignatureError::BrokenChain(e.adapter_id.clone());
                proof {
                    assert(!prov_link_ok(chain@, idx as int));
                    assert(!prov_entry_ok(chain@, idx as int));
                    assert(!prov_chain_ok(chain@));
                    assert(broken_at_reported(
                        chain@,
                        idx as int,
                        report->BrokenChain_0@,
                    ));
                    assert(provenance_report(chain@, Err::<bool, SignatureError>(report)));
                }
                return Err(report);
            }
            let computed = self.compute_entry_hash(e);
            if !(computed == e.hash) {
                let report = SignatureError::BrokenChain(e.adapter_id.clone());
                proof {
                    assert(!prov_hash_ok(chain@[idx as int]));
                    assert(!prov_entry_ok(chain@, idx as int));
                    assert(!prov_chain_ok(chain@));
                    assert(broken_at_reported(
                        chain@,
                        idx as int,
                        report->BrokenChain_0@,
                    ));
                    assert(provenance_report(chain@, Err::<bool, SignatureError>(report)));
                }
                return Err(report);
            }
        }
        Ok(true)
    }

}

/// The truncated digest of a signature preimage built from these parts.
fn signature_digest(content: &[u8], signer_id: &str, signed_at: &str) -> (r: String)
    ensures
        r@ == digest16_of(sig_preimage(content@, signer_id@, signed_at@)),
        r@.len() == 16,
{
    let mut data: Vec<u8> = Vec::new();
    let mut head = vstd::slice::slice_to_vec(content);
    data.append(&mut head);
    push_str_bytes(&mut data, signer_id);
    push_str_bytes(&mut data, signed_at);
    proof {
        assert(data@ =~= sig_preimage(content@, signer_id@, signed_at@));
    }
    digest16(data.as_slice())
}

/// A signature freshly produced over `content` — its value the digest its
/// fields demand, as `sign` ensures — verifies against that same content
/// whenever its signer is trusted: the answer is yes, not an error.
pub proof fn lemma_sign_round_trip(
    v: SignatureVerifier,
    content: Seq<u8>,
    sig: Signature,
    r: Result<bool, SignatureError>,
)
    requires
        v.spec_trusted(sig.signer_id@),
        sig_matches(content, sig),
        verify_report(v, content, sig, r),
    ensures
        r == Ok::<bool, SignatureError>(true),
{
}

/// A chain whose first entry carries no parent, whose every later entry
/// carries the hash of the one before it, and whose every entry hashes its
/// own fields, is sound and verifies.
pub proof fn lemma_linked_chain_valid(chain: Seq<ProvenanceEntry>)
    requires
        forall|i: int| 0 <= i < chain.len() ==> prov_link_ok(chain, i),
        forall|i: int| 0 <= i < chain.len() ==> prov_hash_ok(#[trigger] chain[i]),
    ensures
        prov_chain_ok(chain),
{
}

/// A chain with any entry linked to something other than its true parent
/// is not sound, whatever the rest of it looks like.
pub proof fn lemma_mislinked_chain_invalid(chain: Seq<ProvenanceEntry>, i: int)
    requires
        0 <= i < chain.len(),
        !prov_link_ok(chain, i),
    ensures
        !prov_chain_ok(chain),
{
    if prov_chain_ok(chain) {
        assert(prov_entry_ok(chain, i));
    }
}

} // verus!
