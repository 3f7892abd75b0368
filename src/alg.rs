use vstd::prelude::*;

use crate::der::bytes_equal;
use vstd::std_specs::cmp::PartialEqSpec;

verus! {

/// The DER encoding of a PKIX `AlgorithmIdentifier`: the OID of the
/// algorithm followed by its parameters, without the outer `SEQUENCE`.
///
/// These are labels that an implementation ships with, so they are made from
/// bytes of program lifetime only, never from input read at run time.
#[derive(Debug, Clone, Copy)]
pub struct AlgorithmIdentifier(&'static [u8]);

impl View for AlgorithmIdentifier {
    type V = Seq<u8>;

    closed spec fn view(&self) -> Seq<u8> {
        self.0@
    }
}

impl AlgorithmIdentifier {
    /// Makes an `AlgorithmIdentifier` from static bytes, without checking them.
    pub fn from_slice(bytes: &'static [u8]) -> (r: Self)
        ensures
            r@ == bytes@,
    {
        AlgorithmIdentifier(bytes)
    }
}

impl AsRef<[u8]> for AlgorithmIdentifier {
    fn as_ref(&self) -> (r: &[u8])
        ensures
            r@ == self@,
    {
        self.0
    }
}

impl core::ops::Deref for AlgorithmIdentifier {
    type Target = [u8];

    fn deref(&self) -> (r: &[u8])
        ensures
            r@ == self@,
    {
        self.0
    }
}

impl PartialEq for AlgorithmIdentifier {
    fn eq(&self, other: &AlgorithmIdentifier) -> (r: bool) {
        bytes_equal(self.0, other.0)
    }
}

impl vstd::std_specs::cmp::PartialEqSpecImpl for AlgorithmIdentifier {
    open spec fn obeys_eq_spec() -> bool {
        true
    }

    open spec fn eq_spec(&self, other: &AlgorithmIdentifier) -> bool {
        self@ == other@
    }
}

/// Two identifiers made from the same bytes compare equal.
pub proof fn lemma_same_bytes_same_identifier(
    bytes: &'static [u8],
    a: AlgorithmIdentifier,
    b: AlgorithmIdentifier,
)
    requires
        a@ == bytes@,
        b@ == bytes@,
    ensures
        a.eq_spec(&b),
{
}

/// A signature that did not verify, for any reason: the error carries no detail.
#[derive(Debug, Clone, Copy, PartialEq, Eq, Structural)]
pub struct InvalidSignature;

/// An abstract signature verification algorithm.
///
/// One is needed for each supported pair of a public key type (named by
/// `public_key_alg_id`) and a `signatureAlgorithm` (named by `signature_alg_id`).
/// Both identifiers include the encoded parameters, so distinct parameters need
/// distinct implementations.
pub trait SignatureVerificationAlgorithm: Send + Sync {
    /// Verify `signature` over `message` with `public_key`.
    ///
    /// `public_key` is the untrusted `subjectPublicKey` of a
    /// `SubjectPublicKeyInfo` whose algorithm is `public_key_alg_id()`.
    /// `message` is not hashed: an algorithm that hashes does so itself.
    ///
    /// Returns `Ok(())` only if `signature` is a valid signature on `message`,
    /// and `Err(InvalidSignature)` otherwise, including when `public_key` is
    /// not well encoded.
    fn verify_signature(
        &self,
        public_key: &[u8],
        message: &[u8],
        signature: &[u8],
    ) -> Result<(), InvalidSignature>;

    /// The identifier that a public key's `subjectPublicKeyInfo` algorithm must
    /// equal for this algorithm to verify with it.
    fn public_key_alg_id(&self) -> AlgorithmIdentifier;

    /// The identifier that the `signatureAlgorithm` of the signed data must
    /// equal for this algorithm to verify it.
    fn signature_alg_id(&self) -> AlgorithmIdentifier;
}

/// Whether a verifier declaring `declared` (public key identifier, signature
/// identifier) handles data that declares `public_key_alg` and `signature_alg`.
pub open spec fn handles(
    declared: (Seq<u8>, Seq<u8>),
    public_key_alg: Seq<u8>,
    signature_alg: Seq<u8>,
) -> bool {
    declared.0 == public_key_alg && declared.1 == signature_alg
}

/// Chooses, among verifiers that declare the identifier pairs `supported`, the
/// first one that handles a public key of algorithm `public_key_alg` and a
/// signature of algorithm `signature_alg`, both compared byte for byte.
///
/// `None` means that no verifier handles the pair: the algorithm is
/// unsupported, which is not the same as an invalid signature.
pub fn select_algorithm(
    supported: &[(AlgorithmIdentifier, AlgorithmIdentifier)],
    public_key_alg: &AlgorithmIdentifier,
    signature_alg: &AlgorithmIdentifier,
) -> (r: Option<usize>)
    ensures
        match r {
            Some(i) => {
                &&& i < supported@.len()
                &&& handles(
                    (supported@[i as int].0@, supported@[i as int].1@),
                    public_key_alg@,
                    signature_alg@,
                )
                &&& forall|j: int|
                    0 <= j < i ==> !handles(
                        (#[trigger] supported@[j].0@, supported@[j].1@),
                        public_key_alg@,
                        signature_alg@,
                    )
            },
            None => forall|j: int|
                0 <= j < supported@.len() ==> !handles(
                    (#[trigger] supported@[j].0@, supported@[j].1@),
                    public_key_alg@,
                    signature_alg@,
                ),
        },
{
    let mut i: usize = 0;
    while i < supported.len()
        invariant
            i <= supported@.len(),
            forall|j: int|
                0 <= j < i ==> !handles(
                    (#[trigger] supported@[j].0@, supported@[j].1@),
                    public_key_alg@,
                    signature_alg@,
                ),
        decreases supported@.len() - i,
    {
        let (pk, sig) = &supported[i];
        if bytes_equal(pk.0, public_key_alg.0) && bytes_equal(sig.0, signature_alg.0) {
            return Some(i);
        }
        i = i + 1;
    }
    None
}

} // verus!
