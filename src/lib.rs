//! Types for X.509 certificates, private keys, revocation lists, trust anchors and
//! algorithm identifiers, held as DER-encoded bytes that are either borrowed or
//! owned, together with the contract that signature verification algorithms
//! implement and a Unix timestamp for validity checks.
//!
//! Nothing here parses or checks DER: the types carry bytes that a parser
//! produced, and compare by those bytes alone.

pub mod der;
pub mod keys;
pub mod certs;
pub mod alg;
pub mod time;

pub use alg::{AlgorithmIdentifier, InvalidSignature, SignatureVerificationAlgorithm};
pub use certs::{CertificateDer, CertificateRevocationListDer, TrustAnchor};
pub use der::Der;
pub use keys::{PrivateKeyDer, PrivatePkcs1KeyDer, PrivatePkcs8KeyDer, PrivateSec1KeyDer};
pub use time::UnixTime;
