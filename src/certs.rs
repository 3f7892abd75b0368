use vstd::prelude::*;

use crate::der::{lemma_der_from_keeps_bytes, Der};
use vstd::std_specs::convert::FromSpec;

verus! {

/// A trust anchor (a root of trust): the parts of a root certificate that
/// verification needs, and nothing more.
#[derive(Debug, PartialEq)]
pub struct TrustAnchor<'a> {
    /// Value of the `subject` field of the trust anchor
    pub subject: Der<'a>,
    /// Value of the `subjectPublicKeyInfo` field of the trust anchor
    pub subject_public_key_info: Der<'a>,
    /// DER-encoded `NameConstraints` that constrain the trust anchor, if any
    pub name_constraints: Option<Der<'a>>,
}

/// The bytes of an optional field, if it is present.
pub open spec fn opt_view<'a>(d: Option<Der<'a>>) -> Option<Seq<u8>> {
    match d {
        Some(x) => Some(x@),
        None => None,
    }
}

impl<'a> TrustAnchor<'a> {
    /// Whether every field present holds its bytes in an owned buffer.
    pub open spec fn all_owned(&self) -> bool {
        &&& self.subject.is_owned()
        &&& self.subject_public_key_info.is_owned()
        &&& match self.name_constraints {
            Some(nc) => nc.is_owned(),
            None => true,
        }
    }

    /// Whether `other` holds the same bytes in each field.
    pub open spec fn same_bytes(&self, other: &TrustAnchor) -> bool {
        &&& self.subject@ == other.subject@
        &&& self.subject_public_key_info@ == other.subject_public_key_info@
        &&& opt_view(self.name_constraints) == opt_view(other.name_constraints)
    }

    /// A copy that owns all its bytes, so that it may outlive the buffer that
    /// this one borrows from.
    pub fn to_owned(&self) -> (r: TrustAnchor<'static>)
        ensures
            r.same_bytes(self),
            r.all_owned(),
    {
        let name_constraints = match &self.name_constraints {
            Some(nc) => Some(nc.to_owned_der()),
            None => None,
        };
        TrustAnchor {
            subject: self.subject.to_owned_der(),
            subject_public_key_info: self.subject_public_key_info.to_owned_der(),
            name_constraints,
        }
    }
}

impl<'a> Clone for TrustAnchor<'a> {
    fn clone(&self) -> (r: Self)
        ensures
            r.same_bytes(self),
    {
        let name_constraints = match &self.name_constraints {
            Some(nc) => Some(nc.clone()),
            None => None,
        };
        TrustAnchor {
            subject: self.subject.clone(),
            subject_public_key_info: self.subject_public_key_info.clone(),
            name_constraints,
        }
    }
}

/// A DER-encoded X.509 certificate, as specified in RFC 5280.
///
/// In PEM certificates are labelled `CERTIFICATE`.
#[derive(Debug, PartialEq)]
pub struct CertificateDer<'a>(Der<'a>);

impl<'a> View for CertificateDer<'a> {
    type V = Seq<u8>;

    closed spec fn view(&self) -> Seq<u8> {
        self.0@
    }
}

impl<'a> Clone for CertificateDer<'a> {
    fn clone(&self) -> (r: Self)
        ensures
            r@ == self@,
    {
        CertificateDer(self.0.clone())
    }
}

impl<'a> AsRef<[u8]> for CertificateDer<'a> {
    fn as_ref(&self) -> (r: &[u8])
        ensures
            r@ == self@,
    {
        self.0.as_bytes()
    }
}

impl<'a> core::ops::Deref for CertificateDer<'a> {
    type Target = [u8];

    fn deref(&self) -> (r: &[u8])
        ensures
            r@ == self@,
    {
        self.0.as_bytes()
    }
}

impl<'a> From<&'a [u8]> for CertificateDer<'a> {
    fn from(slice: &'a [u8]) -> (r: Self)
        ensures
            r@ == slice@,
    {
        CertificateDer(Der::from(slice))
    }
}

impl<'a> From<Vec<u8>> for CertificateDer<'a> {
    fn from(vec: Vec<u8>) -> (r: Self)
        ensures
            r@ == vec@,
    {
        CertificateDer(Der::from(vec))
    }
}

impl<'a> vstd::std_specs::convert::FromSpecImpl<&'a [u8]> for CertificateDer<'a> {
    open spec fn obeys_from_spec() -> bool {
        true
    }

    closed spec fn from_spec(slice: &'a [u8]) -> Self {
        CertificateDer(<Der<'a> as FromSpec<&'a [u8]>>::from_spec(slice))
    }
}

impl<'a> vstd::std_specs::convert::FromSpecImpl<Vec<u8>> for CertificateDer<'a> {
    open spec fn obeys_from_spec() -> bool {
        true
    }

    closed spec fn from_spec(vec: Vec<u8>) -> Self {
        CertificateDer(<Der<'static> as FromSpec<Vec<u8>>>::from_spec(vec))
    }
}

/// A DER-encoded certificate revocation list, as specified in RFC 5280.
///
/// In PEM revocation lists are labelled `X509 CRL`.
#[derive(Debug, PartialEq)]
pub struct CertificateRevocationListDer<'a>(Der<'a>);

impl<'a> View for CertificateRevocationListDer<'a> {
    type V = Seq<u8>;

    closed spec fn view(&self) -> Seq<u8> {
        self.0@
    }
}

impl<'a> Clone for CertificateRevocationListDer<'a> {
    fn clone(&self) -> (r: Self)
        ensures
            r@ == self@,
    {
        CertificateRevocationListDer(self.0.clone())
    }
}

impl<'a> AsRef<[u8]> for CertificateRevocationListDer<'a> {
    fn as_ref(&self) -> (r: &[u8])
        ensures
            r@ == self@,
    {
        self.0.as_bytes()
    }
}

impl<'a> core::ops::Deref for CertificateRevocationListDer<'a> {
    type Target = [u8];

    fn deref(&self) -> (r: &[u8])
        ensures
            r@ == self@,
    {
        self.0.as_bytes()
    }
}

impl<'a> From<&'a [u8]> for CertificateRevocationListDer<'a> {
    fn from(slice: &'a [u8]) -> (r: Self)
        ensures
            r@ == slice@,
    {
        CertificateRevocationListDer(Der::from(slice))
    }
}

impl<'a> From<Vec<u8>> for CertificateRevocationListDer<'a> {
    fn from(vec: Vec<u8>) -> (r: Self)
        ensures
            r@ == vec@,
    {
        CertificateRevocationListDer(Der::from(vec))
    }
}

impl<'a> vstd::std_specs::convert::FromSpecImpl<&'a [u8]> for CertificateRevocationListDer<'a> {
    open spec fn obeys_from_spec() -> bool {
        true
    }

    closed spec fn from_spec(slice: &'a [u8]) -> Self {
        CertificateRevocationListDer(<Der<'a> as FromSpec<&'a [u8]>>::from_spec(slice))
    }
}

impl<'a> vstd::std_specs::convert::FromSpecImpl<Vec<u8>> for CertificateRevocationListDer<'a> {
    open spec fn obeys_from_spec() -> bool {
        true
    }

    closed spec fn from_spec(vec: Vec<u8>) -> Self {
        CertificateRevocationListDer(<Der<'static> as FromSpec<Vec<u8>>>::from_spec(vec))
    }
}


/// Certificates and revocation lists give back exactly the bytes they were
/// made from, borrowed or owned.
pub proof fn lemma_certs_round_trip<'a>(slice: &'a [u8], vec: Vec<u8>)
    ensures
        <CertificateDer<'a> as FromSpec<&'a [u8]>>::from_spec(slice)@ == slice@,
        <CertificateDer<'a> as FromSpec<Vec<u8>>>::from_spec(vec)@ == vec@,
        <CertificateRevocationListDer<'a> as FromSpec<&'a [u8]>>::from_spec(slice)@ == slice@,
        <CertificateRevocationListDer<'a> as FromSpec<Vec<u8>>>::from_spec(vec)@ == vec@,
{
    lemma_der_from_keeps_bytes(slice, vec);
}

} // verus!
