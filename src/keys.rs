use vstd::prelude::*;

use crate::der::{lemma_der_from_keeps_bytes, Der};
use vstd::std_specs::convert::FromSpec;

verus! {

/// A DER-encoded private key in one of the three supported formats.
///
/// The set of formats is closed: a caller that matches on it handles every
/// kind of key.
#[non_exhaustive]
#[derive(PartialEq)]
pub enum PrivateKeyDer<'a> {
    /// An RSA private key (PKCS#1)
    Pkcs1(PrivatePkcs1KeyDer<'a>),
    /// An elliptic curve private key (Sec1)
    Sec1(PrivateSec1KeyDer<'a>),
    /// A PKCS#8 private key
    Pkcs8(PrivatePkcs8KeyDer<'a>),
}

impl<'a> PrivateKeyDer<'a> {
    /// The bytes of whichever key is held.
    pub open spec fn secret_spec(&self) -> Seq<u8> {
        match self {
            PrivateKeyDer::Pkcs1(k) => k@,
            PrivateKeyDer::Sec1(k) => k@,
            PrivateKeyDer::Pkcs8(k) => k@,
        }
    }

    /// What diagnostics show of a key of this kind.
    pub open spec fn debug_spec(&self) -> Seq<char> {
        match self {
            PrivateKeyDer::Pkcs1(_) => "Pkcs1(PrivatePkcs1KeyDer(\"[secret key elided]\"))"@,
            PrivateKeyDer::Sec1(_) => "Sec1(PrivateSec1KeyDer(\"[secret key elided]\"))"@,
            PrivateKeyDer::Pkcs8(_) => "Pkcs8(PrivatePkcs8KeyDer(\"[secret key elided]\"))"@,
        }
    }

    /// The DER-encoded bytes of the private key.
    pub fn secret_der(&self) -> (r: &[u8])
        ensures
            r@ == self.secret_spec(),
    {
        match self {
            PrivateKeyDer::Pkcs1(key) => key.secret_pkcs1_der(),
            PrivateKeyDer::Sec1(key) => key.secret_sec1_der(),
            PrivateKeyDer::Pkcs8(key) => key.secret_pkcs8_der(),
        }
    }

    /// A description of the key for diagnostics: its kind, never its bytes.
    pub fn redacted_debug(&self) -> (r: &'static str)
        ensures
            r@ == self.debug_spec(),
    {
        match self {
            PrivateKeyDer::Pkcs1(_) => "Pkcs1(PrivatePkcs1KeyDer(\"[secret key elided]\"))",
            PrivateKeyDer::Sec1(_) => "Sec1(PrivateSec1KeyDer(\"[secret key elided]\"))",
            PrivateKeyDer::Pkcs8(_) => "Pkcs8(PrivatePkcs8KeyDer(\"[secret key elided]\"))",
        }
    }
}

impl<'a> From<PrivatePkcs1KeyDer<'a>> for PrivateKeyDer<'a> {
    fn from(key: PrivatePkcs1KeyDer<'a>) -> (r: Self)
        ensures
            r == PrivateKeyDer::Pkcs1(key),
    {
        PrivateKeyDer::Pkcs1(key)
    }
}

impl<'a> vstd::std_specs::convert::FromSpecImpl<PrivatePkcs1KeyDer<'a>> for PrivateKeyDer<'a> {
    open spec fn obeys_from_spec() -> bool {
        true
    }

    open spec fn from_spec(key: PrivatePkcs1KeyDer<'a>) -> Self {
        PrivateKeyDer::Pkcs1(key)
    }
}

impl<'a> From<PrivateSec1KeyDer<'a>> for PrivateKeyDer<'a> {
    fn from(key: PrivateSec1KeyDer<'a>) -> (r: Self)
        ensures
            r == PrivateKeyDer::Sec1(key),
    {
        PrivateKeyDer::Sec1(key)
    }
}

impl<'a> vstd::std_specs::convert::FromSpecImpl<PrivateSec1KeyDer<'a>> for PrivateKeyDer<'a> {
    open spec fn obeys_from_spec() -> bool {
        true
    }

    open spec fn from_spec(key: PrivateSec1KeyDer<'a>) -> Self {
        PrivateKeyDer::Sec1(key)
    }
}

impl<'a> From<PrivatePkcs8KeyDer<'a>> for PrivateKeyDer<'a> {
    fn from(key: PrivatePkcs8KeyDer<'a>) -> (r: Self)
        ensures
            r == PrivateKeyDer::Pkcs8(key),
    {
        PrivateKeyDer::Pkcs8(key)
    }
}

impl<'a> vstd::std_specs::convert::FromSpecImpl<PrivatePkcs8KeyDer<'a>> for PrivateKeyDer<'a> {
    open spec fn obeys_from_spec() -> bool {
        true
    }

    open spec fn from_spec(key: PrivatePkcs8KeyDer<'a>) -> Self {
        PrivateKeyDer::Pkcs8(key)
    }
}

/// A DER-encoded plaintext RSA private key, as specified in PKCS#1 (RFC 3447).
///
/// In PEM such keys are labelled `RSA PRIVATE KEY`.
#[derive(PartialEq)]
pub struct PrivatePkcs1KeyDer<'a>(Der<'a>);

impl<'a> View for PrivatePkcs1KeyDer<'a> {
    type V = Seq<u8>;

    closed spec fn view(&self) -> Seq<u8> {
        self.0@
    }
}

impl<'a> PrivatePkcs1KeyDer<'a> {
    /// The DER-encoded bytes of the private key.
    pub fn secret_pkcs1_der(&self) -> (r: &[u8])
        ensures
            r@ == self@,
    {
        self.0.as_bytes()
    }

    /// A description of the key for diagnostics; it never shows the key.
    pub fn redacted_debug(&self) -> (r: &'static str)
        ensures
            r@ == pkcs1_debug_text(),
    {
        "PrivatePkcs1KeyDer(\"[secret key elided]\")"
    }
}

/// What diagnostics show of any PKCS#1 key.
pub open spec fn pkcs1_debug_text() -> Seq<char> {
    "PrivatePkcs1KeyDer(\"[secret key elided]\")"@
}

impl<'a> From<&'a [u8]> for PrivatePkcs1KeyDer<'a> {
    fn from(slice: &'a [u8]) -> (r: Self)
        ensures
            r@ == slice@,
    {
        PrivatePkcs1KeyDer(Der::from(slice))
    }
}

impl<'a> From<Vec<u8>> for PrivatePkcs1KeyDer<'a> {
    fn from(vec: Vec<u8>) -> (r: Self)
        ensures
            r@ == vec@,
    {
        PrivatePkcs1KeyDer(Der::from(vec))
    }
}

impl<'a> vstd::std_specs::convert::FromSpecImpl<&'a [u8]> for PrivatePkcs1KeyDer<'a> {
    open spec fn obeys_from_spec() -> bool {
        true
    }

    closed spec fn from_spec(slice: &'a [u8]) -> Self {
        PrivatePkcs1KeyDer(<Der<'a> as FromSpec<&'a [u8]>>::from_spec(slice))
    }
}

impl<'a> vstd::std_specs::convert::FromSpecImpl<Vec<u8>> for PrivatePkcs1KeyDer<'a> {
    open spec fn obeys_from_spec() -> bool {
        true
    }

    closed spec fn from_spec(vec: Vec<u8>) -> Self {
        PrivatePkcs1KeyDer(<Der<'static> as FromSpec<Vec<u8>>>::from_spec(vec))
    }
}


/// A Sec1-encoded plaintext elliptic curve private key, as specified in RFC 5915.
///
/// In PEM such keys are labelled `EC PRIVATE KEY`.
#[derive(PartialEq)]
pub struct PrivateSec1KeyDer<'a>(Der<'a>);

impl<'a> View for PrivateSec1KeyDer<'a> {
    type V = Seq<u8>;

    closed spec fn view(&self) -> Seq<u8> {
        self.0@
    }
}

impl<'a> PrivateSec1KeyDer<'a> {
    /// The DER-encoded bytes of the private key.
    pub fn secret_sec1_der(&self) -> (r: &[u8])
        ensures
            r@ == self@,
    {
        self.0.as_bytes()
    }

    /// A description of the key for diagnostics; it never shows the key.
    pub fn redacted_debug(&self) -> (r: &'static str)
        ensures
            r@ == sec1_debug_text(),
    {
        "PrivateSec1KeyDer(\"[secret key elided]\")"
    }
}

/// What diagnostics show of any Sec1 key.
pub open spec fn sec1_debug_text() -> Seq<char> {
    "PrivateSec1KeyDer(\"[secret key elided]\")"@
}

impl<'a> From<&'a [u8]> for PrivateSec1KeyDer<'a> {
    fn from(slice: &'a [u8]) -> (r: Self)
        ensures
            r@ == slice@,
    {
        PrivateSec1KeyDer(Der::from(slice))
    }
}

impl<'a> From<Vec<u8>> for PrivateSec1KeyDer<'a> {
    fn from(vec: Vec<u8>) -> (r: Self)
        ensures
            r@ == vec@,
    {
        PrivateSec1KeyDer(Der::from(vec))
    }
}

impl<'a> vstd::std_specs::convert::FromSpecImpl<&'a [u8]> for PrivateSec1KeyDer<'a> {
    open spec fn obeys_from_spec() -> bool {
        true
    }

    closed spec fn from_spec(slice: &'a [u8]) -> Self {
        PrivateSec1KeyDer(<Der<'a> as FromSpec<&'a [u8]>>::from_spec(slice))
    }
}

impl<'a> vstd::std_specs::convert::FromSpecImpl<Vec<u8>> for PrivateSec1KeyDer<'a> {
    open spec fn obeys_from_spec() -> bool {
        true
    }

    closed spec fn from_spec(vec: Vec<u8>) -> Self {
        PrivateSec1KeyDer(<Der<'static> as FromSpec<Vec<u8>>>::from_spec(vec))
    }
}


/// A DER-encoded plaintext private key, as specified in PKCS#8 (RFC 5958).
///
/// In PEM such keys are labelled `PRIVATE KEY`.
#[derive(PartialEq)]
pub struct PrivatePkcs8KeyDer<'a>(Der<'a>);

impl<'a> View for PrivatePkcs8KeyDer<'a> {
    type V = Seq<u8>;

    closed spec fn view(&self) -> Seq<u8> {
        self.0@
    }
}

impl<'a> PrivatePkcs8KeyDer<'a> {
    /// The DER-encoded bytes of the private key.
    pub fn secret_pkcs8_der(&self) -> (r: &[u8])
        ensures
            r@ == self@,
    {
        self.0.as_bytes()
    }

    /// A description of the key for diagnostics; it never shows the key.
    pub fn redacted_debug(&self) -> (r: &'static str)
        ensures
            r@ == pkcs8_debug_text(),
    {
        "PrivatePkcs8KeyDer(\"[secret key elided]\")"
    }
}

/// What diagnostics show of any PKCS#8 key.
pub open spec fn pkcs8_debug_text() -> Seq<char> {
    "PrivatePkcs8KeyDer(\"[secret key elided]\")"@
}

impl<'a> From<&'a [u8]> for PrivatePkcs8KeyDer<'a> {
    fn from(slice: &'a [u8]) -> (r: Self)
        ensures
            r@ == slice@,
    {
        PrivatePkcs8KeyDer(Der::from(slice))
    }
}

impl<'a> From<Vec<u8>> for PrivatePkcs8KeyDer<'a> {
    fn from(vec: Vec<u8>) -> (r: Self)
        ensures
            r@ == vec@,
    {
        PrivatePkcs8KeyDer(Der::from(vec))
    }
}

impl<'a> vstd::std_specs::convert::FromSpecImpl<&'a [u8]> for PrivatePkcs8KeyDer<'a> {
    open spec fn obeys_from_spec() -> bool {
        true
    }

    closed spec fn from_spec(slice: &'a [u8]) -> Self {
        PrivatePkcs8KeyDer(<Der<'a> as FromSpec<&'a [u8]>>::from_spec(slice))
    }
}

impl<'a> vstd::std_specs::convert::FromSpecImpl<Vec<u8>> for PrivatePkcs8KeyDer<'a> {
    open spec fn obeys_from_spec() -> bool {
        true
    }

    closed spec fn from_spec(vec: Vec<u8>) -> Self {
        PrivatePkcs8KeyDer(<Der<'static> as FromSpec<Vec<u8>>>::from_spec(vec))
    }
}


/// Each key format gives back, as its secret bytes, exactly the bytes it was
/// made from, borrowed or owned.
pub proof fn lemma_keys_round_trip<'a>(slice: &'a [u8], vec: Vec<u8>)
    ensures
        <PrivatePkcs1KeyDer<'a> as FromSpec<&'a [u8]>>::from_spec(slice)@ == slice@,
        <PrivatePkcs1KeyDer<'a> as FromSpec<Vec<u8>>>::from_spec(vec)@ == vec@,
        <PrivateSec1KeyDer<'a> as FromSpec<&'a [u8]>>::from_spec(slice)@ == slice@,
        <PrivateSec1KeyDer<'a> as FromSpec<Vec<u8>>>::from_spec(vec)@ == vec@,
        <PrivatePkcs8KeyDer<'a> as FromSpec<&'a [u8]>>::from_spec(slice)@ == slice@,
        <PrivatePkcs8KeyDer<'a> as FromSpec<Vec<u8>>>::from_spec(vec)@ == vec@,
{
    lemma_der_from_keeps_bytes(slice, vec);
}

/// A `PrivateKeyDer` made from a key of one format is of that format, and its
/// secret bytes are that key's bytes.
pub proof fn lemma_closed_key_sum<'a>(
    pkcs1: PrivatePkcs1KeyDer<'a>,
    sec1: PrivateSec1KeyDer<'a>,
    pkcs8: PrivatePkcs8KeyDer<'a>,
)
    ensures
        <PrivateKeyDer<'a> as FromSpec<PrivatePkcs1KeyDer<'a>>>::from_spec(pkcs1) is Pkcs1,
        <PrivateKeyDer<'a> as FromSpec<PrivatePkcs1KeyDer<'a>>>::from_spec(pkcs1).secret_spec()
            == pkcs1@,
        <PrivateKeyDer<'a> as FromSpec<PrivateSec1KeyDer<'a>>>::from_spec(sec1) is Sec1,
        <PrivateKeyDer<'a> as FromSpec<PrivateSec1KeyDer<'a>>>::from_spec(sec1).secret_spec()
            == sec1@,
        <PrivateKeyDer<'a> as FromSpec<PrivatePkcs8KeyDer<'a>>>::from_spec(pkcs8) is Pkcs8,
        <PrivateKeyDer<'a> as FromSpec<PrivatePkcs8KeyDer<'a>>>::from_spec(pkcs8).secret_spec()
            == pkcs8@,
{
}

/// What diagnostics show of a private key depends on its format alone: two
/// keys of one format, whatever their bytes, are shown alike.
pub proof fn lemma_debug_redacted<'a>(a: PrivateKeyDer<'a>, b: PrivateKeyDer<'a>)
    requires
        (a is Pkcs1 && b is Pkcs1) || (a is Sec1 && b is Sec1) || (a is Pkcs8 && b is Pkcs8),
    ensures
        a.debug_spec() == b.debug_spec(),
{
}

} // verus!
