use pki_types::der::{bytes_equal, copy_bytes};
use pki_types::{
    CertificateDer, CertificateRevocationListDer, Der, PrivateKeyDer, PrivatePkcs1KeyDer,
    PrivatePkcs8KeyDer, PrivateSec1KeyDer, TrustAnchor,
};

const SAMPLE: [u8; 5] = [0x30, 0x03, 0x02, 0x01, 0x07];

#[test]
fn borrowed_and_owned_der_are_equal() {
    let borrowed = Der::from_slice(&SAMPLE);
    let owned = Der::from(SAMPLE.to_vec());
    assert_eq!(borrowed, owned);
    assert_eq!(borrowed.as_bytes(), owned.as_bytes());
    assert_eq!(borrowed.as_ref(), &SAMPLE[..]);
    assert_eq!(&*owned, &SAMPLE[..]);
}

#[test]
fn empty_der_borrowed_and_owned_are_equal() {
    let empty: [u8; 0] = [];
    let borrowed = Der::from(&empty[..]);
    let owned = Der::from_vec(Vec::new());
    assert_eq!(borrowed, owned);
    assert!(owned.as_bytes().is_empty());
}

#[test]
fn der_with_other_bytes_differs() {
    let a = Der::from_slice(&SAMPLE);
    let b = Der::from(vec![0x30, 0x03, 0x02, 0x01, 0x08]);
    let c = Der::from(vec![0x30, 0x03, 0x02, 0x01]);
    assert_ne!(a, b);
    assert_ne!(a, c);
}

#[test]
fn der_clone_and_owned_copy_keep_bytes() {
    let borrowed = Der::from_slice(&SAMPLE);
    assert_eq!(borrowed.clone().as_bytes(), &SAMPLE[..]);
    let owned = borrowed.to_owned_der();
    assert_eq!(owned.as_bytes(), &SAMPLE[..]);
    assert_eq!(owned.clone(), borrowed);
}

#[test]
fn copy_bytes_and_bytes_equal() {
    let copy = copy_bytes(&SAMPLE);
    assert_eq!(copy, SAMPLE.to_vec());
    assert!(bytes_equal(&copy, &SAMPLE));
    assert!(!bytes_equal(&SAMPLE[..4], &SAMPLE));
    assert!(!bytes_equal(&[1, 2], &[1, 3]));
    assert!(bytes_equal(&[], &[]));
}

#[test]
fn certificate_round_trip() {
    let borrowed = CertificateDer::from(&SAMPLE[..]);
    let owned = CertificateDer::from(SAMPLE.to_vec());
    assert_eq!(borrowed.as_ref(), &SAMPLE[..]);
    assert_eq!(&*owned, &SAMPLE[..]);
    assert_eq!(borrowed, owned);
    assert_eq!(owned.clone(), borrowed);
}

#[test]
fn revocation_list_round_trip() {
    let borrowed = CertificateRevocationListDer::from(&SAMPLE[..]);
    let owned = CertificateRevocationListDer::from(SAMPLE.to_vec());
    assert_eq!(borrowed.as_ref(), &SAMPLE[..]);
    assert_eq!(&*owned, &SAMPLE[..]);
    assert_eq!(borrowed, owned);
    assert_eq!(borrowed.clone(), owned);
}

#[test]
fn private_key_round_trips() {
    assert_eq!(PrivatePkcs1KeyDer::from(&SAMPLE[..]).secret_pkcs1_der(), &SAMPLE[..]);
    assert_eq!(PrivatePkcs1KeyDer::from(SAMPLE.to_vec()).secret_pkcs1_der(), &SAMPLE[..]);
    assert_eq!(PrivateSec1KeyDer::from(&SAMPLE[..]).secret_sec1_der(), &SAMPLE[..]);
    assert_eq!(PrivateSec1KeyDer::from(SAMPLE.to_vec()).secret_sec1_der(), &SAMPLE[..]);
    assert_eq!(PrivatePkcs8KeyDer::from(&SAMPLE[..]).secret_pkcs8_der(), &SAMPLE[..]);
    assert_eq!(PrivatePkcs8KeyDer::from(SAMPLE.to_vec()).secret_pkcs8_der(), &SAMPLE[..]);
}

#[test]
fn private_key_sum_keeps_kind_and_bytes() {
    let pkcs1 = PrivateKeyDer::from(PrivatePkcs1KeyDer::from(&SAMPLE[..]));
    assert!(matches!(pkcs1, PrivateKeyDer::Pkcs1(_)));
    assert_eq!(pkcs1.secret_der(), &SAMPLE[..]);

    let sec1 = PrivateKeyDer::from(PrivateSec1KeyDer::from(vec![1, 2, 3]));
    assert!(matches!(sec1, PrivateKeyDer::Sec1(_)));
    assert_eq!(sec1.secret_der(), &[1, 2, 3][..]);

    let pkcs8 = PrivateKeyDer::from(PrivatePkcs8KeyDer::from(vec![9]));
    assert!(matches!(pkcs8, PrivateKeyDer::Pkcs8(_)));
    assert_eq!(pkcs8.secret_der(), &[9][..]);

    assert!(pkcs1 != PrivateKeyDer::from(PrivateSec1KeyDer::from(&SAMPLE[..])));
    assert!(pkcs1 == PrivateKeyDer::from(PrivatePkcs1KeyDer::from(SAMPLE.to_vec())));
}

#[test]
fn private_key_debug_is_redacted() {
    let secret = b"very-secret-key-material";
    let text = std::str::from_utf8(secret).unwrap();
    let pkcs1 = PrivatePkcs1KeyDer::from(&secret[..]);
    let sec1 = PrivateSec1KeyDer::from(secret.to_vec());
    let pkcs8 = PrivatePkcs8KeyDer::from(&secret[..]);
    assert_eq!(pkcs1.redacted_debug(), "PrivatePkcs1KeyDer(\"[secret key elided]\")");
    assert_eq!(sec1.redacted_debug(), "PrivateSec1KeyDer(\"[secret key elided]\")");
    assert_eq!(pkcs8.redacted_debug(), "PrivatePkcs8KeyDer(\"[secret key elided]\")");
    for shown in [pkcs1.redacted_debug(), sec1.redacted_debug(), pkcs8.redacted_debug()] {
        assert!(!shown.contains(text));
    }
    let other = PrivatePkcs1KeyDer::from(&SAMPLE[..]);
    assert_eq!(other.redacted_debug(), pkcs1.redacted_debug());

    let key = PrivateKeyDer::from(pkcs8);
    assert_eq!(key.redacted_debug(), "Pkcs8(PrivatePkcs8KeyDer(\"[secret key elided]\"))");
    assert!(!key.redacted_debug().contains(text));
    let key = PrivateKeyDer::from(pkcs1);
    assert_eq!(key.redacted_debug(), "Pkcs1(PrivatePkcs1KeyDer(\"[secret key elided]\"))");
    let key = PrivateKeyDer::from(sec1);
    assert_eq!(key.redacted_debug(), "Sec1(PrivateSec1KeyDer(\"[secret key elided]\"))");
}

#[test]
fn trust_anchor_to_owned_keeps_fields() {
    let subject = [0x30, 0x00];
    let spki = [0x30, 0x01, 0x05];
    let constraints = [0xa0, 0x00];
    let anchor = TrustAnchor {
        subject: Der::from_slice(&subject),
        subject_public_key_info: Der::from_slice(&spki),
        name_constraints: Some(Der::from_slice(&constraints)),
    };
    let owned: TrustAnchor<'static> = anchor.to_owned();
    assert_eq!(owned, anchor);
    assert_eq!(owned.subject.as_bytes(), &subject[..]);
    assert_eq!(owned.subject_public_key_info.as_bytes(), &spki[..]);
    assert_eq!(owned.name_constraints.as_ref().unwrap().as_bytes(), &constraints[..]);
    assert_eq!(anchor.clone(), owned);
}

#[test]
fn trust_anchor_without_constraints() {
    let subject = [0x30, 0x00];
    let anchor = TrustAnchor {
        subject: Der::from_slice(&subject),
        subject_public_key_info: Der::from(vec![1, 2]),
        name_constraints: None,
    };
    let owned = anchor.to_owned();
    assert!(owned.name_constraints.is_none());
    assert_eq!(owned, anchor);
}
