use glb_to_ss::trust::{TrustAnchorSet, TrustLoadError};
use tokio_rustls::rustls::pki_types::CertificateDer;
use tokio_rustls::rustls::RootCertStore;

const ROOT_ONE: &str = "-----BEGIN CERTIFICATE-----
MIIBRjCB+aADAgECAhRNgh4XyaSVS0UJyFCSE3vtNTmMCjAFBgMrZXAwGDEWMBQG
A1UEAwwNVGVzdCBSb290IE9uZTAgFw0yNjEwMjgyMjMwMjVaGA8yMTI2MTAwNDIy
MzAyNVowGDEWMBQGA1UEAwwNVGVzdCBSb290IE9uZTAqMAUGAytlcAMhAO8ZVYhz
S32Sr44p+STHAI/xWnX7C+0eqFSB0jfdf0Rio1MwUTAdBgNVHQ4EFgQUiHweZCLE
HqOfpUAGPfvjCKqTaEswHwYDVR0jBBgwFoAUiHweZCLEHqOfpUAGPfvjCKqTaEsw
DwYDVR0TAQH/BAUwAwEB/zAFBgMrZXADQQBHnYlz6vhF4h7PDbHHnuwg84BYGk5v
1ynaJAE0Rikbvxo3jDz+ezUeSU7M+BpFlEF3WY6JkYUEQUJWRQM9plUE
-----END CERTIFICATE-----
";

const ROOT_TWO: &str = "-----BEGIN CERTIFICATE-----
MIIBRjCB+aADAgECAhQrKeW13DbBf2ox1QfAKVgkQpUx8jAFBgMrZXAwGDEWMBQG
A1UEAwwNVGVzdCBSb290IFR3bzAgFw0yNjEwMjgyMjMwMjVaGA8yMTI2MTAwNDIy
MzAyNVowGDEWMBQGA1UEAwwNVGVzdCBSb290IFR3bzAqMAUGAytlcAMhANPqK7xS
yn2/lbRmAbOpkupld8KnVYZHklUB02XbTcgpo1MwUTAdBgNVHQ4EFgQUea+tY7Fn
hHAN2SHadmE8FLyF7wkwHwYDVR0jBBgwFoAUea+tY7FnhHAN2SHadmE8FLyF7wkw
DwYDVR0TAQH/BAUwAwEB/zAFBgMrZXADQQBCKZSRpxD9w30kDNz4SRXJXttoQVNX
VLVm20aWE1TxcWWL/ZTIRhuPswONFYVpzTS2+v3av60f3uZLoOEIlQYN
-----END CERTIFICATE-----
";

/// A section that is a certificate by its label and four zero bytes inside.
const NOT_A_CERTIFICATE: &str = "-----BEGIN CERTIFICATE-----
AAAAAA==
-----END CERTIFICATE-----
";

const SOME_KEY: &str = "SECRET-REDACTED
";

fn der_of(pem: &str) -> Vec<u8> {
    let mut reader = pem.as_bytes();
    let found: Vec<CertificateDer<'static>> = rustls_pemfile::certs(&mut reader)
        .map(|item| item.unwrap())
        .collect();
    assert_eq!(found.len(), 1);
    found[0].as_ref().to_vec()
}

fn subject_holds(store: &RootCertStore, index: usize, name: &[u8]) -> bool {
    let subject = store.roots[index].subject.as_ref();
    subject.windows(name.len()).any(|w| w == name)
}

fn error_of(loaded: Result<TrustAnchorSet, TrustLoadError>) -> TrustLoadError {
    match loaded {
        Ok(set) => panic!("loaded {} anchors", set.len()),
        Err(error) => error,
    }
}

#[test]
fn bundle_of_one_certificate_loads() {
    let set = TrustAnchorSet::load(ROOT_ONE.as_bytes()).unwrap();
    assert_eq!(set.len(), 1);
    let store = set.into_store();
    assert_eq!(store.len(), 1);
    assert!(subject_holds(&store, 0, b"Test Root One"));
}

#[test]
fn anchors_stand_in_the_order_of_the_bundle() {
    let bundle = format!("{}{}", ROOT_TWO, ROOT_ONE);
    let set = TrustAnchorSet::load(bundle.as_bytes()).unwrap();
    assert_eq!(set.len(), 2);
    let store = set.into_store();
    assert!(subject_holds(&store, 0, b"Test Root Two"));
    assert!(subject_holds(&store, 1, b"Test Root One"));
}

#[test]
fn loaded_anchors_are_those_that_the_store_makes_itself() {
    let set = TrustAnchorSet::load(ROOT_ONE.as_bytes()).unwrap();
    let mut expected = RootCertStore::empty();
    expected.add(CertificateDer::from(der_of(ROOT_ONE))).unwrap();
    assert_eq!(set.into_store().roots, expected.roots);
}

#[test]
fn other_sections_and_loose_text_are_passed_over() {
    let bundle = format!("a remark\n{}\n{}more text\n", SOME_KEY, ROOT_ONE);
    let set = TrustAnchorSet::load(bundle.as_bytes()).unwrap();
    assert_eq!(set.len(), 1);
}

#[test]
fn empty_bundle_has_no_certificate() {
    assert_eq!(
        error_of(TrustAnchorSet::load(b"")),
        TrustLoadError::NoCertificate
    );
    assert_eq!(
        error_of(TrustAnchorSet::load(b"nothing to see here\n")),
        TrustLoadError::NoCertificate
    );
    assert_eq!(
        error_of(TrustAnchorSet::load(SOME_KEY.as_bytes())),
        TrustLoadError::NoCertificate
    );
}

#[test]
fn broken_pem_is_unreadable() {
    let cut = &ROOT_ONE[..ROOT_ONE.len() - 27];
    assert_eq!(
        error_of(TrustAnchorSet::load(cut.as_bytes())),
        TrustLoadError::Unreadable
    );
    assert_eq!(
        error_of(TrustAnchorSet::load(
            b"-----BEGIN CERTIFICATE-----\n!!!!\n-----END CERTIFICATE-----\n"
        )),
        TrustLoadError::Unreadable
    );
}

#[test]
fn broken_pem_after_a_good_certificate_is_unreadable() {
    let bundle = format!("{}-----BEGIN CERTIFICATE-----\nAAAA\n", ROOT_ONE);
    assert_eq!(
        error_of(TrustAnchorSet::load(bundle.as_bytes())),
        TrustLoadError::Unreadable
    );
}

#[test]
fn section_that_is_no_certificate_is_invalid() {
    assert_eq!(
        error_of(TrustAnchorSet::load(NOT_A_CERTIFICATE.as_bytes())),
        TrustLoadError::InvalidCertificate(0)
    );
}

#[test]
fn first_invalid_certificate_is_named() {
    let bundle = format!(
        "{}{}{}{}",
        ROOT_ONE, ROOT_TWO, NOT_A_CERTIFICATE, NOT_A_CERTIFICATE
    );
    assert_eq!(
        error_of(TrustAnchorSet::load(bundle.as_bytes())),
        TrustLoadError::InvalidCertificate(2)
    );
}

#[test]
fn set_is_made_of_given_certificates() {
    let certificates = vec![der_of(ROOT_ONE), der_of(ROOT_TWO)];
    let set = TrustAnchorSet::from_certificates(&certificates).unwrap();
    assert_eq!(set.len(), 2);
    let store = set.into_store();
    assert!(subject_holds(&store, 0, b"Test Root One"));
    assert!(subject_holds(&store, 1, b"Test Root Two"));
}

#[test]
fn no_set_is_made_of_nothing() {
    assert_eq!(
        error_of(TrustAnchorSet::from_certificates(&vec![])),
        TrustLoadError::NoCertificate
    );
}

#[test]
fn no_set_is_made_where_one_certificate_is_invalid() {
    let certificates = vec![der_of(ROOT_ONE), vec![0x30, 0x00], der_of(ROOT_TWO)];
    assert_eq!(
        error_of(TrustAnchorSet::from_certificates(&certificates)),
        TrustLoadError::InvalidCertificate(1)
    );
    assert_eq!(
        error_of(TrustAnchorSet::from_certificates(&vec![vec![]])),
        TrustLoadError::InvalidCertificate(0)
    );
}
