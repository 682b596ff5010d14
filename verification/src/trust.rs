//! The certificate authorities that a server is checked against.
//!
//! The authorities come from a bundle of PEM text that the program carries with it.
//! Reading the PEM sections is the work of `rustls-pemfile`, and taking a certificate
//! apart into a trust anchor is the work of `rustls`; both are called here and
//! neither is proved. What is proved is what happens around them: in which order the
//! certificates are taken, and when loading fails.

use vstd::prelude::*;
use tokio_rustls::rustls::RootCertStore;
use tokio_rustls::rustls::pki_types::CertificateDer;

verus! {

/// `rustls::RootCertStore`, the store of trust anchors. Nothing inside it is visible
/// here; what it holds goes by the name [`store_anchors`].
#[verifier::external_type_specification]
#[verifier::external_body]
pub struct ExRootCertStore(tokio_rustls::rustls::RootCertStore);

/// `rustls::Error`, with which a store turns a certificate down. It is passed through
/// and never looked into.
#[verifier::external_type_specification]
#[verifier::external_body]
pub struct ExStoreError(tokio_rustls::rustls::Error);

/// `std::io::Error`, with which the PEM reader reports broken text. It is passed
/// through and never looked into.
#[verifier::external_type_specification]
#[verifier::external_body]
pub struct ExReadError(std::io::Error);

/// What a store keeps of a certificate authority: three DER values taken from its
/// certificate.
pub struct Anchor {
    /// The authority's name.
    pub subject: Seq<u8>,
    /// The authority's public key with its algorithm.
    pub public_key_info: Seq<u8>,
    /// The names the authority may sign for, where its certificate limits them.
    pub name_constraints: Option<Seq<u8>>,
}

/// The certificates that `rustls_pemfile::certs` finds in the PEM text `pem`, each as
/// its DER bytes, in the order of the text; `None` where it reports an error.
pub uninterp spec fn pem_certificates(pem: Seq<u8>) -> Option<Seq<Seq<u8>>>;

/// The anchor that `RootCertStore::add` takes from the certificate `der`; `None` where
/// it rejects the certificate.
pub uninterp spec fn anchor_of(der: Seq<u8>) -> Option<Anchor>;

/// The anchors that `store` holds, oldest first.
pub uninterp spec fn store_anchors(store: RootCertStore) -> Seq<Anchor>;

/// The byte strings that `certificates` holds.
pub open spec fn der_views(certificates: Seq<Vec<u8>>) -> Seq<Seq<u8>> {
    Seq::new(certificates.len(), |i: int| certificates[i]@)
}

/// Calls `rustls_pemfile::certs` on `pem` and gathers the certificates that it yields,
/// giving up at the first error. The contract names the result and so claims one
/// thing only: that the same text always gives the same certificates, or always an
/// error.
#[verifier::external_body]
fn read_certificates(pem: &[u8]) -> (found: Result<Vec<Vec<u8>>, std::io::Error>)
    ensures
        match pem_certificates(pem@) {
            Some(ders) => found matches Ok(certificates) && der_views(certificates@) == ders,
            None => found is Err,
        },
{
    let mut reader = pem;
    rustls_pemfile::certs(&mut reader).map(|item| item.map(|der| der.as_ref().to_vec())).collect()
}

/// Calls `RootCertStore::empty`, which makes a store without anchors.
#[verifier::external_body]
fn empty_store() -> (store: RootCertStore)
    ensures
        store_anchors(store) == Seq::<Anchor>::empty(),
{
    RootCertStore::empty()
}

/// Calls `RootCertStore::add`. The store gains the certificate's anchor at its end, or
/// stays as it was where the certificate is rejected; the anchor depends on the
/// certificate alone.
#[verifier::external_body]
fn add_certificate(store: &mut RootCertStore, der: &[u8]) -> (added: Result<
    (),
    tokio_rustls::rustls::Error,
>)
    ensures
        match anchor_of(der@) {
            Some(anchor) => added is Ok && store_anchors(*final(store)) == store_anchors(
                *old(store),
            ).push(anchor),
            None => added is Err && store_anchors(*final(store)) == store_anchors(*old(store)),
        },
{
    store.add(CertificateDer::from(der))
}

/// Why a bundle gives no set of trust anchors.
#[derive(Clone, Copy, Debug, PartialEq, Eq, Structural)]
pub enum TrustLoadError {
    /// The PEM text is broken.
    Unreadable,
    /// The text holds no certificate.
    NoCertificate,
    /// The certificate with this index, counted from zero, is not one that can serve
    /// as a trust anchor. Those before it are.
    InvalidCertificate(usize),
}

/// Whether every certificate of `ders` yields an anchor, and there is at least one.
pub open spec fn all_accepted(ders: Seq<Seq<u8>>) -> bool {
    &&& ders.len() > 0
    &&& forall|i: int| 0 <= i < ders.len() ==> (#[trigger] anchor_of(ders[i])) is Some
}

/// The anchors of the certificates `ders`, in their order.
pub open spec fn anchors_of(ders: Seq<Seq<u8>>) -> Seq<Anchor> {
    Seq::new(ders.len(), |i: int| anchor_of(ders[i])->0)
}

/// What loading the certificates `ders` comes to.
pub open spec fn gathered(ders: Seq<Seq<u8>>) -> Result<Seq<Anchor>, TrustLoadError> {
    if ders.len() == 0 {
        Err(TrustLoadError::NoCertificate)
    } else if all_accepted(ders) {
        Ok(anchors_of(ders))
    } else {
        Err(TrustLoadError::InvalidCertificate(first_rejected(ders, 0) as usize))
    }
}

/// The index of the first certificate from `from` on that yields no anchor, or the
/// length of `ders` if there is none.
pub open spec fn first_rejected(ders: Seq<Seq<u8>>, from: int) -> int
    decreases ders.len() - from,
{
    if from >= ders.len() || anchor_of(ders[from]) is None {
        from
    } else {
        first_rejected(ders, from + 1)
    }
}

/// What loading the PEM text `pem` comes to.
pub open spec fn loaded(pem: Seq<u8>) -> Result<Seq<Anchor>, TrustLoadError> {
    match pem_certificates(pem) {
        None => Err(TrustLoadError::Unreadable),
        Some(ders) => gathered(ders),
    }
}

/// A set of trust anchors that is never empty.
#[derive(Debug)]
pub struct TrustAnchorSet {
    store: RootCertStore,
}

impl View for TrustAnchorSet {
    type V = Seq<Anchor>;

    closed spec fn view(&self) -> Seq<Anchor> {
        store_anchors(self.store)
    }
}

impl TrustAnchorSet {
    #[verifier::type_invariant]
    spec fn populated(self) -> bool {
        store_anchors(self.store).len() > 0
    }

    /// Reads the PEM text `pem` and makes a set of the certificates in it.
    ///
    /// Fails where the text is broken, holds no certificate, or holds one that cannot
    /// serve as a trust anchor.
    pub fn load(pem: &[u8]) -> (set: Result<TrustAnchorSet, TrustLoadError>)
        ensures
            match loaded(pem@) {
                Ok(anchors) => set matches Ok(s) && s@ == anchors,
                Err(e) => set matches Err(f) && f == e,
            },
    {
        match read_certificates(pem) {
            Ok(certificates) => TrustAnchorSet::from_certificates(&certificates),
            Err(_) => Err(TrustLoadError::Unreadable),
        }
    }

    /// Makes a set of `certificates`, each given as its DER bytes.
    ///
    /// The anchors stand in the order of the certificates. Fails where there is no
    /// certificate, and at the first one that cannot serve as a trust anchor.
    pub fn from_certificates(certificates: &Vec<Vec<u8>>) -> (set: Result<
        TrustAnchorSet,
        TrustLoadError,
    >)
        ensures
            match gathered(der_views(certificates@)) {
                Ok(anchors) => set matches Ok(s) && s@ == anchors,
                Err(e) => set matches Err(f) && f == e,
            },
    {
        let ghost ders = der_views(certificates@);
        if certificates.len() == 0 {
            return Err(TrustLoadError::NoCertificate);
        }
        let mut store = empty_store();
        let mut i: usize = 0;
        while i < certificates.len()
            invariant
                i <= certificates.len(),
                ders == der_views(certificates@),
                forall|j: int| 0 <= j < i ==> (#[trigger] anchor_of(ders[j])) is Some,
                store_anchors(store) == anchors_of(ders.take(i as int)),
                first_rejected(ders, 0) == first_rejected(ders, i as int),
            decreases certificates.len() - i,
        {
            let ghost before = store_anchors(store);
            match add_certificate(&mut store, certificates[i].as_slice()) {
                Ok(()) => {
                    assert(store_anchors(store) =~= anchors_of(ders.take(i + 1))) by {
                        assert(ders.take(i + 1)[i as int] == ders[i as int]);
                    }
                },
                Err(_) => {
                    assert(!all_accepted(ders));
                    return Err(TrustLoadError::InvalidCertificate(i));
                },
            }
            i = i + 1;
        }
        assert(ders.take(i as int) =~= ders);
        Ok(TrustAnchorSet { store })
    }

    /// How many anchors the set holds.
    pub fn len(&self) -> (n: usize)
        ensures
            n == self@.len(),
            n > 0,
    {
        proof {
            use_type_invariant(self);
        }
        anchor_count(&self.store)
    }

    /// Gives up the set as the store that a TLS configuration is built from.
    pub fn into_store(self) -> (store: RootCertStore)
        ensures
            store_anchors(store) == self@,
    {
        self.store
    }
}

/// Calls `RootCertStore::len`, which counts the anchors.
#[verifier::external_body]
fn anchor_count(store: &RootCertStore) -> (n: usize)
    ensures
        n == store_anchors(*store).len(),
{
    store.len()
}

} // verus!
