//! The process-wide trust-anchor store.
//!
//! A [`TrustStore`] is an immutable set of root-certificate records in DER
//! form, built once from the first available source and shared read-only for
//! the rest of the process. A failed load is a valid terminal state — the
//! store is simply absent, and connections that need trust anchors fail
//! individually at use time — so every loader here yields an `Option` rather
//! than propagating an error.

use vstd::prelude::*;

verus! {

/// Why a set of DER records was rejected as trust anchors.
#[derive(Debug, PartialEq, Eq, Structural)]
pub enum TrustStoreError {
    /// A record was empty; no DER certificate is.
    EmptyCertificate,
}

/// Whether every DER record in a list is non-empty.
pub open spec fn all_certs_nonempty(certs: Seq<Vec<u8>>) -> bool {
    forall|i: int| 0 <= i < certs.len() ==> #[trigger] certs[i]@.len() > 0
}

/// An immutable set of root-certificate records, each a non-empty DER byte
/// string.
pub struct TrustStore {
    anchors: Vec<Vec<u8>>,
}

impl TrustStore {
    /// The DER records this store holds, in the order they were supplied.
    pub closed spec fn anchors(&self) -> Seq<Vec<u8>> {
        self.anchors@
    }

    /// Well-formedness: no anchor is an empty record.
    pub closed spec fn wf(&self) -> bool {
        all_certs_nonempty(self.anchors@)
    }

    /// Builds a store from DER records; rejects a list holding an empty
    /// record, and accepts exactly the others, keeping them unchanged and in
    /// order.
    pub fn from_der_certs(certs: Vec<Vec<u8>>) -> (r: Result<TrustStore, TrustStoreError>)
        ensures
            r matches Ok(s) ==> s.wf() && s.anchors() == certs@,
            r is Ok <==> all_certs_nonempty(certs@),
            r matches Err(e) ==> e == TrustStoreError::EmptyCertificate,
    {
        let end = certs.len();
        let mut i: usize = 0;
        while i < end
            invariant
                0 <= i <= end,
                end == certs@.len(),
                forall|j: int| 0 <= j < i ==> #[trigger] certs@[j]@.len() > 0,
            decreases end - i,
        {
            if certs[i].len() == 0 {
                return Err(TrustStoreError::EmptyCertificate);
            }
            i = i + 1;
        }
        Ok(TrustStore { anchors: certs })
    }

    /// The number of anchors in this store.
    pub fn len(&self) -> (r: usize)
        ensures
            r == self.anchors().len(),
    {
        self.anchors.len()
    }

    /// One anchor's DER bytes.
    pub fn anchor(&self, i: usize) -> (r: &Vec<u8>)
        requires
            i < self.anchors().len(),
        ensures
            r == self.anchors()[i as int],
    {
        &self.anchors[i]
    }
}

/// Builds the store from the first source that is available, in preference
/// order: the bundled root set, then the platform's native one. A present
/// source is used exactly when its records are all non-empty; a rejected
/// source yields no store, it does not fall through to the next. With no
/// source at all there is no store.
pub fn select_roots(bundled: Option<Vec<Vec<u8>>>, native: Option<Vec<Vec<u8>>>) -> (r: Option<
    TrustStore,
>)
    ensures
        bundled matches Some(c) ==> ((r is Some <==> all_certs_nonempty(c@)) && (r matches Some(s)
            ==> s.wf() && s.anchors() == c@)),
        bundled is None ==> (native matches Some(c) ==> ((r is Some <==> all_certs_nonempty(c@))
            && (r matches Some(s) ==> s.wf() && s.anchors() == c@))),
        bundled is None && native is None ==> r is None,
{
    let source = match bundled {
        Some(c) => Some(c),
        None => native,
    };
    match source {
        Some(certs) => match TrustStore::from_der_certs(certs) {
            Ok(store) => Some(store),
            Err(_) => None,
        },
        None => None,
    }
}

/// Relies on `webpki_root_certs::TLS_SERVER_ROOT_CERTS`: the compiled-in root
/// certificates trusted by Mozilla, as DER byte strings. The shipped list is
/// not empty and no certificate in it is an empty record.
#[verifier::external_body]
fn bundled_root_certs() -> (r: Vec<Vec<u8>>)
    ensures
        r@.len() > 0,
        all_certs_nonempty(r@),
{
    webpki_root_certs::TLS_SERVER_ROOT_CERTS.iter().map(|c| c.as_ref().to_vec()).collect()
}

/// Builds the trust store from the bundled root set. The bundled records are
/// well formed, so the store is always present and non-empty.
pub fn load_bundled_store() -> (r: Option<TrustStore>)
    ensures
        r matches Some(s) && s.wf() && s.anchors().len() > 0,
{
    let certs = bundled_root_certs();
    select_roots(Some(certs), None)
}

} // verus!
