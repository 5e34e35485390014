use rquest::trust::{select_roots, load_bundled_store, TrustStore, TrustStoreError};

#[test]
fn from_der_certs_keeps_records_in_order() {
    let certs = vec![vec![0x30, 0x82, 0x01], vec![0x30, 0x81]];
    let store = TrustStore::from_der_certs(certs).unwrap();
    assert_eq!(store.len(), 2);
    assert_eq!(store.anchor(0), &vec![0x30, 0x82, 0x01]);
    assert_eq!(store.anchor(1), &vec![0x30, 0x81]);
}

#[test]
fn from_der_certs_rejects_an_empty_record() {
    let certs = vec![vec![0x30, 0x82], Vec::new()];
    assert!(matches!(
        TrustStore::from_der_certs(certs),
        Err(TrustStoreError::EmptyCertificate)
    ));
}

#[test]
fn select_roots_prefers_the_bundled_source() {
    let bundled = vec![vec![1u8]];
    let native = vec![vec![2u8], vec![3u8]];
    let store = select_roots(Some(bundled), Some(native)).unwrap();
    assert_eq!(store.len(), 1);
    assert_eq!(store.anchor(0), &vec![1u8]);
}

#[test]
fn select_roots_falls_back_to_the_native_source() {
    let native = vec![vec![2u8], vec![3u8]];
    let store = select_roots(None, Some(native)).unwrap();
    assert_eq!(store.len(), 2);
}

#[test]
fn select_roots_yields_no_store_without_a_source() {
    assert!(select_roots(None, None).is_none());
}

#[test]
fn select_roots_does_not_fall_through_on_a_bad_source() {
    // A present-but-invalid preferred source means no store, matching a load
    // failure being terminal rather than retried against another source.
    let bundled = vec![Vec::new()];
    let native = vec![vec![2u8]];
    assert!(select_roots(Some(bundled), Some(native)).is_none());
}

#[test]
fn bundled_store_loads_and_is_populated() {
    let store = load_bundled_store().unwrap();
    assert!(store.len() > 0);
    // Every bundled anchor is a real DER record.
    assert!(store.anchor(0).len() > 0);
}
