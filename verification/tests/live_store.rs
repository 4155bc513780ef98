//! These tests query the host's real trust store and assume at least one
//! trusted root CA is installed.

use native_roots::retrieve_root_certificates;

#[test]
fn live_store_yields_valid_der_certificates() {
    let certs = retrieve_root_certificates().unwrap();
    assert!(!certs.is_empty());
    for der in &certs {
        let (rest, _cert) = x509_parser::parse_x509_certificate(der).unwrap();
        assert!(rest.is_empty());
    }
}

#[test]
fn live_outputs_are_independently_owned() {
    let mut first = retrieve_root_certificates().unwrap();
    let second = retrieve_root_certificates().unwrap();
    let second_snapshot = second.clone();
    first[0].clear();
    first[0].push(0xff);
    assert_eq!(second, second_snapshot);
    if first.len() > 1 {
        assert_eq!(first[1], second_snapshot[1]);
    }
}

#[test]
fn live_retrieval_is_repeatable() {
    // The OS does not promise a stable enumeration order, so the comparison
    // tolerates reordering: same count, same contents as multisets.
    let mut a = retrieve_root_certificates().unwrap();
    let mut b = retrieve_root_certificates().unwrap();
    assert_eq!(a.len(), b.len());
    a.sort();
    b.sort();
    assert_eq!(a, b);
}
