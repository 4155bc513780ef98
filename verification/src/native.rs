//! The one call into the platform-native certificate-store mechanism.

use vstd::prelude::*;

use crate::retrieval::NativeLoadReport;

verus! {

/// Relies on rustls_native_certs::load_native_certs: it enumerates the
/// certificates of the platform's native trust store and yields the DER
/// bytes of each certificate it loaded together with a description of each
/// error it met. What comes back depends on the host's configuration, so
/// nothing is promised of the contents.
#[verifier::external_body]
pub(crate) fn load_native_report() -> NativeLoadReport {
    let outcome = rustls_native_certs::load_native_certs();
    NativeLoadReport {
        certs: outcome.certs.into_iter().map(|c| c.as_ref().to_vec()).collect(),
        errors: outcome.errors.into_iter().map(|e| e.to_string()).collect(),
    }
}

} // verus!
