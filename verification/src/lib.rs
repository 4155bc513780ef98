//! Retrieval of the operating system's trusted root certificate authorities
//! in binary (DER) form, exposed as a list of independently owned byte
//! buffers.
//!
//! The one operation, [`retrieve_root_certificates`], queries the platform's
//! native trust store and returns a fresh copy of each certificate's bytes.
//! The policy is strict: any error reported by the native mechanism is a
//! [`retrieval::RetrievalError::NativeLoadFailure`], and a mechanically
//! successful query that yields zero certificates is a
//! [`retrieval::RetrievalError::EmptyResult`], since an empty trusted-root
//! set almost always signals a misconfigured host.

use vstd::prelude::*;

mod native;
pub mod retrieval;

use retrieval::RetrievalError;
use retrieval::select_certificates;

verus! {

/// Query the operating system's native trust store and return the DER bytes
/// of every trusted root certificate it holds, each in a freshly allocated,
/// independently owned buffer, in the native enumeration order.
///
/// Strict policy, applied uniformly: any error the native mechanism reports
/// is returned as `NativeLoadFailure` carrying the error descriptions, and a
/// query that succeeds with zero certificates is returned as `EmptyResult`.
/// Success therefore always carries at least one certificate.
pub fn retrieve_root_certificates() -> (r: Result<Vec<Vec<u8>>, RetrievalError>)
    ensures
        r matches Ok(certs) ==> certs@.len() > 0,
        r matches Err(RetrievalError::NativeLoadFailure(msgs)) ==> msgs@.len() > 0,
{
    let report = native::load_native_report();
    select_certificates(report)
}

} // verus!
