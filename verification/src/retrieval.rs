//! The selection-and-copy core: given what the native mechanism reported,
//! decide success or failure and assemble independently owned copies of the
//! certificate bytes.

use vstd::prelude::*;

verus! {

/// What one query of the platform's native trust store reported: the DER
/// bytes of each certificate that loaded, and a human-readable description
/// of each error met along the way.
///
/// This is the injectable boundary of the component: the native mechanism is
/// abstracted as "something that produces a `NativeLoadReport`", so the
/// selection policy below can be exercised on any report.
pub struct NativeLoadReport {
    /// The raw DER bytes of each certificate that loaded, in enumeration order.
    pub certs: Vec<Vec<u8>>,
    /// A description of each error the native mechanism reported.
    pub errors: Vec<String>,
}

/// Why no trusted roots could be obtained.
#[derive(Debug)]
pub enum RetrievalError {
    /// The native trust-store query reported one or more errors; the
    /// descriptions are carried verbatim.
    NativeLoadFailure(Vec<String>),
    /// The native trust-store query succeeded mechanically but yielded zero
    /// certificates; under the strict policy this is an error distinct from
    /// a mechanical failure.
    EmptyResult,
}

impl RetrievalError {
    /// A human-readable diagnostic for this error.
    pub fn message(&self) -> (r: &'static str)
        ensures
            self is NativeLoadFailure ==> r@ == "failed to load certificates from the native trust store"@,
            self is EmptyResult ==> r@ == "the native trust store reported no certificates"@,
    {
        match self {
            RetrievalError::NativeLoadFailure(_) => "failed to load certificates from the native trust store",
            RetrievalError::EmptyResult => "the native trust store reported no certificates",
        }
    }
}

/// The outcome the strict policy owes for given native report contents,
/// at the level of the mathematical model: error descriptions as sequences
/// of characters, certificates as sequences of bytes.
pub enum SelectionOutcome {
    /// The native mechanism reported these errors.
    Failure(Seq<Seq<char>>),
    /// The native mechanism succeeded but yielded zero certificates.
    Empty,
    /// The native mechanism yielded these certificates and no error.
    Loaded(Seq<Seq<u8>>),
}

/// The strict selection policy as a pure function of the report contents:
/// any reported error is fatal; otherwise zero certificates is the distinct
/// empty-store failure; otherwise the certificates are returned unchanged,
/// in order.
pub open spec fn spec_selection(certs: Seq<Seq<u8>>, errors: Seq<Seq<char>>) -> SelectionOutcome {
    if errors.len() > 0 {
        SelectionOutcome::Failure(errors)
    } else if certs.len() == 0 {
        SelectionOutcome::Empty
    } else {
        SelectionOutcome::Loaded(certs)
    }
}

/// Whether an executable result carries exactly the given model outcome.
pub open spec fn outcome_matches(
    r: Result<Vec<Vec<u8>>, RetrievalError>,
    outcome: SelectionOutcome,
) -> bool {
    match outcome {
        SelectionOutcome::Failure(descs) => r matches Err(RetrievalError::NativeLoadFailure(msgs))
            && msgs.deep_view() == descs,
        SelectionOutcome::Empty => r matches Err(RetrievalError::EmptyResult),
        SelectionOutcome::Loaded(certs) => r matches Ok(out) && out.deep_view() == certs,
    }
}

/// For a byte buffer, the deep view coincides with the view.
pub proof fn lemma_bytes_deep_view(v: &Vec<u8>)
    ensures
        v.deep_view() =~= v@,
{
}

/// Copy one byte buffer into a freshly allocated, independently owned one.
fn clone_buffer(src: &Vec<u8>) -> (r: Vec<u8>)
    ensures
        r@ == src@,
{
    let mut out: Vec<u8> = Vec::new();
    let mut i: usize = 0;
    while i < src.len()
        invariant
            i <= src@.len(),
            out@ == src@.take(i as int),
        decreases src@.len() - i,
    {
        out.push(src[i]);
        i = i + 1;
    }
    proof {
        assert(out@ =~= src@);
    }
    out
}

/// Copy every certificate's bytes into a freshly allocated, independently
/// owned buffer, keeping the order.
fn copy_certificates(certs: &Vec<Vec<u8>>) -> (r: Vec<Vec<u8>>)
    ensures
        r.deep_view() == certs.deep_view(),
        r@.len() == certs@.len(),
{
    let mut out: Vec<Vec<u8>> = Vec::new();
    let mut i: usize = 0;
    while i < certs.len()
        invariant
            i <= certs@.len(),
            out@.len() == i as int,
            out.deep_view() =~= certs.deep_view().take(i as int),
        decreases certs@.len() - i,
    {
        let copied = clone_buffer(&certs[i]);
        proof {
            lemma_bytes_deep_view(&copied);
            lemma_bytes_deep_view(&certs@[i as int]);
        }
        out.push(copied);
        i = i + 1;
    }
    proof {
        assert(out.deep_view() =~= certs.deep_view());
    }
    out
}

/// Apply the strict policy to what the native mechanism reported.
///
/// Any reported error is returned as `NativeLoadFailure` carrying the error
/// descriptions verbatim, with no partial work; a report of zero
/// certificates and no error is returned as `EmptyResult`; otherwise every
/// certificate's bytes are copied, byte for byte and in order, into a
/// freshly allocated, independently owned buffer.
pub fn select_certificates(report: NativeLoadReport) -> (r: Result<Vec<Vec<u8>>, RetrievalError>)
    ensures
        outcome_matches(r, spec_selection(report.certs.deep_view(), report.errors.deep_view())),
{
    if report.errors.len() > 0 {
        return Err(RetrievalError::NativeLoadFailure(report.errors));
    }
    if report.certs.len() == 0 {
        return Err(RetrievalError::EmptyResult);
    }
    Ok(copy_certificates(&report.certs))
}

/// Mutating one returned buffer never affects any other: replacing the
/// buffer at one position of a returned collection leaves the buffer at
/// every other position unchanged, and the count unchanged.
pub proof fn lemma_buffer_independence(bufs: Seq<Seq<u8>>, i: int, j: int, replacement: Seq<u8>)
    requires
        0 <= i < bufs.len(),
        0 <= j < bufs.len(),
        i != j,
    ensures
        bufs.update(i, replacement).len() == bufs.len(),
        bufs.update(i, replacement)[j] == bufs[j],
{
}

/// The selection is deterministic: on an unchanged trust store, that is on
/// the same native report contents, any two invocations agree. Both succeed
/// or both fail the same way; on success they return the same count and
/// byte-for-byte equal certificates in the same order; on failure they carry
/// the same error descriptions.
pub proof fn lemma_selection_deterministic(
    r1: Result<Vec<Vec<u8>>, RetrievalError>,
    r2: Result<Vec<Vec<u8>>, RetrievalError>,
    certs: Seq<Seq<u8>>,
    errors: Seq<Seq<char>>,
)
    requires
        outcome_matches(r1, spec_selection(certs, errors)),
        outcome_matches(r2, spec_selection(certs, errors)),
    ensures
        r1 is Ok <==> r2 is Ok,
        r1 matches Ok(a) ==> (r2 matches Ok(b) && a.deep_view() == b.deep_view()
            && a@.len() == b@.len()),
        r1 matches Err(RetrievalError::EmptyResult) ==> r2 matches Err(
            RetrievalError::EmptyResult,
        ),
        r1 matches Err(RetrievalError::NativeLoadFailure(m1)) ==> (r2 matches Err(
            RetrievalError::NativeLoadFailure(m2),
        ) && m1.deep_view() == m2.deep_view()),
{
}

} // verus!
