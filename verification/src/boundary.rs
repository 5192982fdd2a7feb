//! Status codes of the foreign-function boundary.
//!
//! A host calls the analysis through raw byte buffers and sees nothing
//! of the library's error types: every call ends in one of six terminal
//! outcomes, each encoded as a stable integer so the host can branch
//! without string matching.  The outcome-to-code mapping is verified
//! here; the unmanaged-memory marshalling itself lives with the host
//! glue, outside the verified core.

use vstd::prelude::*;

verus! {

/// Terminal outcome of one boundary call.
#[derive(Clone, Copy, Debug, PartialEq, Eq, Structural)]
pub enum BoundaryOutcome {
    /// The response buffer was produced and ownership handed over.
    Delivered,
    /// An input or output pointer was null.
    NullPointer,
    /// The request bytes did not decode into a batch of stat records.
    DecodeFailed,
    /// The analysis itself failed.
    AnalysisFailed,
    /// The response could not be encoded.
    EncodeFailed,
    /// The response buffer could not be allocated.
    AllocationFailed,
}

/// The stable status code of each outcome: zero for success, a distinct
/// negative code for each failure.
pub open spec fn spec_status_code(o: BoundaryOutcome) -> int {
    match o {
        BoundaryOutcome::Delivered => 0,
        BoundaryOutcome::NullPointer => -1,
        BoundaryOutcome::DecodeFailed => -2,
        BoundaryOutcome::AnalysisFailed => -3,
        BoundaryOutcome::EncodeFailed => -4,
        BoundaryOutcome::AllocationFailed => -5,
    }
}

/// Encodes a terminal outcome as the status code the host receives.
pub fn status_code(o: &BoundaryOutcome) -> (code: i32)
    ensures
        code == spec_status_code(*o),
        code == 0 <==> *o == BoundaryOutcome::Delivered,
{
    match o {
        BoundaryOutcome::Delivered => 0,
        BoundaryOutcome::NullPointer => -1,
        BoundaryOutcome::DecodeFailed => -2,
        BoundaryOutcome::AnalysisFailed => -3,
        BoundaryOutcome::EncodeFailed => -4,
        BoundaryOutcome::AllocationFailed => -5,
    }
}

/// Distinct outcomes never share a status code, so a host can branch on
/// the code alone.
pub proof fn lemma_status_codes_distinct(a: BoundaryOutcome, b: BoundaryOutcome)
    ensures
        spec_status_code(a) == spec_status_code(b) ==> a == b,
{
}

} // verus!
