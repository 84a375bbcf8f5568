use vstd::prelude::*;

verus! {

/// Every way a checkout or return request can be denied.
///
/// Each variant is a distinct caller-facing outcome; the orchestrator never
/// collapses two of them into one generic failure.
#[derive(Clone, Copy, Debug, PartialEq, Eq, Structural)]
pub enum CheckoutError {
    /// The referenced book does not exist.
    EntityNotFound,
    /// A checkout was requested on a book that is already on loan.
    AlreadyCheckedOut,
    /// A return was requested on a book with no active loan.
    NotCheckedOut,
    /// The return's checkout id or borrower id does not match the recorded loan.
    ReturnMismatch,
    /// A mutation that was expected to touch exactly one row touched none:
    /// a consistency fault, never silently treated as success.
    WriteAnomaly,
    /// A transaction lost a serialization race after exhausting its retries.
    Conflict,
    /// A transaction exceeded its deadline.
    Timeout,
}

} // verus!
