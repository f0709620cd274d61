//! Faults reported by the relational storage engine.

use vstd::prelude::*;

verus! {

/// `diesel::result::Error`, carried through as a value that nothing here
/// looks into.
#[verifier::external_type_specification]
#[verifier::external_body]
pub struct ExDieselError(diesel::result::Error);

/// Whether a storage error says that the row asked for is absent.
pub uninterp spec fn reports_missing_row(e: diesel::result::Error) -> bool;

/// Tells `diesel::result::Error::NotFound` apart from every other variant
/// of `diesel::result::Error`. Nothing is proved of this function: its
/// answer is taken as the meaning of `reports_missing_row`.
#[verifier::external_body]
fn is_not_found(e: &diesel::result::Error) -> (b: bool)
    ensures
        b == reports_missing_row(*e),
{
    match e {
        diesel::result::Error::NotFound => true,
        _ => false,
    }
}

/// What is left of a storage error once the engine's details are dropped:
/// the one distinction that callers act on.
#[derive(Clone, Copy, Debug, PartialEq, Eq, Structural)]
pub enum StorageFault {
    /// The row asked for is absent.
    NotFound,
    /// Anything else went wrong.
    Other,
}

/// The fault that a storage error comes down to.
pub open spec fn fault_of(e: diesel::result::Error) -> StorageFault {
    if reports_missing_row(e) {
        StorageFault::NotFound
    } else {
        StorageFault::Other
    }
}

/// Reduces a storage error to the distinction that callers act on.
pub fn classify(e: &diesel::result::Error) -> (fault: StorageFault)
    ensures
        fault == fault_of(*e),
{
    if is_not_found(e) {
        StorageFault::NotFound
    } else {
        StorageFault::Other
    }
}

} // verus!
