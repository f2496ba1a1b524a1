use vstd::prelude::*;

verus! {

/// Why a call of `Server::serve` did not succeed.
///
/// `E` is the type of what a failed bind attempt reports.
#[derive(Debug, PartialEq, Eq)]
pub enum ServeError<E> {
    /// No socket could be bound to the requested address. The field is the
    /// report of the bind attempt, passed on as it came.
    BindFailure(E),
}

} // verus!
