use crate::error::ServeError;
use vstd::prelude::*;

verus! {

/// A server that owns one bound socket of type `S`.
///
/// The socket is a private field with no accessor: from construction on it
/// belongs to the server alone, and it is released when the server is.
pub struct Server<S> {
    socket: S,
}

impl<S> View for Server<S> {
    type V = S;

    /// The socket that the server owns.
    closed spec fn view(&self) -> S {
        self.socket
    }
}

impl<S> Server<S> {
    /// Makes a server that owns `socket`.
    pub fn new(socket: S) -> (server: Self)
        ensures
            server@ == socket,
    {
        Server { socket }
    }

    /// Concludes one attempt to bind a socket for serving.
    ///
    /// `bound` is the outcome of the attempt: the new socket, or what the
    /// attempt reported when it failed. The call succeeds exactly when the
    /// attempt did, and a failure is passed on as `BindFailure` with the
    /// report unchanged.
    ///
    /// Nothing is served yet. The new socket is taken by value and does not
    /// appear in the result, and the server is only borrowed: the new socket
    /// is released before the call returns, and the server owns afterwards
    /// the socket it owned before.
    pub fn serve<E>(&self, bound: Result<S, E>) -> (result: Result<(), ServeError<E>>)
        ensures
            bound is Ok ==> result == Ok::<(), ServeError<E>>(()),
            bound matches Err(report) ==> result == Err::<(), ServeError<E>>(
                ServeError::BindFailure(report),
            ),
    {
        match bound {
            Ok(_socket) => Ok(()),
            Err(report) => Err(ServeError::BindFailure(report)),
        }
    }
}

} // verus!
