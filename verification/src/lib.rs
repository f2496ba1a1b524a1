//! The verified core of a datagram server that, so far, only binds.
//!
//! The crate performs no input or output. A caller attempts to bind a socket,
//! hands the outcome of that attempt to [`Server::serve`], and gets back the
//! verdict. The socket type and the type of the bind error are parameters, so
//! the same verified code runs over an operating-system socket in a program
//! and over a stand-in in a test.

pub mod error;
pub mod server;

pub use error::ServeError;
pub use server::Server;
