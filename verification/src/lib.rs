//! A minimal unary greeting service, verified with Verus.
//!
//! The library holds everything the service decides or computes: the request
//! and reply message types, the handler that builds a greeting from a name and
//! pairs it with the serving process's identifier, and the parser for the port
//! argument given at startup. Binding the socket and moving bytes over the
//! wire are left to an unverified front end.

pub mod greeter;
pub mod port;
