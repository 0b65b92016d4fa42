//! A line-oriented client for a remote product catalogue.
//!
//! The crate holds everything the client decides: how a console line is read
//! as a selector or an identifier, which request an operation makes, how the
//! answers are laid out as text, and the session that ties them together.
//! Reading lines, talking to the network and floating-point conversions are
//! left to the caller, which feeds the session with events.

pub mod collect;
pub mod error;
pub mod number;
pub mod present;
pub mod product;
pub mod request;
pub mod rounds;
pub mod session;
pub mod text;
