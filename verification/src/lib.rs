//! Name resolution as a stage of a service pipeline.
//!
//! A backend that can turn some target (a host name, a socket address, ...)
//! into one network address implements [`Resolve`]. [`Resolver`] wraps such
//! a backend and speaks for it in the shape a pipeline expects: a readiness
//! query, which it always answers with "ready", and a call, which it hands on
//! to the backend untouched.
//!
//! The crate is generic in the pending lookup a backend hands out, and names
//! no executor and no DNS client. For a backend whose client answers with
//! several addresses, [`single_address`] picks the one that a lookup ends
//! with.

pub mod address;
pub mod resolve;
pub mod service;

pub use crate::address::single_address;
pub use crate::resolve::Resolve;
pub use crate::service::Resolver;
