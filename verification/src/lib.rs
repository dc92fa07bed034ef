//! Verified core of a small cluster explorer.
//!
//! - [`session`]: the session of the process, which caches API discovery,
//!   and [`replay`]: what that cache guarantees over any run of requests;
//! - [`groups`]: the plain views of what discovery found;
//! - [`raw`] and [`pods`]: what is handed to the client for a raw GET and
//!   for the listing of pods;
//! - [`kube_ext`] and [`http_ext`]: the outside items that all of this
//!   rests on, with the contracts that are taken on trust.
//!
//! The library does no network work. Where an operation needs some, the
//! caller does it and hands the outcome back.

pub mod groups;
pub mod http_ext;
pub mod kube_ext;
pub mod pods;
pub mod raw;
pub mod replay;
pub mod session;
