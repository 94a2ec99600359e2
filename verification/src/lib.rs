//! Request rules, response envelopes and paging arithmetic of a small
//! asset catalogue service.
//!
//! The crate holds the decisions that the service takes around its storage
//! and its HTTP layer: which payloads are accepted, which statement a request
//! leads to, and which reply a storage outcome deserves.

pub mod handlers;
pub mod model;
pub mod pagination;
pub mod response;
pub mod service;
pub mod validation;
