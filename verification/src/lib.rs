//! A content-posting backend core: posts span a blob store (raw image bytes
//! addressed by a derived path) and a metadata store (structured records),
//! kept loosely consistent by the ordering of the two side effects inside
//! each operation. A per-request authorization gateway sits in front of the
//! protected routes and delegates the accept/reject decision to an external
//! verifier.
//!
//! The modules:
//! - [`models`]: the data types, their views, and input validation.
//! - [`blob`]: the blob store model.
//! - [`config`]: the settings the process starts with.
//! - [`store`]: the metadata store model and its query operations.
//! - [`service`]: the post lifecycle, with its partial-failure policy.
//! - [`gateway`]: the per-request authorization state machine.
//! - [`ident`]: post identifiers parsed from request paths.
//! - [`laws`]: the cross-operation laws, proved over the views.

pub mod blob;
pub mod config;
pub mod gateway;
pub mod ident;
pub mod laws;
pub mod models;
pub mod service;
pub mod store;
