//! Credential-management core behind an authentication API.
//!
//! The library covers the credential lifecycle: validation of
//! registration input, one-way password hashing and verification,
//! email-keyed persistence with a unique-email constraint, and the closed
//! error taxonomy that tells bad input, duplicate accounts, wrong
//! passwords and storage failures apart. Callers only ever receive a
//! [`models::SanitizedUser`], a projection that structurally lacks the
//! password hash.
//!
//! - [`validate`] — the rules registration input must meet, including an
//!   explicit email grammar;
//! - [`crypto`] — hashing and verification of secret material;
//! - [`store`] — the email-keyed repository and its invariants;
//! - [`auth`] — the service orchestrating the three, and the error
//!   taxonomy;
//! - [`models`] — the record, request and projection types;
//! - [`site`] — constant page and header content served around the API.

pub mod auth;
pub mod crypto;
pub mod models;
pub mod site;
pub mod store;
pub mod strutil;
pub mod validate;
