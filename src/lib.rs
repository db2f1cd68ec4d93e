//! Credential and session authentication for a content-catalog service:
//! password sealing at rest, signed session tokens, token discovery in a
//! request, the decisions of registration and login, and the access and
//! query decisions of the catalog handlers.

pub mod encoding;
pub mod secret;
pub mod password;
pub mod text;
pub mod token;
pub mod claims;
pub mod gateway;
pub mod credentials;
pub mod catalog;
