//! The core of a mock identity provider that discloses attributes.
//!
//! A relying party asks the provider to vouch for some named attributes of
//! the current user. The provider never turns a user away: it refuses only
//! requests for attributes outside its catalog. For any other request it
//! hands out an assertion with the attributes' values, either along with the
//! browser's redirect or by a post to the relying party.
//!
//! This library holds what the provider decides and computes, with proofs:
//! [`config`] has the catalog and its two checks, [`codec`] carries protocol
//! parameters in URL segments, [`proto`] holds the messages, [`dispatch`]
//! the operations from the start of an authentication to the redirect that
//! ends it, and [`error`] what a request can fail with and what is told of
//! it. Serving HTTP, rendering the confirmation page, signing and encrypting
//! the assertion and posting it are left to the program around the library.

pub mod attributes;
pub mod codec;
pub mod config;
pub mod dispatch;
pub mod error;
pub mod proto;
