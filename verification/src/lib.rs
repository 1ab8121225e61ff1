//! Typed bindings to the BitBucket REST API, version 2.
//!
//! The crate holds everything about the API that can be decided without
//! touching the network: how each resource is addressed, how a response
//! body is told apart as a single item or a page of items, and how the
//! pages of a listing are followed and gathered into one list.
//!
//! A caller obtains a builder from [`api::Api`], narrows it, and starts a
//! retrieval with [`api::Api::get`]. Each [`fetch::Step`] either names the
//! request to perform next or ends the retrieval.

pub mod api;
pub mod encoding;
pub mod error;
pub mod fetch;
pub mod json;
pub mod pullrequests;
pub mod repositories;
pub mod response;
pub mod teams;
pub mod text;
pub mod users;
