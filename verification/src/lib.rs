//! Redirect handling, streaming payload contracts, and trust-anchor loading
//! for an HTTP client core.
//!
//! The library decides, after a response arrives, whether a logical request
//! continues across an HTTP redirect ([`redirect::Policy`]), strips
//! credential-bearing headers on cross-origin hops, and carries request and
//! response payloads through a pull-based [`body::Body`] interface.

pub mod body;
pub mod headers;
pub mod redirect;
pub mod trust;
pub mod url;
