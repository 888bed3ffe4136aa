//! Verified core of a timeline client for a federated social-networking
//! server: credential storage with a checked on-disk encoding, the
//! registration and authorization flow, a cursor over paginated timeline
//! fetches, and the session bootstrap state machine that ties them together.
//!
//! All network and file I/O lives outside this crate; the functions here
//! compute requests, validate responses, and maintain cursor and session
//! state over plain values.
use vstd::prelude::*;

pub mod auth;
pub mod credential;
pub mod session;
pub mod timeline;

verus! {

/// Direction of a timeline cursor traversal.
#[derive(Clone, Copy, PartialEq, Eq, Structural, Debug)]
pub enum Direction {
    /// Toward the page the current page's `next` locator points at.
    Next,
    /// Toward the page the current page's `prev` locator points at.
    Prev,
}

} // verus!
