//! Bearer-token authentication and role authorization for a forum server.
//!
//! Tokens are signed with HMAC-SHA256 over a compact hex payload. A request is
//! served only after its token's signature, expiry, revocation status and
//! roles have been checked, in that order.
use vstd::prelude::*;

pub mod api;
pub mod claims;
pub mod codec;
pub mod guards;
pub mod hex;
pub mod laws;
pub mod middleware;
pub mod primitives;
pub mod revocation;
pub mod roles;
pub mod session;
