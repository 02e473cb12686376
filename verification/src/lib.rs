//! Client-side core of a small content-API client: URL construction,
//! bearer-token authentication, proxy configuration, and typed JSON
//! decoding for two API dialects (a subscription-content platform and an
//! imageboard-style listing API).
//!
//! The HTTP transport itself is left to the caller; every function here is
//! a pure computation from plain values to plain values, with a contract.

pub mod boosty;
pub mod decimal;
pub mod error;
pub mod gelbooru;
pub mod json;
