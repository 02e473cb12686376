//! The subscription-content platform dialect: its typed response model,
//! bearer-token authorization, and request/decoding pipeline.

pub mod auth;
pub mod request;
pub mod types;
