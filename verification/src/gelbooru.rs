//! The imageboard-style dialect: its typed response model, pagination
//! attributes, and request/decoding pipeline.

pub mod request;
pub mod types;
