//! Typed decoding of status updates ("tweets") from parsed JSON documents.
//!
//! A document that does not have the expected shape is refused with
//! [`error::Error::InvalidResponse`]; nothing is repaired and no partial value
//! is ever handed out.

pub mod common;
pub mod entities;
pub mod error;
pub mod guarantees;
pub mod json;
pub mod tweet;
pub mod user;
