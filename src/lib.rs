//! Client construction and error taxonomy for an imageboard REST API.

pub mod client;
pub mod decimal;
pub mod error;
pub mod transport;
