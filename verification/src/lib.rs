//! Request construction and response handling for a snippet service client.
//!
//! The library decides what is sent and what an answer means; sending and
//! receiving are left to its caller.

pub mod api;
pub mod client;
pub mod config;
pub mod error;
pub mod json;
pub mod request;
pub mod snippet;

pub use api::{is_success, Api};
pub use client::{ClientConfig, Header};
pub use config::{Mode, Opts};
pub use error::ApiError;
pub use json::Json;
pub use request::{Method, Request};
pub use snippet::{File, Snippet};
