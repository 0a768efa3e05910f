//! Request resolution and response rendering for a command-line HTTP client.

pub mod authentication;
pub mod client;
pub mod error;
pub mod headers;
pub mod konfig;
pub mod listing;
pub mod pairs;
pub mod render;
pub mod request;
pub mod source;
pub mod text;

pub use crate::authentication::AuthType;
pub use crate::error::Error;
pub use crate::konfig::environment;
pub use crate::render::{compile_template, Templates};
pub use crate::request::{HttpVersion, RequestArgs, RequestArgsBuilder};
pub use crate::source::{Credential, TextSource};
