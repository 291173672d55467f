//! Verified core of a QQ bot webhook SDK: request paths for the open API,
//! reply message models, application configuration, command routing and the
//! small stores and policies that a bot built on the SDK relies on.

pub mod bot;
pub mod config;
pub mod context;
pub mod dispatch;
pub mod encoding;
pub mod error;
pub mod openapi;
pub mod replying;
pub mod templates;
pub mod text;
pub mod webhook;
pub mod words;

pub use error::{Error, Result};
