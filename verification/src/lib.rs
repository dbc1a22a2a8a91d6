//! A URL shortener's verified core.
pub mod cache_key;
pub mod error;
pub mod flow;
pub mod model;
pub mod pagination;
pub mod reply;
pub mod request;
pub mod search;
pub mod short_code;
pub mod text;
