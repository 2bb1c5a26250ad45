//! A typed request/response engine for a REST API: query construction,
//! response classification, pagination and conditional fetches.

pub mod api;
pub mod dispatch;
pub mod error;
pub mod etag;
pub mod page;
pub mod query;
pub mod request;
