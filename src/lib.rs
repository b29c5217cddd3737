//! A client for a public-holidays web service: the records it returns, the
//! mapping between those records and JSON, and the request it is sent.

pub mod calendarific;
pub mod decimal;
pub mod error;
pub mod json;
pub mod models;
