//! Stock analysis studies: invite-list safety screening, sentiment and
//! timing signals, market regime and fundamentals helpers, and the request
//! and record plumbing around them.
pub mod batch;
pub mod database;
pub mod endpoints;
pub mod error;
pub mod fetcher;
pub mod fundamentals;
pub mod invite_list;
pub mod regime;
pub mod sentiment;
pub mod text;
pub mod timing;
