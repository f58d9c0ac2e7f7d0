//! The decisions of an email service on Cloudflare Workers.
//!
//! The library does no I/O. For every operation it says what to ask of a database,
//! a bucket or a Worker, and what the answer comes to; the host asks.
pub mod cloudflare;
pub mod d1;
pub mod do_store;
pub mod dto;
pub mod email;
pub mod error;
pub mod id;
pub mod laws;
pub mod mime;
pub mod query;
pub mod r2;
pub mod rows;
pub mod save;
pub mod submit;
pub mod tables;
pub mod text;
pub mod variables;
