//! Walks a paginated catalog of satellite observations and plans, step by
//! step, how each observation's demodulated payloads are stored on disk.
//!
//! The library decides; its caller performs. Every request, file name, line
//! of text and the order of all of them is computed here and proved against
//! a mathematical model. The caller sends the requests, writes the files and
//! hands back what the catalog answered.

pub mod config;
pub mod link;
pub mod plan;
pub mod record;
pub mod run;
pub mod store;
pub mod target;
pub mod text;
pub mod walk;
