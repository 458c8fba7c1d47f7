//! Dispatch core of a language-server-style process.
//!
//! Incoming requests and notifications are routed to typed handlers by
//! method name, on one of four execution strategies (mutable main thread,
//! read-only main thread, or a worker pool at two priorities), and handler
//! outcomes are mapped uniformly onto wire-level responses, retry tasks,
//! or silence (for cancellation).

pub mod cli_info;
pub mod mapper;
pub mod notification_dispatch;
pub mod protocol;
pub mod request_dispatch;
pub mod search_index;
pub mod state;
