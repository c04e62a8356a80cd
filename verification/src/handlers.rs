//! The decisions of the proxy on each request: what is sent upstream for it, and
//! what is answered once the upstream service has replied or failed.
pub mod chat_completions;
pub mod info;
