//! The decisions of a reverse proxy that serves the Azure AI Model Inference
//! contract in front of an OpenAI-compatible inference service.
//!
//! The crate decides which requests are accepted, how a chat-completion payload
//! is decoded, filtered and encoded again, how the upstream model listing is
//! reshaped, which upstream URI is called and which error envelope answers a
//! failure. Every function states what it returns in its contract, and Verus
//! proves that it does. The HTTP transport lives outside the crate: it hands
//! plain values in and performs what comes back.
use vstd::prelude::*;

pub mod errors;
pub mod handlers;
pub mod json;
pub mod laws;
pub mod proxy;
pub mod schemas;
pub mod text;
pub mod utils;

verus! {

/// The kind of inference service that runs behind the proxy.
#[derive(Clone, Copy, Debug, PartialEq, Eq, Structural)]
pub enum UpstreamType {
    ChatCompletions,
    Embeddings,
}

impl Default for UpstreamType {
    fn default() -> (r: UpstreamType)
        ensures
            r == UpstreamType::ChatCompletions,
    {
        UpstreamType::ChatCompletions
    }
}

} // verus!
