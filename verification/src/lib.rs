//! Building blocks for streaming chat completions with tool calls.
//!
//! - [`llm::model`] is the conversation: messages, tool calls, and the
//!   chunks in which a provider streams a completion, with the rule by which
//!   the fragments of a tool call are merged.
//! - [`llm::tool`] is the catalogue of tools that a model may call.
//! - [`llm`] is the chat run: it takes the chunks of a stream, decides at
//!   the end of the stream whether a tool has to run, records the round in
//!   the conversation and goes on with the next stream.
//! - [`llm::provider`] and [`llm::wire`] are what a client of a chat API
//!   needs: the request as JSON, and the rules for reading the event stream
//!   that answers it.
//! - [`engine`] is a small engine for flows of nodes, with the context that
//!   the nodes share and the channel on which a run publishes.
//!
//! The library never waits: a caller that awaits the network drives a chat
//! run step by step through [`llm::ChatRun`]; [`llm::chat`] does the same
//! over a provider that can be pulled.

pub mod engine;
pub mod json;
pub mod llm;
pub mod table;
