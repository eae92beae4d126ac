//! A typed client library for a chat-completion HTTP API.
//!
//! The crate models the request and response protocol (messages, generation
//! parameters, tool calls), serializes it to and from its JSON wire form with
//! a verified codec, decodes server-sent-event streams of incremental deltas,
//! and layers a conversation-history abstraction on top.  The HTTP transport
//! itself is left to the embedding application.

pub mod error;
pub mod json;
pub mod normal_chatter;
pub mod raw;
pub mod request;
pub mod response;
pub mod simple_chatter;
pub mod stream;

pub use error::ApiError;
pub use json::value::JsonValue;
pub use json::value::Number;
pub use normal_chatter::History;
pub use normal_chatter::NormalChatter;
pub use raw::chat_completion::ChatCompletionRequest;
pub use raw::params::Model;
pub use raw::params::Stop;
pub use raw::request::FunctionCall;
pub use raw::request::Message;
pub use raw::request::Role;
pub use raw::request::ToolCall;
pub use raw::request::ToolType;
pub use raw::response::ChatCompletionResponse;
pub use raw::response::FinishReason;
pub use raw::response::Usage;
pub use raw::streaming::ChatCompletionChunk;
pub use request::Request;
pub use response::Response;
pub use simple_chatter::SimpleChatter;
pub use stream::SseDecoder;
pub use stream::StreamDecoder;
