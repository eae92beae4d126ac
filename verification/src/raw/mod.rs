//! The raw protocol model: the request and response envelopes as they
//! appear on the wire, with their JSON encoders and decoders.

pub mod chat_completion;
pub mod params;
pub mod request;
pub mod response;
pub mod streaming;

pub use request::FunctionCall;
pub use request::Message;
pub use request::Role;
pub use request::ToolCall;
pub use request::ToolType;

pub use params::Function;
pub use params::FunctionName;
pub use params::Model;
pub use params::ResponseFormat;
pub use params::ResponseFormatType;
pub use params::Stop;
pub use params::StreamOptions;
pub use params::Thinking;
pub use params::ThinkingType;
pub use params::Tool;
pub use params::ToolChoice;
pub use params::ToolChoiceObject;
pub use params::ToolChoiceType;

pub use chat_completion::ChatCompletionRequest;

pub use response::ChatCompletionResponse;
pub use response::Choice;
pub use response::CompletionTokensDetails;
pub use response::FinishReason;
pub use response::ObjectType;
pub use response::Usage;

pub use streaming::ChatCompletionChunk;
pub use streaming::ChunkChoice;
pub use streaming::ChunkObjectType;
pub use streaming::Delta;
pub use streaming::DeltaFunctionCall;
pub use streaming::DeltaToolCall;
