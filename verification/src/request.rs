//! The request builder: starts from the neutral envelope and grows it by
//! chained configuration calls, each returning the transformed value, and
//! finally serializes it to the wire body.

use vstd::prelude::*;

use crate::json::ser::ser;
use crate::json::value::Number;
use crate::raw::chat_completion::default_request_v;
use crate::raw::chat_completion::request_enc;
use crate::raw::chat_completion::ChatCompletionRequest;
use crate::raw::chat_completion::RequestV;
use crate::raw::params::Model;
use crate::raw::params::ResponseFormat;
use crate::raw::params::ResponseFormatType;
use crate::raw::params::Stop;
use crate::raw::params::Tool;
use crate::raw::params::ToolChoice;
use crate::raw::params::ToolChoiceObject;
use crate::raw::params::ToolChoiceType;
use crate::raw::request::Message;

verus! {

/// A request to the chat-completion endpoint, built around the raw
/// envelope.
#[derive(Debug, PartialEq, Eq)]
pub struct Request {
    /// The raw envelope; the builder methods keep it consistent, direct
    /// access bypasses them.
    pub raw: ChatCompletionRequest,
}

impl DeepView for Request {
    type V = RequestV;

    open spec fn deep_view(&self) -> RequestV {
        self.raw.deep_view()
    }
}

impl Request {
    /// The neutral request: no messages, the default model, nothing else.
    pub fn builder() -> (r: Self)
        ensures
            r.deep_view() == default_request_v(),
    {
        Request { raw: ChatCompletionRequest::default() }
    }

    /// A basic chat request: the given conversation on the default chat
    /// model, with every other parameter unset.
    pub fn basic_query(messages: Vec<Message>) -> (r: Self)
        ensures
            r.deep_view() == (RequestV {
                messages: messages.deep_view(),
                model: Model::DeepseekChat,
                ..default_request_v()
            }),
    {
        Request::builder().messages(messages).model(Model::DeepseekChat)
    }

    /// A basic chat request on the reasoning model.
    pub fn basic_query_reasoner(messages: Vec<Message>) -> (r: Self)
        ensures
            r.deep_view() == (RequestV {
                messages: messages.deep_view(),
                model: Model::DeepseekReasoner,
                ..default_request_v()
            }),
    {
        Request::builder().messages(messages).model(Model::DeepseekReasoner)
    }

    /// Appends one message to the conversation.
    pub fn add_message(self, message: Message) -> (r: Self)
        ensures
            r.deep_view() == (RequestV {
                messages: self.deep_view().messages.push(message.deep_view()),
                ..self.deep_view()
            }),
    {
        let mut raw = self.raw;
        raw.messages.push(message);
        proof {
            assert(raw.messages.deep_view() =~= self.raw.messages.deep_view().push(
                message.deep_view(),
            ));
        }
        Request { raw }
    }

    /// Replaces the conversation.
    pub fn messages(self, messages: Vec<Message>) -> (r: Self)
        ensures
            r.deep_view() == (RequestV { messages: messages.deep_view(), ..self.deep_view() }),
    {
        Request { raw: ChatCompletionRequest { messages, ..self.raw } }
    }

    /// Selects the model variant.
    pub fn model(self, model: Model) -> (r: Self)
        ensures
            r.deep_view() == (RequestV { model: model, ..self.deep_view() }),
    {
        Request { raw: ChatCompletionRequest { model, ..self.raw } }
    }

    /// Sets the frequency penalty, as a number token.
    pub fn frequency_penalty(self, penalty: Number) -> (r: Self)
        ensures
            r.deep_view() == (RequestV {
                frequency_penalty: Some(penalty.text@),
                ..self.deep_view()
            }),
    {
        Request { raw: ChatCompletionRequest { frequency_penalty: Some(penalty), ..self.raw } }
    }

    /// Sets the presence penalty, as a number token.
    pub fn presence_penalty(self, penalty: Number) -> (r: Self)
        ensures
            r.deep_view() == (RequestV {
                presence_penalty: Some(penalty.text@),
                ..self.deep_view()
            }),
    {
        Request { raw: ChatCompletionRequest { presence_penalty: Some(penalty), ..self.raw } }
    }

    /// Caps the number of generated tokens.
    pub fn max_tokens(self, max_tokens: u32) -> (r: Self)
        ensures
            r.deep_view() == (RequestV { max_tokens: Some(max_tokens), ..self.deep_view() }),
    {
        Request { raw: ChatCompletionRequest { max_tokens: Some(max_tokens), ..self.raw } }
    }

    /// Sets the sampling temperature, as a number token.
    pub fn temperature(self, temperature: Number) -> (r: Self)
        ensures
            r.deep_view() == (RequestV {
                temperature: Some(temperature.text@),
                ..self.deep_view()
            }),
    {
        Request { raw: ChatCompletionRequest { temperature: Some(temperature), ..self.raw } }
    }

    /// Sets several stop sequences.
    pub fn stop_vec(self, stop: Vec<String>) -> (r: Self)
        ensures
            r.deep_view() == (RequestV {
                stop: Some(Stop::List(stop).deep_view()),
                ..self.deep_view()
            }),
    {
        Request { raw: ChatCompletionRequest { stop: Some(Stop::List(stop)), ..self.raw } }
    }

    /// Sets one stop sequence.
    pub fn stop_str(self, stop: String) -> (r: Self)
        ensures
            r.deep_view() == (RequestV {
                stop: Some(Stop::Text(stop).deep_view()),
                ..self.deep_view()
            }),
    {
        Request { raw: ChatCompletionRequest { stop: Some(Stop::Text(stop)), ..self.raw } }
    }

    /// Sets the nucleus-sampling threshold, as a number token.
    pub fn top_p(self, top_p: Number) -> (r: Self)
        ensures
            r.deep_view() == (RequestV { top_p: Some(top_p.text@), ..self.deep_view() }),
    {
        Request { raw: ChatCompletionRequest { top_p: Some(top_p), ..self.raw } }
    }

    /// Appends one tool, creating the tool list on first use.
    pub fn add_tool(self, tool: Tool) -> (r: Self)
        ensures
            r.deep_view() == (RequestV {
                tools: Some(
                    match self.deep_view().tools {
                        Some(ts) => ts.push(tool.deep_view()),
                        None => seq![tool.deep_view()],
                    },
                ),
                ..self.deep_view()
            }),
    {
        let mut raw = self.raw;
        match &mut raw.tools {
            Some(tools) => {
                tools.push(tool);
                proof {
                    assert(raw.tools.deep_view() matches Some(ts) && ts
                        =~= self.raw.tools.deep_view()->Some_0.push(tool.deep_view()));
                }
            },
            None => {
                let mut tools: Vec<Tool> = Vec::new();
                tools.push(tool);
                raw.tools = Some(tools);
                proof {
                    assert(raw.tools.deep_view() matches Some(ts) && ts =~= seq![
                        tool.deep_view(),
                    ]);
                }
            },
        }
        Request { raw }
    }

    /// Sets the tool-choice policy by its token form.
    pub fn tool_choice_type(self, tool_choice: ToolChoiceType) -> (r: Self)
        ensures
            r.deep_view() == (RequestV {
                tool_choice: Some(ToolChoice::Mode(tool_choice).deep_view()),
                ..self.deep_view()
            }),
    {
        Request {
            raw: ChatCompletionRequest {
                tool_choice: Some(ToolChoice::Mode(tool_choice)),
                ..self.raw
            },
        }
    }

    /// Forces one named tool.
    pub fn tool_choice_object(self, tool_choice: ToolChoiceObject) -> (r: Self)
        ensures
            r.deep_view() == (RequestV {
                tool_choice: Some(ToolChoice::Named(tool_choice).deep_view()),
                ..self.deep_view()
            }),
    {
        Request {
            raw: ChatCompletionRequest {
                tool_choice: Some(ToolChoice::Named(tool_choice)),
                ..self.raw
            },
        }
    }

    /// Requests per-token log probabilities with the given top-N depth;
    /// the flag and the depth are always set together.
    pub fn logprobs(self, top_logprobs: u32) -> (r: Self)
        ensures
            r.deep_view() == (RequestV {
                logprobs: Some(true),
                top_logprobs: Some(top_logprobs),
                ..self.deep_view()
            }),
    {
        Request {
            raw: ChatCompletionRequest {
                logprobs: Some(true),
                top_logprobs: Some(top_logprobs),
                ..self.raw
            },
        }
    }

    /// Enables the JSON response format.
    pub fn json(self) -> (r: Self)
        ensures
            r.deep_view() == (RequestV {
                response_format: Some(
                    ResponseFormat { kind: ResponseFormatType::JsonObject },
                ),
                ..self.deep_view()
            }),
    {
        Request {
            raw: ChatCompletionRequest {
                response_format: Some(ResponseFormat { kind: ResponseFormatType::JsonObject }),
                ..self.raw
            },
        }
    }

    /// Forces the streaming flag on; the streaming path always wants it.
    pub fn force_streaming(self) -> (r: Self)
        ensures
            r.deep_view() == (RequestV { stream: Some(true), ..self.deep_view() }),
    {
        Request { raw: ChatCompletionRequest { stream: Some(true), ..self.raw } }
    }

    /// A shared view of the raw envelope.
    pub fn raw(&self) -> (r: &ChatCompletionRequest)
        ensures
            *r == self.raw,
    {
        &self.raw
    }

    /// Wraps a raw envelope directly, bypassing the builder surface; the
    /// caller answers for its consistency.
    pub fn from_raw_unchecked(raw: ChatCompletionRequest) -> (r: Self)
        ensures
            r.raw == raw,
    {
        Request { raw }
    }

    /// Mutable access to the raw envelope, bypassing the builder surface;
    /// the caller answers for its consistency.
    pub fn get_raw_mut(&mut self) -> (r: &mut ChatCompletionRequest)
        ensures
            *r == old(self).raw,
            final(self).raw == *final(r),
    {
        &mut self.raw
    }

    /// The JSON body this request puts on the wire.
    pub fn body_text(&self) -> (r: String)
        ensures
            r@ == ser(request_enc(self.deep_view())),
    {
        self.raw.to_json().to_text()
    }
}

} // verus!
