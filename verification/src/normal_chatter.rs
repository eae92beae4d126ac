//! The conversation-history capability and the chat client that works
//! with a caller-supplied history.
//!
//! A chat turn has two phases around the HTTP exchange, which the
//! embedding application performs: the first phase appends the user
//! message and builds the request from the full history snapshot; the
//! second phase takes the decoded response, appends the assistant message
//! and hands back its content.

use vstd::prelude::*;

use crate::error::ApiError;
use crate::json::read::parse_json;
use crate::json::value::JsonValue;
use crate::raw::chat_completion::default_request_v;
use crate::raw::chat_completion::RequestV;
use crate::raw::params::Model;
use crate::raw::params::ResponseFormat;
use crate::raw::params::ResponseFormatType;
use crate::raw::request::Message;
use crate::raw::request::MessageV;
use crate::raw::request::Role;
use crate::raw::response::ChatCompletionResponse;
use crate::request::Request;

verus! {

/// The view of a plain text message with the given role.
pub open spec fn text_message_v(role: Role, text: Seq<char>) -> MessageV {
    MessageV {
        role: role,
        content: Some(text),
        name: None,
        tool_call_id: None,
        tool_calls: None,
        reasoning_content: None,
        prefix: None,
    }
}

/// A capability for accumulating and reading back the conversation: an
/// order-preserving append, and an independent snapshot of the sequence.
pub trait History {
    /// The message sequence held so far.
    spec fn msgs(&self) -> Seq<MessageV>;

    /// Appends one message at the end, keeping everything already held.
    fn add_message(&mut self, message: Message)
        ensures
            final(self).msgs() == old(self).msgs().push(message.deep_view()),
    ;

    /// An independent snapshot of the full sequence, in order.
    fn get_history(&self) -> (r: Vec<Message>)
        ensures
            r.deep_view() == self.msgs(),
    ;
}

impl History for Vec<Message> {
    open spec fn msgs(&self) -> Seq<MessageV> {
        self.deep_view()
    }

    fn add_message(&mut self, message: Message) {
        let ghost pre = self.deep_view();
        let ghost mv = message.deep_view();
        self.push(message);
        proof {
            assert(self.deep_view() =~= pre.push(mv));
        }
    }

    #[verifier::loop_isolation(false)]
    fn get_history(&self) -> (r: Vec<Message>) {
        let mut out: Vec<Message> = Vec::new();
        let n = self.len();
        let mut i: usize = 0;
        while i < n
            invariant
                0 <= i <= n,
                n == self@.len(),
                out@.len() == i,
                forall|q: int|
                    0 <= q < i ==> (#[trigger] out@[q]).deep_view() == self@[q].deep_view(),
            decreases n - i,
        {
            out.push(self[i].clone());
            i += 1;
        }
        proof {
            assert(out.deep_view() =~= self.deep_view());
        }
        out
    }
}

/// The request a chat turn sends: the full history as a basic query.
pub open spec fn chat_request_v(history: Seq<MessageV>) -> RequestV {
    RequestV { messages: history, model: Model::DeepseekChat, ..default_request_v() }
}

/// Whether a decoded response carries an answer a chat turn can use.
pub open spec fn response_has_answer(resp: ChatCompletionResponse) -> bool {
    resp.choices@.len() > 0 && resp.choices@[0].message.content is Some
}

/// The answer text of a response.
pub open spec fn response_answer(resp: ChatCompletionResponse) -> Seq<char> {
    resp.choices@[0].message.content->Some_0@
}

/// The chat client: holds the bearer credential; each call receives the
/// history it works on.
#[derive(Debug, PartialEq, Eq)]
pub struct NormalChatter {
    /// The bearer credential sent with each request.
    pub token: String,
}

impl NormalChatter {
    /// A client using the given credential.
    pub fn new(token: String) -> (r: Self)
        ensures
            r.token == token,
    {
        NormalChatter { token }
    }

    /// The first phase of a chat turn: appends the user message to the
    /// history and builds the request from the full snapshot.
    pub fn chat_request<H: History>(&self, user_message: &str, history: &mut H) -> (r:
        Request)
        ensures
            final(history).msgs() == old(history).msgs().push(
                text_message_v(Role::User, user_message@),
            ),
            r.deep_view() == chat_request_v(final(history).msgs()),
    {
        let m = Message::new(Role::User, user_message);
        history.add_message(m);
        Request::basic_query(history.get_history())
    }

    /// The first phase of a JSON-mode chat turn: as `chat_request`, with
    /// the JSON response format enabled.
    pub fn chat_json_request<H: History>(&self, user_message: &str, history: &mut H) -> (r:
        Request)
        ensures
            final(history).msgs() == old(history).msgs().push(
                text_message_v(Role::User, user_message@),
            ),
            r.deep_view() == (RequestV {
                response_format: Some(
                    ResponseFormat { kind: ResponseFormatType::JsonObject },
                ),
                ..chat_request_v(final(history).msgs())
            }),
    {
        let m = Message::new(Role::User, user_message);
        history.add_message(m);
        Request::basic_query(history.get_history()).json()
    }

    /// The second phase of a chat turn: appends the assistant message to
    /// the history and returns its text content.  A response without an
    /// answer is a deserialization error and leaves the history unchanged.
    pub fn chat_accept<H: History>(
        &self,
        response: &ChatCompletionResponse,
        history: &mut H,
    ) -> (r: Result<String, ApiError>)
        ensures
            response_has_answer(*response) ==> ({
                &&& r matches Ok(s) && s@ == response_answer(*response)
                &&& final(history).msgs() == old(history).msgs().push(
                    response.choices@[0].message.deep_view(),
                )
            }),
            !response_has_answer(*response) ==> ({
                &&& r matches Err(e) && e is Deserialization
                &&& final(history).msgs() == old(history).msgs()
            }),
    {
        if response.choices.len() == 0 {
            return Err(
                ApiError::Deserialization("the response carries no choices".to_owned()),
            );
        }
        let content = match &response.choices[0].message.content {
            Some(s) => s.clone(),
            None => {
                return Err(
                    ApiError::Deserialization(
                        "the assistant message carries no content".to_owned(),
                    ),
                );
            },
        };
        let assistant_message = response.choices[0].message.clone();
        history.add_message(assistant_message);
        Ok(content)
    }

    /// The second phase of a JSON-mode chat turn: as `chat_accept`, then
    /// parses the content as a JSON value.  Content that is not valid
    /// JSON is a content-parse error; the assistant message has then
    /// already been recorded, as in a plain turn.
    pub fn chat_json_accept<H: History>(
        &self,
        response: &ChatCompletionResponse,
        history: &mut H,
    ) -> (r: Result<JsonValue, ApiError>)
        ensures
            response_has_answer(*response) ==> ({
                &&& final(history).msgs() == old(history).msgs().push(
                    response.choices@[0].message.deep_view(),
                )
                &&& match crate::json::parse::parse_text(response_answer(*response)) {
                    Some(j) => r matches Ok(v) && v@ == j,
                    None => r matches Err(e) && e is ContentParse,
                }
            }),
            !response_has_answer(*response) ==> ({
                &&& r matches Err(e) && e is Deserialization
                &&& final(history).msgs() == old(history).msgs()
            }),
    {
        let content = match self.chat_accept(response, history) {
            Ok(s) => s,
            Err(e) => {
                return Err(e);
            },
        };
        match parse_json(content.as_str()) {
            Some(j) => Ok(j),
            None => Err(
                ApiError::ContentParse("the answer content is not valid JSON".to_owned()),
            ),
        }
    }
}

} // verus!
