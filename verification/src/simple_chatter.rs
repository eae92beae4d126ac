//! The chat client with a built-in history: owns the conversation, seeded
//! with a system prompt, and exposes the same two-phase chat turns.

use vstd::prelude::*;

use crate::error::ApiError;
use crate::json::value::JsonValue;
use crate::normal_chatter::chat_request_v;
use crate::normal_chatter::response_answer;
use crate::normal_chatter::response_has_answer;
use crate::normal_chatter::text_message_v;
use crate::normal_chatter::NormalChatter;
use crate::raw::chat_completion::RequestV;
use crate::raw::params::ResponseFormat;
use crate::raw::params::ResponseFormatType;
use crate::raw::request::Message;
use crate::raw::request::Role;
use crate::raw::response::ChatCompletionResponse;
use crate::request::Request;

verus! {

/// A chat client that owns its history; the first message is the system
/// prompt.
#[derive(Debug, PartialEq, Eq)]
pub struct SimpleChatter {
    /// The conversation so far; the first message is the system prompt.
    pub history: Vec<Message>,
    /// The underlying client holding the credential.
    pub chatter: NormalChatter,
}

impl SimpleChatter {
    /// A client using the given credential, whose history starts with the
    /// given system prompt.
    pub fn new(token: String, system_prompt: String) -> (r: Self)
        ensures
            r.history.deep_view() == seq![
                text_message_v(Role::System, system_prompt@),
            ],
            r.chatter.token == token,
    {
        let mut history: Vec<Message> = Vec::new();
        history.push(Message::new(Role::System, system_prompt.as_str()));
        let r = SimpleChatter { history, chatter: NormalChatter::new(token) };
        proof {
            assert(r.history.deep_view() =~= seq![
                text_message_v(Role::System, system_prompt@),
            ]);
        }
        r
    }

    /// The first phase of a chat turn on the owned history.
    pub fn chat_request(&mut self, user_message: &str) -> (r: Request)
        ensures
            final(self).history.deep_view() == old(self).history.deep_view().push(
                text_message_v(Role::User, user_message@),
            ),
            final(self).chatter == old(self).chatter,
            r.deep_view() == chat_request_v(final(self).history.deep_view()),
    {
        let chatter = NormalChatter { token: self.chatter.token.clone() };
        chatter.chat_request(user_message, &mut self.history)
    }

    /// The second phase of a chat turn on the owned history.
    pub fn chat_accept(&mut self, response: &ChatCompletionResponse) -> (r: Result<
        String,
        ApiError,
    >)
        ensures
            final(self).chatter == old(self).chatter,
            response_has_answer(*response) ==> ({
                &&& r matches Ok(s) && s@ == response_answer(*response)
                &&& final(self).history.deep_view() == old(self).history.deep_view().push(
                    response.choices@[0].message.deep_view(),
                )
            }),
            !response_has_answer(*response) ==> ({
                &&& r matches Err(e) && e is Deserialization
                &&& final(self).history.deep_view() == old(self).history.deep_view()
            }),
    {
        let chatter = NormalChatter { token: self.chatter.token.clone() };
        chatter.chat_accept(response, &mut self.history)
    }

    /// The first phase of a JSON-mode chat turn on the owned history.
    pub fn chat_json_request(&mut self, user_message: &str) -> (r: Request)
        ensures
            final(self).history.deep_view() == old(self).history.deep_view().push(
                text_message_v(Role::User, user_message@),
            ),
            final(self).chatter == old(self).chatter,
            r.deep_view() == (RequestV {
                response_format: Some(
                    ResponseFormat { kind: ResponseFormatType::JsonObject },
                ),
                ..chat_request_v(final(self).history.deep_view())
            }),
    {
        let chatter = NormalChatter { token: self.chatter.token.clone() };
        chatter.chat_json_request(user_message, &mut self.history)
    }

    /// The second phase of a JSON-mode chat turn on the owned history.
    pub fn chat_json_accept(&mut self, response: &ChatCompletionResponse) -> (r: Result<
        JsonValue,
        ApiError,
    >)
        ensures
            final(self).chatter == old(self).chatter,
            response_has_answer(*response) ==> ({
                &&& final(self).history.deep_view() == old(self).history.deep_view().push(
                    response.choices@[0].message.deep_view(),
                )
                &&& match crate::json::parse::parse_text(response_answer(*response)) {
                    Some(j) => r matches Ok(v) && v@ == j,
                    None => r matches Err(e) && e is ContentParse,
                }
            }),
            !response_has_answer(*response) ==> ({
                &&& r matches Err(e) && e is Deserialization
                &&& final(self).history.deep_view() == old(self).history.deep_view()
            }),
    {
        let chatter = NormalChatter { token: self.chatter.token.clone() };
        chatter.chat_json_accept(response, &mut self.history)
    }

    /// Replaces the system prompt, the first message of the history.
    pub fn set_system_prompt(&mut self, system_prompt: String)
        requires
            old(self).history.deep_view().len() > 0,
        ensures
            final(self).chatter == old(self).chatter,
            final(self).history.deep_view() == old(self).history.deep_view().update(
                0,
                text_message_v(Role::System, system_prompt@),
            ),
    {
        let m = Message::new(Role::System, system_prompt.as_str());
        self.history.set(0, m);
        proof {
            assert(self.history.deep_view() =~= old(self).history.deep_view().update(
                0,
                text_message_v(Role::System, system_prompt@),
            ));
        }
    }
}

} // verus!
