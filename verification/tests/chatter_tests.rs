//! Chat turns over a history: the two-phase turn, the JSON mode, and the
//! history capability.

use ds_api::raw::response::Choice;
use ds_api::ChatCompletionResponse;
use ds_api::FinishReason;
use ds_api::History;
use ds_api::JsonValue;
use ds_api::Message;
use ds_api::Model;
use ds_api::NormalChatter;
use ds_api::Number;
use ds_api::Role;
use ds_api::SimpleChatter;

fn assistant_reply(content: &str) -> ChatCompletionResponse {
    ChatCompletionResponse {
        id: "r1".to_string(),
        choices: vec![Choice {
            finish_reason: FinishReason::Stop,
            index: 0,
            message: Message::new(Role::Assistant, content),
            logprobs: None,
        }],
        created: 1,
        model: Model::DeepseekChat,
        system_fingerprint: "fp".to_string(),
        object: ds_api::raw::response::ObjectType::ChatCompletion,
        usage: ds_api::Usage {
            completion_tokens: 1,
            prompt_tokens: 1,
            prompt_cache_hit_tokens: None,
            prompt_cache_miss_tokens: None,
            total_tokens: 2,
            completion_tokens_details: None,
        },
    }
}

#[test]
fn a_chat_turn_grows_the_history_by_two() {
    let mut chatter = SimpleChatter::new("tok-test".to_string(), "be brief".to_string());
    assert_eq!(chatter.history.len(), 1);
    assert!(matches!(chatter.history[0].role, Role::System));

    let request = chatter.chat_request("Hello");
    assert_eq!(request.raw().messages.len(), 2);
    assert!(matches!(request.raw().model, Model::DeepseekChat));

    let reply = assistant_reply("Hi there!");
    let answer = chatter.chat_accept(&reply).unwrap();
    assert_eq!(answer, "Hi there!");
    assert_eq!(chatter.history.len(), 3);
    assert!(matches!(chatter.history[0].role, Role::System));
    assert!(matches!(chatter.history[1].role, Role::User));
    assert_eq!(chatter.history[1].content.as_ref().unwrap(), "Hello");
    assert!(matches!(chatter.history[2].role, Role::Assistant));
    assert_eq!(chatter.history[2].content.as_ref().unwrap(), "Hi there!");
}

#[test]
fn json_mode_parses_the_answer() {
    let chatter = NormalChatter::new("tok-test".to_string());
    let mut history: Vec<Message> = vec![];

    let request = chatter.chat_json_request("give me json", &mut history);
    let body = request.body_text();
    assert!(body.contains("\"response_format\":{\"type\":\"json_object\"}"));

    let reply = assistant_reply("{\"a\":1}");
    let value = chatter.chat_json_accept(&reply, &mut history).unwrap();
    let expected = JsonValue::Obj(vec![(
        "a".to_string(),
        JsonValue::Num(Number { text: "1".to_string() }),
    )]);
    assert_eq!(value, expected);
    assert_eq!(history.len(), 2);
}

#[test]
fn json_mode_rejects_text_that_is_not_json() {
    let chatter = NormalChatter::new("tok-test".to_string());
    let mut history: Vec<Message> = vec![];
    let reply = assistant_reply("not json");
    let err = chatter.chat_json_accept(&reply, &mut history).unwrap_err();
    assert!(matches!(err, ds_api::ApiError::ContentParse(_)));
}

#[test]
fn a_response_without_an_answer_is_rejected() {
    let chatter = NormalChatter::new("tok-test".to_string());
    let mut history: Vec<Message> = vec![];
    let mut reply = assistant_reply("x");
    reply.choices.clear();
    let err = chatter.chat_accept(&reply, &mut history).unwrap_err();
    assert!(matches!(err, ds_api::ApiError::Deserialization(_)));
    assert_eq!(history.len(), 0);
}

#[test]
fn a_vector_is_an_order_preserving_history() {
    let mut history: Vec<Message> = vec![];
    history.add_message(Message::new(Role::User, "one"));
    history.add_message(Message::new(Role::Assistant, "two"));
    let snapshot = history.get_history();
    assert_eq!(snapshot.len(), 2);
    assert_eq!(snapshot[0].content.as_ref().unwrap(), "one");
    assert_eq!(snapshot[1].content.as_ref().unwrap(), "two");
    history.add_message(Message::new(Role::User, "three"));
    assert_eq!(snapshot.len(), 2);
    assert_eq!(history.len(), 3);
}

#[test]
fn the_system_prompt_can_be_replaced() {
    let mut chatter = SimpleChatter::new("tok-test".to_string(), "old prompt".to_string());
    chatter.set_system_prompt("new prompt".to_string());
    assert_eq!(chatter.history.len(), 1);
    assert!(matches!(chatter.history[0].role, Role::System));
    assert_eq!(chatter.history[0].content.as_ref().unwrap(), "new prompt");
}
