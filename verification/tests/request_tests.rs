//! The request envelope and builder: serialization, defaults, and the
//! builder shortcuts.

use ds_api::json::read::parse_json;
use ds_api::raw::params::Function;
use ds_api::raw::params::FunctionName;
use ds_api::raw::params::StreamOptions;
use ds_api::raw::params::Thinking;
use ds_api::raw::params::ThinkingType;
use ds_api::raw::params::Tool;
use ds_api::raw::params::ToolChoice;
use ds_api::raw::params::ToolChoiceObject;
use ds_api::FunctionCall;
use ds_api::JsonValue;
use ds_api::ToolCall;
use ds_api::ToolType;
use ds_api::raw::chat_completion::ChatCompletionRequest;
use ds_api::raw::params::Stop;
use ds_api::Message;
use ds_api::Model;
use ds_api::Number;
use ds_api::Request;
use ds_api::Role;

#[test]
fn test_chat_completion_request_serialization() {
    let request = ChatCompletionRequest {
        messages: vec![Message {
            role: Role::User,
            content: Some("Hello, world!".to_string()),
            name: None,
            tool_call_id: None,
            tool_calls: None,
            reasoning_content: None,
            prefix: None,
        }],
        model: Model::DeepseekChat,
        thinking: None,
        frequency_penalty: Some(Number::from_lexeme("0.5").unwrap()),
        max_tokens: Some(100),
        presence_penalty: None,
        response_format: None,
        stop: None,
        stream: Some(false),
        stream_options: None,
        temperature: Some(Number::from_lexeme("0.7").unwrap()),
        top_p: None,
        tools: None,
        tool_choice: None,
        logprobs: None,
        top_logprobs: None,
    };

    let json = request.to_json().to_text();
    let parsed = ChatCompletionRequest::from_json(&parse_json(&json).unwrap()).unwrap();

    assert_eq!(parsed.messages.len(), 1);
    assert_eq!(parsed.messages[0].content.as_ref().unwrap(), "Hello, world!");
    assert!(matches!(parsed.model, Model::DeepseekChat));
    assert_eq!(parsed.frequency_penalty, Some(Number::from_lexeme("0.5").unwrap()));
    assert_eq!(parsed.max_tokens, Some(100));
    assert_eq!(parsed.stream, Some(false));
    assert_eq!(parsed.temperature, Some(Number::from_lexeme("0.7").unwrap()));
}

#[test]
fn test_default_chat_completion_request() {
    let request = ChatCompletionRequest::default();

    assert!(request.messages.is_empty());
    assert!(matches!(request.model, Model::DeepseekChat));
    assert!(request.thinking.is_none());
    assert!(request.frequency_penalty.is_none());
    assert!(request.max_tokens.is_none());
    assert!(request.presence_penalty.is_none());
    assert!(request.response_format.is_none());
    assert!(request.stop.is_none());
    assert!(request.stream.is_none());
    assert!(request.stream_options.is_none());
    assert!(request.temperature.is_none());
    assert!(request.top_p.is_none());
    assert!(request.tools.is_none());
    assert!(request.tool_choice.is_none());
    assert!(request.logprobs.is_none());
    assert!(request.top_logprobs.is_none());
}

#[test]
fn test_hello_world_request() {
    let request = Request::basic_query(vec![Message {
        role: Role::User,
        content: Some("Hello, world!".to_string()),
        name: None,
        tool_call_id: None,
        tool_calls: None,
        reasoning_content: None,
        prefix: None,
    }]);

    assert_eq!(request.raw().messages.len(), 1);
    assert_eq!(request.raw().messages[0].content.as_ref().unwrap(), "Hello, world!");
    assert!(matches!(request.raw().model, Model::DeepseekChat));
}

#[test]
fn basic_query_uses_the_default_chat_model() {
    let request = Request::basic_query(vec![Message::new(Role::User, "hi")]);
    assert!(matches!(request.raw().model, Model::DeepseekChat));
    assert_eq!(request.raw().messages.len(), 1);
    assert!(matches!(request.raw().messages[0].role, Role::User));
    assert_eq!(request.raw().messages[0].content.as_ref().unwrap(), "hi");
    assert!(request.raw().temperature.is_none());
    assert!(request.raw().stream.is_none());
}

#[test]
fn serialized_body_omits_unset_fields() {
    let body = Request::basic_query(vec![Message::new(Role::User, "hi")]).body_text();
    assert_eq!(
        body,
        "{\"messages\":[{\"role\":\"user\",\"content\":\"hi\"}],\"model\":\"deepseek-chat\"}"
    );
    assert!(!body.contains("temperature"));
    assert!(!body.contains("stop"));
    assert!(!body.contains("stream"));
    assert!(!body.contains("tool"));
}

#[test]
fn builder_accumulates_settings() {
    let request = Request::builder()
        .add_message(Message::new(Role::System, "be brief"))
        .add_message(Message::new(Role::User, "hi"))
        .model(Model::DeepseekReasoner)
        .max_tokens(64)
        .temperature(Number::from_lexeme("0.2").unwrap())
        .logprobs(5);
    let raw = request.raw();
    assert_eq!(raw.messages.len(), 2);
    assert!(matches!(raw.model, Model::DeepseekReasoner));
    assert_eq!(raw.max_tokens, Some(64));
    assert_eq!(raw.logprobs, Some(true));
    assert_eq!(raw.top_logprobs, Some(5));
    let body = request.body_text();
    assert!(body.contains("\"max_tokens\":64"));
    assert!(body.contains("\"logprobs\":true"));
    assert!(body.contains("\"top_logprobs\":5"));
    assert!(body.contains("\"model\":\"deepseek-reasoner\""));
}

#[test]
fn json_mode_sets_the_response_format() {
    let body = Request::basic_query(vec![Message::new(Role::User, "hi")]).json().body_text();
    assert!(body.contains("\"response_format\":{\"type\":\"json_object\"}"));
}

#[test]
fn stop_round_trips_in_both_shapes() {
    let one = Request::basic_query(vec![Message::new(Role::User, "hi")])
        .stop_str("END".to_string());
    let body_one = one.body_text();
    assert!(body_one.contains("\"stop\":\"END\""));
    let parsed_one =
        ChatCompletionRequest::from_json(&parse_json(&body_one).unwrap()).unwrap();
    assert_eq!(parsed_one.stop, Some(Stop::Text("END".to_string())));

    let many = Request::basic_query(vec![Message::new(Role::User, "hi")])
        .stop_vec(vec!["a".to_string(), "b".to_string()]);
    let body_many = many.body_text();
    assert!(body_many.contains("\"stop\":[\"a\",\"b\"]"));
    let parsed_many =
        ChatCompletionRequest::from_json(&parse_json(&body_many).unwrap()).unwrap();
    assert_eq!(
        parsed_many.stop,
        Some(Stop::List(vec!["a".to_string(), "b".to_string()]))
    );
}

#[test]
fn streaming_flag_is_forced_on() {
    let body = Request::basic_query(vec![Message::new(Role::User, "hi")])
        .force_streaming()
        .body_text();
    assert!(body.contains("\"stream\":true"));
}

#[test]
fn message_round_trips_with_tool_calls() {
    let m = Message {
        role: Role::Assistant,
        content: None,
        name: Some("helper".to_string()),
        tool_call_id: None,
        tool_calls: Some(vec![ToolCall {
            id: "call_1".to_string(),
            kind: ToolType::Function,
            function: FunctionCall {
                name: "get_weather".to_string(),
                arguments: "{\"city\":\"Oslo\"}".to_string(),
            },
        }]),
        reasoning_content: None,
        prefix: Some(true),
    };
    let text = m.to_json().to_text();
    let back = Message::from_json(&parse_json(&text).unwrap()).unwrap();
    assert_eq!(back, m);
    assert!(!text.contains("\"content\""));
    assert!(text.contains("\"tool_calls\""));
}

#[test]
fn a_fully_populated_request_round_trips() {
    let request = ChatCompletionRequest {
        messages: vec![
            Message::new(Role::System, "be brief"),
            Message::new(Role::User, "hi"),
        ],
        model: Model::DeepseekReasoner,
        thinking: Some(Thinking { kind: ThinkingType::Enabled }),
        frequency_penalty: Some(Number::from_lexeme("-0.5").unwrap()),
        max_tokens: Some(4096),
        presence_penalty: Some(Number::from_lexeme("1.25").unwrap()),
        response_format: Some(ds_api::raw::params::ResponseFormat {
            kind: ds_api::raw::params::ResponseFormatType::Text,
        }),
        stop: Some(Stop::List(vec!["END".to_string()])),
        stream: Some(true),
        stream_options: Some(StreamOptions { include_usage: true }),
        temperature: Some(Number::from_lexeme("0.7").unwrap()),
        top_p: Some(Number::from_lexeme("0.9").unwrap()),
        tools: Some(vec![Tool {
            kind: ToolType::Function,
            function: Function {
                name: "lookup".to_string(),
                description: Some("finds things".to_string()),
                parameters: JsonValue::Obj(vec![(
                    "type".to_string(),
                    JsonValue::Str("object".to_string()),
                )]),
                strict: Some(false),
            },
        }]),
        tool_choice: Some(ToolChoice::Named(ToolChoiceObject {
            kind: ToolType::Function,
            function: FunctionName { name: "lookup".to_string() },
        })),
        logprobs: Some(true),
        top_logprobs: Some(3),
    };
    let text = request.to_json().to_text();
    let back = ChatCompletionRequest::from_json(&parse_json(&text).unwrap()).unwrap();
    assert_eq!(back, request);
}
