//! Decoding single-shot responses.

use ds_api::raw::response::Choice;
use ds_api::ChatCompletionResponse;
use ds_api::FinishReason;
use ds_api::Model;
use ds_api::Response;
use ds_api::Role;

#[test]
fn test_usage_deserialization() {
    let json = "
            {
              \"id\": \"dbdd2075-d78a-494a-afc9-b9ec5dc6bb64\",
              \"object\": \"chat.completion\",
              \"created\": 1770982234,
              \"model\": \"deepseek-chat\",
              \"choices\": [
                {
                  \"index\": 0,
                  \"message\": {
                    \"role\": \"assistant\",
                    \"content\": \"Hello! How can I assist you today? \u{f0}\u{178}\u{2dc}\u{160}\"
                  },
                  \"logprobs\": null,
                  \"finish_reason\": \"stop\"
                }
              ],
              \"usage\": {
                \"prompt_tokens\": 10,
                \"completion_tokens\": 11,
                \"total_tokens\": 21,
                \"prompt_tokens_details\": {
                  \"cached_tokens\": 0
                },
                \"prompt_cache_hit_tokens\": 0,
                \"prompt_cache_miss_tokens\": 10
              },
              \"system_fingerprint\": \"fp_eaab8d114b_prod0820_fp8_kvcache\"
            }
        ";

    let response: ChatCompletionResponse = ChatCompletionResponse::parse(json).unwrap();

    assert_eq!(response.id, "dbdd2075-d78a-494a-afc9-b9ec5dc6bb64".to_string());
    assert!(matches!(response.object, ds_api::raw::response::ObjectType::ChatCompletion));
    assert_eq!(response.created, 1770982234);
    assert!(matches!(response.model, Model::DeepseekChat));
    assert_eq!(response.choices.len(), 1);
    assert_eq!(response.choices[0].index, 0);
    assert!(matches!(response.choices[0].message.role, Role::Assistant));
    assert_eq!(
        response.choices[0].message.content.as_ref().unwrap(),
        "Hello! How can I assist you today? \u{f0}\u{178}\u{2dc}\u{160}"
    );
    assert!(response.choices[0].logprobs.is_none());
    assert!(matches!(response.choices[0].finish_reason, FinishReason::Stop));

    assert_eq!(response.usage.prompt_tokens, 10);
    assert_eq!(response.usage.completion_tokens, 11);
    assert_eq!(response.usage.total_tokens, 21);
    assert_eq!(response.usage.prompt_cache_hit_tokens.unwrap(), 0);
    assert_eq!(response.usage.prompt_cache_miss_tokens.unwrap(), 10);
}

#[test]
fn malformed_bodies_are_deserialization_errors() {
    let e = ChatCompletionResponse::parse("not json").unwrap_err();
    assert!(matches!(e, ds_api::ApiError::Deserialization(_)));
    assert_eq!(e.kind_name(), "deserialization error");

    let e2 = ChatCompletionResponse::parse("{\"id\":\"x\"}").unwrap_err();
    assert!(matches!(e2, ds_api::ApiError::Deserialization(_)));
}

#[test]
fn response_content_reads_the_first_choice() {
    let response = ChatCompletionResponse {
        id: "r1".to_string(),
        choices: vec![Choice {
            finish_reason: FinishReason::Stop,
            index: 0,
            message: ds_api::Message::new(Role::Assistant, "the answer"),
            logprobs: None,
        }],
        created: 1234567890,
        model: Model::DeepseekChat,
        system_fingerprint: "fp".to_string(),
        object: ds_api::raw::response::ObjectType::ChatCompletion,
        usage: ds_api::Usage {
            completion_tokens: 5,
            prompt_tokens: 10,
            prompt_cache_hit_tokens: None,
            prompt_cache_miss_tokens: None,
            total_tokens: 15,
            completion_tokens_details: None,
        },
    };
    assert_eq!(response.content(), "the answer");
    assert_eq!(response.created(), 1234567890);
}

#[test]
fn other_error_kinds_have_names() {
    let t = ds_api::ApiError::Transport("connection reset".to_string());
    assert_eq!(t.kind_name(), "transport error");
    let h = ds_api::ApiError::HttpStatus(429, "too many requests".to_string());
    assert_eq!(h.kind_name(), "http status error");
    assert!(matches!(h, ds_api::ApiError::HttpStatus(429, _)));
    let c = ds_api::ApiError::ContentParse("bad".to_string());
    assert_eq!(c.kind_name(), "content parse error");
}
