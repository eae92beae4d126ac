//! The streaming decode pipeline: event framing, the sentinel, and
//! malformed events.

use ds_api::stream::decode_events;
use ds_api::SseDecoder;
use ds_api::StreamDecoder;

fn chunk_payload(id: &str, content: &str) -> String {
    format!(
        "{{\"id\":\"{}\",\"choices\":[{{\"index\":0,\"delta\":{{\"content\":\"{}\"}}}}],\"created\":1,\"model\":\"deepseek-chat\",\"system_fingerprint\":\"fp\",\"object\":\"chat.completion.chunk\"}}",
        id, content
    )
}

#[test]
fn two_chunks_then_sentinel() {
    let transport = format!(
        "data: {}\n\ndata: {}\n\ndata: [DONE]\n\n",
        chunk_payload("c1", "Hel"),
        chunk_payload("c2", "lo")
    );
    let mut framer = SseDecoder::new();
    let payloads = framer.feed(&transport);
    assert_eq!(payloads.len(), 3);
    assert_eq!(payloads[2], "[DONE]");

    let items = decode_events(&payloads);
    assert_eq!(items.len(), 2);
    let first = items[0].as_ref().unwrap();
    assert_eq!(first.id, "c1");
    assert_eq!(first.choices[0].delta.content.as_ref().unwrap(), "Hel");
    let second = items[1].as_ref().unwrap();
    assert_eq!(second.id, "c2");
    assert_eq!(second.choices[0].delta.content.as_ref().unwrap(), "lo");
}

#[test]
fn nothing_after_the_sentinel() {
    let payloads = vec![
        chunk_payload("c1", "a"),
        "[DONE]".to_string(),
        chunk_payload("c3", "never"),
    ];
    let items = decode_events(&payloads);
    assert_eq!(items.len(), 1);
    assert!(items[0].is_ok());
}

#[test]
fn a_malformed_event_is_an_item_not_the_end() {
    let payloads = vec![
        chunk_payload("c1", "a"),
        "{ this is not valid json".to_string(),
        chunk_payload("c3", "b"),
    ];
    let items = decode_events(&payloads);
    assert_eq!(items.len(), 3);
    assert!(items[0].is_ok());
    let err = items[1].as_ref().unwrap_err();
    assert!(matches!(err, ds_api::ApiError::Deserialization(_)));
    assert!(items[2].is_ok());
    assert_eq!(items[2].as_ref().unwrap().id, "c3");
}

#[test]
fn the_stateful_decoder_follows_the_same_machine() {
    let mut decoder = StreamDecoder::new();
    let ok = decoder.next_event(&chunk_payload("c1", "x")).unwrap();
    assert_eq!(ok.unwrap().id, "c1");
    let err = decoder.next_event("garbage").unwrap();
    assert!(err.is_err());
    assert!(decoder.next_event("[DONE]").is_none());
    assert!(decoder.next_event(&chunk_payload("c2", "y")).is_none());
}

#[test]
fn framing_handles_crlf_and_split_feeds() {
    let mut framer = SseDecoder::new();
    let mut payloads = framer.feed("data: hel");
    assert_eq!(payloads.len(), 0);
    payloads = framer.feed("lo\r\n\r\ndata:world\n");
    assert_eq!(payloads.len(), 1);
    assert_eq!(payloads[0], "hello");
    payloads = framer.feed("\n");
    assert_eq!(payloads.len(), 1);
    assert_eq!(payloads[0], "world");
}

#[test]
fn framing_joins_data_lines_and_ignores_others() {
    let mut framer = SseDecoder::new();
    let payloads = framer.feed(": comment\nevent: message\ndata: a\ndata: b\n\n");
    assert_eq!(payloads.len(), 1);
    assert_eq!(payloads[0], "a\nb");
}

#[test]
fn a_final_chunk_may_carry_usage() {
    let payload = "{\"id\":\"end\",\"choices\":[],\"created\":2,\"model\":\"deepseek-chat\",\"system_fingerprint\":\"fp\",\"object\":\"chat.completion.chunk\",\"usage\":{\"prompt_tokens\":3,\"completion_tokens\":4,\"total_tokens\":7}}";
    let items = decode_events(&vec![payload.to_string()]);
    assert_eq!(items.len(), 1);
    let chunk = items[0].as_ref().unwrap();
    assert_eq!(chunk.choices.len(), 0);
    let usage = chunk.usage.as_ref().unwrap();
    assert_eq!(usage.total_tokens, 7);
}

#[test]
fn an_accounting_chunk_may_omit_choices_or_null_them() {
    let without = "{\"id\":\"end\",\"created\":2,\"model\":\"deepseek-chat\",\"system_fingerprint\":\"fp\",\"object\":\"chat.completion.chunk\",\"usage\":{\"prompt_tokens\":3,\"completion_tokens\":4,\"total_tokens\":7}}";
    let with_null = "{\"id\":\"end\",\"choices\":null,\"created\":2,\"model\":\"deepseek-chat\",\"system_fingerprint\":\"fp\",\"object\":\"chat.completion.chunk\",\"usage\":{\"prompt_tokens\":3,\"completion_tokens\":4,\"total_tokens\":7}}";
    let items = decode_events(&vec![without.to_string(), with_null.to_string()]);
    assert_eq!(items.len(), 2);
    for item in &items {
        let chunk = item.as_ref().unwrap();
        assert_eq!(chunk.choices.len(), 0);
        assert_eq!(chunk.usage.as_ref().unwrap().total_tokens, 7);
    }
}

#[test]
fn delta_fragments_carry_roles_and_tool_calls() {
    let payload = "{\"id\":\"c\",\"choices\":[{\"index\":0,\"delta\":{\"role\":\"assistant\",\"tool_calls\":[{\"index\":0,\"id\":\"t1\",\"type\":\"function\",\"function\":{\"name\":\"f\",\"arguments\":\"{}\"}}]},\"finish_reason\":\"tool_calls\"}],\"created\":3,\"model\":\"deepseek-chat\",\"system_fingerprint\":\"fp\",\"object\":\"chat.completion.chunk\"}";
    let items = decode_events(&vec![payload.to_string()]);
    let chunk = items[0].as_ref().unwrap();
    let choice = &chunk.choices[0];
    assert!(matches!(choice.delta.role, Some(ds_api::Role::Assistant)));
    let calls = choice.delta.tool_calls.as_ref().unwrap();
    assert_eq!(calls[0].index, 0);
    assert_eq!(calls[0].id.as_ref().unwrap(), "t1");
    assert_eq!(
        calls[0].function.as_ref().unwrap().name.as_ref().unwrap(),
        "f"
    );
    assert!(matches!(
        choice.finish_reason,
        Some(ds_api::FinishReason::ToolCalls)
    ));
}
