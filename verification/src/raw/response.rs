//! The single-shot response envelope and its parts, with their wire
//! decoders.  The server writes these; the client only reads them.

use vstd::prelude::*;

use crate::error::ApiError;
use crate::json::field::opt_u32_field;
use crate::json::field::read_opt_u32;
use crate::json::field::read_req_str;
use crate::json::field::read_req_u32;
use crate::json::field::read_req_u64;
use crate::json::field::req_str_field;
use crate::json::field::req_u32_field;
use crate::json::field::req_u64_field;
use crate::json::parse::parse_text;
use crate::json::read::parse_json;
use crate::json::value::get_v;
use crate::json::value::jv_list;
use crate::json::value::lemma_jv_list_index;
use crate::json::value::str_eq;
use crate::json::value::JsonV;
use crate::json::value::JsonValue;
use crate::raw::params::model_dec;
use crate::raw::params::Model;
use crate::raw::request::message_dec;
use crate::raw::request::Message;
use crate::raw::request::MessageV;

verus! {

/// Why a choice stopped generating.
#[derive(Debug, Clone, Copy, PartialEq, Eq)]
pub enum FinishReason {
    Stop,
    Length,
    ContentFilter,
    ToolCalls,
    InsufficientSystemResource,
}

impl DeepView for FinishReason {
    type V = FinishReason;

    open spec fn deep_view(&self) -> FinishReason {
        *self
    }
}

pub open spec fn finish_reason_dec(v: JsonV) -> Option<FinishReason> {
    match v {
        JsonV::Str(t) => if t == "stop"@ {
            Some(FinishReason::Stop)
        } else if t == "length"@ {
            Some(FinishReason::Length)
        } else if t == "content_filter"@ {
            Some(FinishReason::ContentFilter)
        } else if t == "tool_calls"@ {
            Some(FinishReason::ToolCalls)
        } else if t == "insufficient_system_resource"@ {
            Some(FinishReason::InsufficientSystemResource)
        } else {
            None
        },
        _ => None,
    }
}

impl FinishReason {
    pub fn from_json(v: &JsonValue) -> (r: Option<FinishReason>)
        ensures
            r == finish_reason_dec(v@),
    {
        match v {
            JsonValue::Str(s) => {
                if str_eq(s.as_str(), "stop") {
                    Some(FinishReason::Stop)
                } else if str_eq(s.as_str(), "length") {
                    Some(FinishReason::Length)
                } else if str_eq(s.as_str(), "content_filter") {
                    Some(FinishReason::ContentFilter)
                } else if str_eq(s.as_str(), "tool_calls") {
                    Some(FinishReason::ToolCalls)
                } else if str_eq(s.as_str(), "insufficient_system_resource") {
                    Some(FinishReason::InsufficientSystemResource)
                } else {
                    None
                }
            },
            _ => None,
        }
    }
}

/// The object tag of a single-shot response.
#[derive(Debug, Clone, Copy, PartialEq, Eq)]
pub enum ObjectType {
    /// The wire token `chat.completion`.
    ChatCompletion,
}

impl DeepView for ObjectType {
    type V = ObjectType;

    open spec fn deep_view(&self) -> ObjectType {
        *self
    }
}

pub open spec fn object_type_dec(v: JsonV) -> Option<ObjectType> {
    match v {
        JsonV::Str(t) => if t == "chat.completion"@ {
            Some(ObjectType::ChatCompletion)
        } else {
            None
        },
        _ => None,
    }
}

impl ObjectType {
    pub fn from_json(v: &JsonValue) -> (r: Option<ObjectType>)
        ensures
            r == object_type_dec(v@),
    {
        match v {
            JsonValue::Str(s) => {
                if str_eq(s.as_str(), "chat.completion") {
                    Some(ObjectType::ChatCompletion)
                } else {
                    None
                }
            },
            _ => None,
        }
    }
}

/// Token accounting for the completion-token side.
#[derive(Debug, Clone, Copy, PartialEq, Eq)]
pub struct CompletionTokensDetails {
    pub reasoning_tokens: u32,
}

impl DeepView for CompletionTokensDetails {
    type V = CompletionTokensDetails;

    open spec fn deep_view(&self) -> CompletionTokensDetails {
        *self
    }
}

pub open spec fn completion_tokens_details_dec(v: JsonV) -> Option<CompletionTokensDetails> {
    if !(v is Obj) {
        None
    } else {
        match req_u32_field(v, "reasoning_tokens"@) {
            Some(n) => Some(CompletionTokensDetails { reasoning_tokens: n }),
            None => None,
        }
    }
}

impl CompletionTokensDetails {
    pub fn from_json(v: &JsonValue) -> (r: Option<CompletionTokensDetails>)
        ensures
            r == completion_tokens_details_dec(v@),
    {
        if !v.is_obj() {
            return None;
        }
        match read_req_u32(v, "reasoning_tokens") {
            Some(n) => Some(CompletionTokensDetails { reasoning_tokens: n }),
            None => None,
        }
    }
}

/// Token accounting for a whole request.
#[derive(Debug, Clone, Copy, PartialEq, Eq)]
pub struct Usage {
    pub completion_tokens: u32,
    pub prompt_tokens: u32,
    pub prompt_cache_hit_tokens: Option<u32>,
    pub prompt_cache_miss_tokens: Option<u32>,
    pub total_tokens: u32,
    pub completion_tokens_details: Option<CompletionTokensDetails>,
}

impl DeepView for Usage {
    type V = Usage;

    open spec fn deep_view(&self) -> Usage {
        *self
    }
}

pub open spec fn usage_dec(v: JsonV) -> Option<Usage> {
    if !(v is Obj) {
        None
    } else {
        let details = match get_v(v, "completion_tokens_details"@) {
            None => Some(None),
            Some(JsonV::Null) => Some(None),
            Some(dv) => match completion_tokens_details_dec(dv) {
                Some(d) => Some(Some(d)),
                None => None,
            },
        };
        match (
            req_u32_field(v, "completion_tokens"@),
            req_u32_field(v, "prompt_tokens"@),
            opt_u32_field(v, "prompt_cache_hit_tokens"@),
            opt_u32_field(v, "prompt_cache_miss_tokens"@),
            req_u32_field(v, "total_tokens"@),
            details,
        ) {
            (Some(ct), Some(pt), Some(hit), Some(miss), Some(tt), Some(d)) => Some(
                Usage {
                    completion_tokens: ct,
                    prompt_tokens: pt,
                    prompt_cache_hit_tokens: hit,
                    prompt_cache_miss_tokens: miss,
                    total_tokens: tt,
                    completion_tokens_details: d,
                },
            ),
            _ => None,
        }
    }
}

impl Usage {
    pub fn from_json(v: &JsonValue) -> (r: Option<Usage>)
        ensures
            r == usage_dec(v@),
    {
        if !v.is_obj() {
            return None;
        }
        let completion_tokens = match read_req_u32(v, "completion_tokens") {
            Some(x) => x,
            None => {
                return None;
            },
        };
        let prompt_tokens = match read_req_u32(v, "prompt_tokens") {
            Some(x) => x,
            None => {
                return None;
            },
        };
        let prompt_cache_hit_tokens = match read_opt_u32(v, "prompt_cache_hit_tokens") {
            Some(x) => x,
            None => {
                return None;
            },
        };
        let prompt_cache_miss_tokens = match read_opt_u32(v, "prompt_cache_miss_tokens") {
            Some(x) => x,
            None => {
                return None;
            },
        };
        let total_tokens = match read_req_u32(v, "total_tokens") {
            Some(x) => x,
            None => {
                return None;
            },
        };
        let completion_tokens_details = match v.get("completion_tokens_details") {
            None => None,
            Some(x) => match x {
                JsonValue::Null => None,
                _ => match CompletionTokensDetails::from_json(x) {
                    Some(d) => Some(d),
                    None => {
                        return None;
                    },
                },
            },
        };
        Some(
            Usage {
                completion_tokens,
                prompt_tokens,
                prompt_cache_hit_tokens,
                prompt_cache_miss_tokens,
                total_tokens,
                completion_tokens_details,
            },
        )
    }
}

/// One generated answer within a response.
#[derive(Debug, PartialEq, Eq)]
pub struct Choice {
    pub finish_reason: FinishReason,
    pub index: u32,
    pub message: Message,
    /// Per-token log-probability detail, kept as its raw JSON subtree.
    pub logprobs: Option<JsonValue>,
}

pub struct ChoiceV {
    pub finish_reason: FinishReason,
    pub index: u32,
    pub message: MessageV,
    pub logprobs: Option<JsonV>,
}

impl DeepView for Choice {
    type V = ChoiceV;

    open spec fn deep_view(&self) -> ChoiceV {
        ChoiceV {
            finish_reason: self.finish_reason,
            index: self.index,
            message: self.message.deep_view(),
            logprobs: self.logprobs.deep_view(),
        }
    }
}

pub open spec fn choice_dec(v: JsonV) -> Option<ChoiceV> {
    if !(v is Obj) {
        None
    } else {
        let logprobs = match get_v(v, "logprobs"@) {
            None => None,
            Some(JsonV::Null) => None,
            Some(x) => Some(x),
        };
        match (get_v(v, "finish_reason"@), req_u32_field(v, "index"@), get_v(v, "message"@)) {
            (Some(fv), Some(ix), Some(mv)) => match (finish_reason_dec(fv), message_dec(mv)) {
                (Some(f), Some(m)) => Some(
                    ChoiceV { finish_reason: f, index: ix, message: m, logprobs: logprobs },
                ),
                _ => None,
            },
            _ => None,
        }
    }
}

impl Choice {
    pub fn from_json(v: &JsonValue) -> (r: Option<Choice>)
        ensures
            (r is Some) == (choice_dec(v@) is Some),
            r matches Some(c) ==> choice_dec(v@) == Some(c.deep_view()),
    {
        if !v.is_obj() {
            return None;
        }
        let logprobs = match v.get("logprobs") {
            None => None,
            Some(x) => match x {
                JsonValue::Null => None,
                _ => Some(crate::json::read::clone_json(x)),
            },
        };
        let fv = match v.get("finish_reason") {
            Some(x) => x,
            None => {
                return None;
            },
        };
        let index = match read_req_u32(v, "index") {
            Some(x) => x,
            None => {
                return None;
            },
        };
        let mv = match v.get("message") {
            Some(x) => x,
            None => {
                return None;
            },
        };
        let finish_reason = match FinishReason::from_json(fv) {
            Some(x) => x,
            None => {
                return None;
            },
        };
        let message = match Message::from_json(mv) {
            Some(x) => x,
            None => {
                return None;
            },
        };
        Some(Choice { finish_reason, index, message, logprobs })
    }
}

/// Decoding of a whole choices array: every element must decode.
pub open spec fn choice_list_dec(s: Seq<JsonV>) -> Option<Seq<ChoiceV>> {
    if forall|i: int| 0 <= i < s.len() ==> choice_dec(#[trigger] s[i]) is Some {
        Some(Seq::new(s.len(), |i: int| choice_dec(s[i])->Some_0))
    } else {
        None
    }
}

/// Decodes a list of choices.
#[verifier::loop_isolation(false)]
pub fn choices_from_json(items: &Vec<JsonValue>) -> (r: Option<Vec<Choice>>)
    ensures
        (r is Some) == (choice_list_dec(jv_list(items@)) is Some),
        r matches Some(v) ==> choice_list_dec(jv_list(items@)) == Some(v.deep_view()),
{
    proof {
        lemma_jv_list_index(items@);
    }
    let ghost iv = jv_list(items@);
    let mut out: Vec<Choice> = Vec::new();
    let n = items.len();
    let mut i: usize = 0;
    while i < n
        invariant
            0 <= i <= n,
            n == items@.len(),
            out@.len() == i,
            forall|q: int| 0 <= q < i ==> choice_dec(#[trigger] iv[q]) is Some,
            forall|q: int|
                0 <= q < i ==> choice_dec(#[trigger] iv[q]) == Some(out@[q].deep_view()),
        decreases n - i,
    {
        proof {
            assert(iv[i as int] == items@[i as int]@);
        }
        match Choice::from_json(&items[i]) {
            Some(c) => {
                proof {
                    assert(choice_dec(iv[i as int]) == Some(c.deep_view()));
                }
                out.push(c);
            },
            None => {
                proof {
                    assert(choice_dec(iv[i as int]) is None);
                }
                return None;
            },
        }
        i += 1;
    }
    proof {
        assert(Seq::new(iv.len(), |q: int| choice_dec(iv[q])->Some_0) =~= out.deep_view());
    }
    Some(out)
}

/// The single-shot response envelope.
#[derive(Debug, PartialEq, Eq)]
pub struct ChatCompletionResponse {
    pub id: String,
    pub choices: Vec<Choice>,
    pub created: u64,
    pub model: Model,
    pub system_fingerprint: String,
    pub object: ObjectType,
    pub usage: Usage,
}

pub struct ResponseV {
    pub id: Seq<char>,
    pub choices: Seq<ChoiceV>,
    pub created: u64,
    pub model: Model,
    pub system_fingerprint: Seq<char>,
    pub object: ObjectType,
    pub usage: Usage,
}

impl DeepView for ChatCompletionResponse {
    type V = ResponseV;

    open spec fn deep_view(&self) -> ResponseV {
        ResponseV {
            id: self.id@,
            choices: self.choices.deep_view(),
            created: self.created,
            model: self.model,
            system_fingerprint: self.system_fingerprint@,
            object: self.object,
            usage: self.usage,
        }
    }
}

pub open spec fn response_dec(v: JsonV) -> Option<ResponseV> {
    if !(v is Obj) {
        None
    } else {
        let choices = match get_v(v, "choices"@) {
            Some(JsonV::Arr(items)) => choice_list_dec(items),
            _ => None,
        };
        let object = match get_v(v, "object"@) {
            Some(ov) => object_type_dec(ov),
            None => None,
        };
        let model = match get_v(v, "model"@) {
            Some(mv) => model_dec(mv),
            None => None,
        };
        let usage = match get_v(v, "usage"@) {
            Some(uv) => usage_dec(uv),
            None => None,
        };
        match (
            req_str_field(v, "id"@),
            choices,
            req_u64_field(v, "created"@),
            model,
            req_str_field(v, "system_fingerprint"@),
            object,
            usage,
        ) {
            (Some(id), Some(cs), Some(created), Some(m), Some(fp), Some(ob), Some(us)) => Some(
                ResponseV {
                    id: id,
                    choices: cs,
                    created: created,
                    model: m,
                    system_fingerprint: fp,
                    object: ob,
                    usage: us,
                },
            ),
            _ => None,
        }
    }
}

/// Decoding a whole response body from its text: parse, then decode.
pub open spec fn response_text_dec(s: Seq<char>) -> Option<ResponseV> {
    match parse_text(s) {
        Some(j) => response_dec(j),
        None => None,
    }
}

impl ChatCompletionResponse {
    /// Decodes a response from its wire object.
    pub fn from_json(v: &JsonValue) -> (r: Option<ChatCompletionResponse>)
        ensures
            (r is Some) == (response_dec(v@) is Some),
            r matches Some(x) ==> response_dec(v@) == Some(x.deep_view()),
    {
        if !v.is_obj() {
            return None;
        }
        let id = match read_req_str(v, "id") {
            Some(x) => x,
            None => {
                return None;
            },
        };
        let choices = match v.get("choices") {
            Some(x) => match x {
                JsonValue::Arr(items) => match choices_from_json(items) {
                    Some(cs) => cs,
                    None => {
                        return None;
                    },
                },
                _ => {
                    return None;
                },
            },
            None => {
                return None;
            },
        };
        let created = match read_req_u64(v, "created") {
            Some(x) => x,
            None => {
                return None;
            },
        };
        let model = match v.get("model") {
            Some(mv) => match Model::from_json(mv) {
                Some(m) => m,
                None => {
                    return None;
                },
            },
            None => {
                return None;
            },
        };
        let system_fingerprint = match read_req_str(v, "system_fingerprint") {
            Some(x) => x,
            None => {
                return None;
            },
        };
        let object = match v.get("object") {
            Some(ov) => match ObjectType::from_json(ov) {
                Some(o) => o,
                None => {
                    return None;
                },
            },
            None => {
                return None;
            },
        };
        let usage = match v.get("usage") {
            Some(uv) => match Usage::from_json(uv) {
                Some(u) => u,
                None => {
                    return None;
                },
            },
            None => {
                return None;
            },
        };
        Some(
            ChatCompletionResponse {
                id,
                choices,
                created,
                model,
                system_fingerprint,
                object,
                usage,
            },
        )
    }

    /// Parses a whole response body.  Succeeds exactly when the text is
    /// well-formed JSON whose object matches the response schema; any
    /// failure is a deserialization error.
    pub fn parse(s: &str) -> (r: Result<ChatCompletionResponse, ApiError>)
        ensures
            (r is Ok) == (response_text_dec(s@) is Some),
            r matches Ok(x) ==> response_text_dec(s@) == Some(x.deep_view()),
            r matches Err(e) ==> e is Deserialization,
    {
        match parse_json(s) {
            Some(j) => match ChatCompletionResponse::from_json(&j) {
                Some(x) => Ok(x),
                None => Err(
                    ApiError::Deserialization(
                        "the body does not match the response schema".to_owned(),
                    ),
                ),
            },
            None => Err(ApiError::Deserialization("the body is not valid JSON".to_owned())),
        }
    }
}

} // verus!
