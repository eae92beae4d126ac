//! The streaming response chunks and their wire decoders: incremental
//! deltas of an in-progress assistant message.

use vstd::prelude::*;

use crate::json::field::opt_str_field;
use crate::json::field::read_opt_str;
use crate::json::field::read_req_str;
use crate::json::field::read_req_u32;
use crate::json::field::read_req_u64;
use crate::json::field::req_str_field;
use crate::json::field::req_u32_field;
use crate::json::field::req_u64_field;
use crate::json::value::get_v;
use crate::json::value::jv_list;
use crate::json::value::lemma_jv_list_index;
use crate::json::value::str_eq;
use crate::json::value::JsonV;
use crate::json::value::JsonValue;
use crate::raw::request::role_dec;
use crate::raw::request::tool_type_dec;
use crate::raw::request::Role;
use crate::raw::request::ToolType;
use crate::raw::response::finish_reason_dec;
use crate::raw::response::usage_dec;
use crate::raw::response::FinishReason;
use crate::raw::response::Usage;

verus! {

/// The object tag of a streaming chunk.
#[derive(Debug, Clone, Copy, PartialEq, Eq)]
pub enum ChunkObjectType {
    /// The wire token `chat.completion.chunk`.
    ChatCompletionChunk,
}

impl DeepView for ChunkObjectType {
    type V = ChunkObjectType;

    open spec fn deep_view(&self) -> ChunkObjectType {
        *self
    }
}

pub open spec fn chunk_object_type_dec(v: JsonV) -> Option<ChunkObjectType> {
    match v {
        JsonV::Str(t) => if t == "chat.completion.chunk"@ {
            Some(ChunkObjectType::ChatCompletionChunk)
        } else {
            None
        },
        _ => None,
    }
}

impl ChunkObjectType {
    pub fn from_json(v: &JsonValue) -> (r: Option<ChunkObjectType>)
        ensures
            r == chunk_object_type_dec(v@),
    {
        match v {
            JsonValue::Str(s) => {
                if str_eq(s.as_str(), "chat.completion.chunk") {
                    Some(ChunkObjectType::ChatCompletionChunk)
                } else {
                    None
                }
            },
            _ => None,
        }
    }
}

/// An incremental fragment of a function call.
#[derive(Debug, PartialEq, Eq)]
pub struct DeltaFunctionCall {
    pub name: Option<String>,
    pub arguments: Option<String>,
}

pub struct DeltaFunctionCallV {
    pub name: Option<Seq<char>>,
    pub arguments: Option<Seq<char>>,
}

impl DeepView for DeltaFunctionCall {
    type V = DeltaFunctionCallV;

    open spec fn deep_view(&self) -> DeltaFunctionCallV {
        DeltaFunctionCallV {
            name: self.name.deep_view(),
            arguments: self.arguments.deep_view(),
        }
    }
}

pub open spec fn delta_function_call_dec(v: JsonV) -> Option<DeltaFunctionCallV> {
    if !(v is Obj) {
        None
    } else {
        match (opt_str_field(v, "name"@), opt_str_field(v, "arguments"@)) {
            (Some(n), Some(a)) => Some(DeltaFunctionCallV { name: n, arguments: a }),
            _ => None,
        }
    }
}

impl DeltaFunctionCall {
    pub fn from_json(v: &JsonValue) -> (r: Option<DeltaFunctionCall>)
        ensures
            (r is Some) == (delta_function_call_dec(v@) is Some),
            r matches Some(x) ==> delta_function_call_dec(v@) == Some(x.deep_view()),
    {
        if !v.is_obj() {
            return None;
        }
        let name = match read_opt_str(v, "name") {
            Some(x) => x,
            None => {
                return None;
            },
        };
        let arguments = match read_opt_str(v, "arguments") {
            Some(x) => x,
            None => {
                return None;
            },
        };
        Some(DeltaFunctionCall { name, arguments })
    }
}

/// An incremental fragment of a tool call, addressed by position.
#[derive(Debug, PartialEq, Eq)]
pub struct DeltaToolCall {
    pub index: u32,
    pub id: Option<String>,
    /// The wire field `type`.
    pub kind: Option<ToolType>,
    pub function: Option<DeltaFunctionCall>,
}

pub struct DeltaToolCallV {
    pub index: u32,
    pub id: Option<Seq<char>>,
    pub kind: Option<ToolType>,
    pub function: Option<DeltaFunctionCallV>,
}

impl DeepView for DeltaToolCall {
    type V = DeltaToolCallV;

    open spec fn deep_view(&self) -> DeltaToolCallV {
        DeltaToolCallV {
            index: self.index,
            id: self.id.deep_view(),
            kind: self.kind,
            function: self.function.deep_view(),
        }
    }
}

pub open spec fn delta_tool_call_dec(v: JsonV) -> Option<DeltaToolCallV> {
    if !(v is Obj) {
        None
    } else {
        let kind = match get_v(v, "type"@) {
            None => Some(None),
            Some(JsonV::Null) => Some(None),
            Some(tv) => match tool_type_dec(tv) {
                Some(t) => Some(Some(t)),
                None => None,
            },
        };
        let function = match get_v(v, "function"@) {
            None => Some(None),
            Some(JsonV::Null) => Some(None),
            Some(fv) => match delta_function_call_dec(fv) {
                Some(f) => Some(Some(f)),
                None => None,
            },
        };
        match (req_u32_field(v, "index"@), opt_str_field(v, "id"@), kind, function) {
            (Some(ix), Some(id), Some(k), Some(f)) => Some(
                DeltaToolCallV { index: ix, id: id, kind: k, function: f },
            ),
            _ => None,
        }
    }
}

impl DeltaToolCall {
    pub fn from_json(v: &JsonValue) -> (r: Option<DeltaToolCall>)
        ensures
            (r is Some) == (delta_tool_call_dec(v@) is Some),
            r matches Some(x) ==> delta_tool_call_dec(v@) == Some(x.deep_view()),
    {
        if !v.is_obj() {
            return None;
        }
        let index = match read_req_u32(v, "index") {
            Some(x) => x,
            None => {
                return None;
            },
        };
        let id = match read_opt_str(v, "id") {
            Some(x) => x,
            None => {
                return None;
            },
        };
        let kind = match v.get("type") {
            None => None,
            Some(x) => match x {
                JsonValue::Null => None,
                _ => match crate::raw::request::ToolType::from_json(x) {
                    Some(t) => Some(t),
                    None => {
                        return None;
                    },
                },
            },
        };
        let function = match v.get("function") {
            None => None,
            Some(x) => match x {
                JsonValue::Null => None,
                _ => match DeltaFunctionCall::from_json(x) {
                    Some(f) => Some(f),
                    None => {
                        return None;
                    },
                },
            },
        };
        Some(DeltaToolCall { index, id, kind, function })
    }
}

/// Decoding of a whole array of tool-call fragments.
pub open spec fn delta_tool_call_list_dec(s: Seq<JsonV>) -> Option<Seq<DeltaToolCallV>> {
    if forall|i: int| 0 <= i < s.len() ==> delta_tool_call_dec(#[trigger] s[i]) is Some {
        Some(Seq::new(s.len(), |i: int| delta_tool_call_dec(s[i])->Some_0))
    } else {
        None
    }
}

/// Decodes a list of tool-call fragments.
#[verifier::loop_isolation(false)]
fn delta_tool_calls_from_json(items: &Vec<JsonValue>) -> (r: Option<Vec<DeltaToolCall>>)
    ensures
        (r is Some) == (delta_tool_call_list_dec(jv_list(items@)) is Some),
        r matches Some(v) ==> delta_tool_call_list_dec(jv_list(items@)) == Some(
            v.deep_view(),
        ),
{
    proof {
        lemma_jv_list_index(items@);
    }
    let ghost iv = jv_list(items@);
    let mut out: Vec<DeltaToolCall> = Vec::new();
    let n = items.len();
    let mut i: usize = 0;
    while i < n
        invariant
            0 <= i <= n,
            n == items@.len(),
            out@.len() == i,
            forall|q: int| 0 <= q < i ==> delta_tool_call_dec(#[trigger] iv[q]) is Some,
            forall|q: int|
                0 <= q < i ==> delta_tool_call_dec(#[trigger] iv[q]) == Some(
                    out@[q].deep_view(),
                ),
        decreases n - i,
    {
        proof {
            assert(iv[i as int] == items@[i as int]@);
        }
        match DeltaToolCall::from_json(&items[i]) {
            Some(t) => {
                proof {
                    assert(delta_tool_call_dec(iv[i as int]) == Some(t.deep_view()));
                }
                out.push(t);
            },
            None => {
                proof {
                    assert(delta_tool_call_dec(iv[i as int]) is None);
                }
                return None;
            },
        }
        i += 1;
    }
    proof {
        assert(Seq::new(iv.len(), |q: int| delta_tool_call_dec(iv[q])->Some_0)
            =~= out.deep_view());
    }
    Some(out)
}

/// An incremental, possibly-empty fragment of the eventual message.
#[derive(Debug, PartialEq, Eq)]
pub struct Delta {
    pub content: Option<String>,
    pub reasoning_content: Option<String>,
    pub role: Option<Role>,
    pub tool_calls: Option<Vec<DeltaToolCall>>,
}

pub struct DeltaV {
    pub content: Option<Seq<char>>,
    pub reasoning_content: Option<Seq<char>>,
    pub role: Option<Role>,
    pub tool_calls: Option<Seq<DeltaToolCallV>>,
}

impl DeepView for Delta {
    type V = DeltaV;

    open spec fn deep_view(&self) -> DeltaV {
        DeltaV {
            content: self.content.deep_view(),
            reasoning_content: self.reasoning_content.deep_view(),
            role: self.role,
            tool_calls: self.tool_calls.deep_view(),
        }
    }
}

pub open spec fn delta_dec(v: JsonV) -> Option<DeltaV> {
    if !(v is Obj) {
        None
    } else {
        let role = match get_v(v, "role"@) {
            None => Some(None),
            Some(JsonV::Null) => Some(None),
            Some(rv) => match role_dec(rv) {
                Some(x) => Some(Some(x)),
                None => None,
            },
        };
        let tool_calls = match get_v(v, "tool_calls"@) {
            None => Some(None),
            Some(JsonV::Null) => Some(None),
            Some(JsonV::Arr(items)) => match delta_tool_call_list_dec(items) {
                Some(ts) => Some(Some(ts)),
                None => None,
            },
            Some(_) => None,
        };
        match (
            opt_str_field(v, "content"@),
            opt_str_field(v, "reasoning_content"@),
            role,
            tool_calls,
        ) {
            (Some(c), Some(rc), Some(ro), Some(tc)) => Some(
                DeltaV { content: c, reasoning_content: rc, role: ro, tool_calls: tc },
            ),
            _ => None,
        }
    }
}

impl Delta {
    pub fn from_json(v: &JsonValue) -> (r: Option<Delta>)
        ensures
            (r is Some) == (delta_dec(v@) is Some),
            r matches Some(x) ==> delta_dec(v@) == Some(x.deep_view()),
    {
        if !v.is_obj() {
            return None;
        }
        let content = match read_opt_str(v, "content") {
            Some(x) => x,
            None => {
                return None;
            },
        };
        let reasoning_content = match read_opt_str(v, "reasoning_content") {
            Some(x) => x,
            None => {
                return None;
            },
        };
        let role = match v.get("role") {
            None => None,
            Some(x) => match x {
                JsonValue::Null => None,
                _ => match Role::from_json(x) {
                    Some(ro) => Some(ro),
                    None => {
                        return None;
                    },
                },
            },
        };
        let tool_calls = match v.get("tool_calls") {
            None => None,
            Some(x) => match x {
                JsonValue::Null => None,
                JsonValue::Arr(items) => match delta_tool_calls_from_json(items) {
                    Some(ts) => Some(ts),
                    None => {
                        return None;
                    },
                },
                _ => {
                    return None;
                },
            },
        };
        Some(Delta { content, reasoning_content, role, tool_calls })
    }
}

/// One choice within a streaming chunk.
#[derive(Debug, PartialEq, Eq)]
pub struct ChunkChoice {
    pub index: u32,
    pub delta: Delta,
    pub finish_reason: Option<FinishReason>,
    /// Per-token log-probability detail, kept as its raw JSON subtree.
    pub logprobs: Option<JsonValue>,
}

pub struct ChunkChoiceV {
    pub index: u32,
    pub delta: DeltaV,
    pub finish_reason: Option<FinishReason>,
    pub logprobs: Option<JsonV>,
}

impl DeepView for ChunkChoice {
    type V = ChunkChoiceV;

    open spec fn deep_view(&self) -> ChunkChoiceV {
        ChunkChoiceV {
            index: self.index,
            delta: self.delta.deep_view(),
            finish_reason: self.finish_reason,
            logprobs: self.logprobs.deep_view(),
        }
    }
}

pub open spec fn chunk_choice_dec(v: JsonV) -> Option<ChunkChoiceV> {
    if !(v is Obj) {
        None
    } else {
        let finish_reason = match get_v(v, "finish_reason"@) {
            None => Some(None),
            Some(JsonV::Null) => Some(None),
            Some(fv) => match finish_reason_dec(fv) {
                Some(f) => Some(Some(f)),
                None => None,
            },
        };
        let logprobs = match get_v(v, "logprobs"@) {
            None => None,
            Some(JsonV::Null) => None,
            Some(x) => Some(x),
        };
        match (req_u32_field(v, "index"@), get_v(v, "delta"@), finish_reason) {
            (Some(ix), Some(dv), Some(f)) => match delta_dec(dv) {
                Some(d) => Some(
                    ChunkChoiceV {
                        index: ix,
                        delta: d,
                        finish_reason: f,
                        logprobs: logprobs,
                    },
                ),
                None => None,
            },
            _ => None,
        }
    }
}

impl ChunkChoice {
    pub fn from_json(v: &JsonValue) -> (r: Option<ChunkChoice>)
        ensures
            (r is Some) == (chunk_choice_dec(v@) is Some),
            r matches Some(x) ==> chunk_choice_dec(v@) == Some(x.deep_view()),
    {
        if !v.is_obj() {
            return None;
        }
        let index = match read_req_u32(v, "index") {
            Some(x) => x,
            None => {
                return None;
            },
        };
        let dv = match v.get("delta") {
            Some(x) => x,
            None => {
                return None;
            },
        };
        let delta = match Delta::from_json(dv) {
            Some(d) => d,
            None => {
                return None;
            },
        };
        let finish_reason = match v.get("finish_reason") {
            None => None,
            Some(x) => match x {
                JsonValue::Null => None,
                _ => match FinishReason::from_json(x) {
                    Some(f) => Some(f),
                    None => {
                        return None;
                    },
                },
            },
        };
        let logprobs = match v.get("logprobs") {
            None => None,
            Some(x) => match x {
                JsonValue::Null => None,
                _ => Some(crate::json::read::clone_json(x)),
            },
        };
        Some(ChunkChoice { index, delta, finish_reason, logprobs })
    }
}

/// Decoding of a whole chunk-choices array.
pub open spec fn chunk_choice_list_dec(s: Seq<JsonV>) -> Option<Seq<ChunkChoiceV>> {
    if forall|i: int| 0 <= i < s.len() ==> chunk_choice_dec(#[trigger] s[i]) is Some {
        Some(Seq::new(s.len(), |i: int| chunk_choice_dec(s[i])->Some_0))
    } else {
        None
    }
}

/// Decodes a list of chunk choices.
#[verifier::loop_isolation(false)]
fn chunk_choices_from_json(items: &Vec<JsonValue>) -> (r: Option<Vec<ChunkChoice>>)
    ensures
        (r is Some) == (chunk_choice_list_dec(jv_list(items@)) is Some),
        r matches Some(v) ==> chunk_choice_list_dec(jv_list(items@)) == Some(v.deep_view()),
{
    proof {
        lemma_jv_list_index(items@);
    }
    let ghost iv = jv_list(items@);
    let mut out: Vec<ChunkChoice> = Vec::new();
    let n = items.len();
    let mut i: usize = 0;
    while i < n
        invariant
            0 <= i <= n,
            n == items@.len(),
            out@.len() == i,
            forall|q: int| 0 <= q < i ==> chunk_choice_dec(#[trigger] iv[q]) is Some,
            forall|q: int|
                0 <= q < i ==> chunk_choice_dec(#[trigger] iv[q]) == Some(
                    out@[q].deep_view(),
                ),
        decreases n - i,
    {
        proof {
            assert(iv[i as int] == items@[i as int]@);
        }
        match ChunkChoice::from_json(&items[i]) {
            Some(c) => {
                proof {
                    assert(chunk_choice_dec(iv[i as int]) == Some(c.deep_view()));
                }
                out.push(c);
            },
            None => {
                proof {
                    assert(chunk_choice_dec(iv[i as int]) is None);
                }
                return None;
            },
        }
        i += 1;
    }
    proof {
        assert(Seq::new(iv.len(), |q: int| chunk_choice_dec(iv[q])->Some_0)
            =~= out.deep_view());
    }
    Some(out)
}

/// One streaming chunk of an in-progress response.
#[derive(Debug, PartialEq, Eq)]
pub struct ChatCompletionChunk {
    pub id: String,
    pub choices: Vec<ChunkChoice>,
    pub created: u64,
    pub model: String,
    pub system_fingerprint: String,
    pub object: ChunkObjectType,
    pub usage: Option<Usage>,
}

pub struct ChunkV {
    pub id: Seq<char>,
    pub choices: Seq<ChunkChoiceV>,
    pub created: u64,
    pub model: Seq<char>,
    pub system_fingerprint: Seq<char>,
    pub object: ChunkObjectType,
    pub usage: Option<Usage>,
}

impl DeepView for ChatCompletionChunk {
    type V = ChunkV;

    open spec fn deep_view(&self) -> ChunkV {
        ChunkV {
            id: self.id@,
            choices: self.choices.deep_view(),
            created: self.created,
            model: self.model@,
            system_fingerprint: self.system_fingerprint@,
            object: self.object,
            usage: self.usage,
        }
    }
}

/// Decoding of a chunk object.  A final end-of-generation accounting
/// chunk may carry `usage` with a null or absent `choices` member; both
/// read as the empty choice list.
pub open spec fn chunk_dec(v: JsonV) -> Option<ChunkV> {
    if !(v is Obj) {
        None
    } else {
        let choices = match get_v(v, "choices"@) {
            None => Some(Seq::<ChunkChoiceV>::empty()),
            Some(JsonV::Null) => Some(Seq::<ChunkChoiceV>::empty()),
            Some(JsonV::Arr(items)) => chunk_choice_list_dec(items),
            Some(_) => None,
        };
        let object = match get_v(v, "object"@) {
            Some(ov) => chunk_object_type_dec(ov),
            None => None,
        };
        let usage = match get_v(v, "usage"@) {
            None => Some(None),
            Some(JsonV::Null) => Some(None),
            Some(uv) => match usage_dec(uv) {
                Some(u) => Some(Some(u)),
                None => None,
            },
        };
        match (
            req_str_field(v, "id"@),
            choices,
            req_u64_field(v, "created"@),
            req_str_field(v, "model"@),
            req_str_field(v, "system_fingerprint"@),
            object,
            usage,
        ) {
            (Some(id), Some(cs), Some(created), Some(m), Some(fp), Some(ob), Some(us)) => Some(
                ChunkV {
                    id: id,
                    choices: cs,
                    created: created,
                    model: m,
                    system_fingerprint: fp,
                    object: ob,
                    usage: us,
                },
            ),
            _ => None,
        }
    }
}

/// Decoding a whole chunk from its text: parse, then decode.
pub open spec fn chunk_text_dec(s: Seq<char>) -> Option<ChunkV> {
    match crate::json::parse::parse_text(s) {
        Some(j) => chunk_dec(j),
        None => None,
    }
}

impl ChatCompletionChunk {
    /// Decodes a chunk from its wire object.
    pub fn from_json(v: &JsonValue) -> (r: Option<ChatCompletionChunk>)
        ensures
            (r is Some) == (chunk_dec(v@) is Some),
            r matches Some(x) ==> chunk_dec(v@) == Some(x.deep_view()),
    {
        if !v.is_obj() {
            return None;
        }
        let id = match read_req_str(v, "id") {
            Some(x) => x,
            None => {
                return None;
            },
        };
        let choices: Vec<ChunkChoice> = match v.get("choices") {
            None => Vec::new(),
            Some(x) => match x {
                JsonValue::Null => Vec::new(),
                JsonValue::Arr(items) => match chunk_choices_from_json(items) {
                    Some(cs) => cs,
                    None => {
                        return None;
                    },
                },
                _ => {
                    return None;
                },
            },
        };
        proof {
            assert(choices.deep_view() =~= (match get_v(v@, "choices"@) {
                None => Seq::<ChunkChoiceV>::empty(),
                Some(JsonV::Null) => Seq::<ChunkChoiceV>::empty(),
                Some(JsonV::Arr(items)) => chunk_choice_list_dec(items)->Some_0,
                Some(_) => Seq::<ChunkChoiceV>::empty(),
            }));
        }
        let created = match read_req_u64(v, "created") {
            Some(x) => x,
            None => {
                return None;
            },
        };
        let model = match read_req_str(v, "model") {
            Some(x) => x,
            None => {
                return None;
            },
        };
        let system_fingerprint = match read_req_str(v, "system_fingerprint") {
            Some(x) => x,
            None => {
                return None;
            },
        };
        let object = match v.get("object") {
            Some(ov) => match ChunkObjectType::from_json(ov) {
                Some(o) => o,
                None => {
                    return None;
                },
            },
            None => {
                return None;
            },
        };
        let usage = match v.get("usage") {
            None => None,
            Some(x) => match x {
                JsonValue::Null => None,
                _ => match crate::raw::response::Usage::from_json(x) {
                    Some(u) => Some(u),
                    None => {
                        return None;
                    },
                },
            },
        };
        Some(
            ChatCompletionChunk {
                id,
                choices,
                created,
                model,
                system_fingerprint,
                object,
                usage,
            },
        )
    }
}

} // verus!
