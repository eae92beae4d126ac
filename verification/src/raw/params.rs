//! Generation-parameter types of the request envelope: the model variant,
//! thinking mode, response format, stop sequences, stream options, tools
//! and the tool-choice policy, each with its wire encoder and decoder.

use vstd::prelude::*;

use crate::json::field::opt_bool_field;
use crate::json::field::opt_str_field;
use crate::json::field::read_opt_bool;
use crate::json::field::read_opt_str;
use crate::json::field::read_req_str;
use crate::json::field::req_str_field;
use crate::json::value::get_v;
use crate::json::value::jv_list;
use crate::json::value::jv_members;
use crate::json::value::lemma_jv_list_index;
use crate::json::value::lemma_jv_members_index;
use crate::json::value::lemma_lookup_single;
use crate::json::value::lookup_v;
use crate::json::value::str_eq;
use crate::json::value::JsonV;
use crate::json::value::JsonValue;
use crate::raw::request::tool_type_dec;
use crate::raw::request::tool_type_enc;
use crate::raw::request::ToolType;

verus! {

/// The model variant a request selects.
#[derive(Debug, Clone, Copy, PartialEq, Eq)]
pub enum Model {
    DeepseekChat,
    DeepseekReasoner,
}

impl Default for Model {
    fn default() -> (r: Self)
        ensures
            r == Model::DeepseekChat,
    {
        Model::DeepseekChat
    }
}

impl DeepView for Model {
    type V = Model;

    open spec fn deep_view(&self) -> Model {
        *self
    }
}

pub open spec fn model_enc(m: Model) -> JsonV {
    match m {
        Model::DeepseekChat => JsonV::Str("deepseek-chat"@),
        Model::DeepseekReasoner => JsonV::Str("deepseek-reasoner"@),
    }
}

pub open spec fn model_dec(v: JsonV) -> Option<Model> {
    match v {
        JsonV::Str(t) => if t == "deepseek-chat"@ {
            Some(Model::DeepseekChat)
        } else if t == "deepseek-reasoner"@ {
            Some(Model::DeepseekReasoner)
        } else {
            None
        },
        _ => None,
    }
}

pub proof fn lemma_model_round_trip(m: Model)
    ensures
        model_dec(model_enc(m)) == Some(m),
{
    reveal_strlit("deepseek-chat");
    reveal_strlit("deepseek-reasoner");
    assert("deepseek-chat"@.len() == 13 && "deepseek-reasoner"@.len() == 17);
    assert("deepseek-reasoner"@ != "deepseek-chat"@);
}

impl Model {
    pub fn to_json(&self) -> (r: JsonValue)
        ensures
            r@ == model_enc(*self),
    {
        match self {
            Model::DeepseekChat => JsonValue::Str("deepseek-chat".to_owned()),
            Model::DeepseekReasoner => JsonValue::Str("deepseek-reasoner".to_owned()),
        }
    }

    pub fn from_json(v: &JsonValue) -> (r: Option<Model>)
        ensures
            r == model_dec(v@),
    {
        match v {
            JsonValue::Str(s) => {
                if str_eq(s.as_str(), "deepseek-chat") {
                    Some(Model::DeepseekChat)
                } else if str_eq(s.as_str(), "deepseek-reasoner") {
                    Some(Model::DeepseekReasoner)
                } else {
                    None
                }
            },
            _ => None,
        }
    }
}

/// Whether the reasoning-capable model runs in thinking mode.
#[derive(Debug, Clone, Copy, PartialEq, Eq)]
pub enum ThinkingType {
    Disabled,
    Enabled,
}

impl DeepView for ThinkingType {
    type V = ThinkingType;

    open spec fn deep_view(&self) -> ThinkingType {
        *self
    }
}

pub open spec fn thinking_type_enc(t: ThinkingType) -> JsonV {
    match t {
        ThinkingType::Disabled => JsonV::Str("disabled"@),
        ThinkingType::Enabled => JsonV::Str("enabled"@),
    }
}

pub open spec fn thinking_type_dec(v: JsonV) -> Option<ThinkingType> {
    match v {
        JsonV::Str(t) => if t == "disabled"@ {
            Some(ThinkingType::Disabled)
        } else if t == "enabled"@ {
            Some(ThinkingType::Enabled)
        } else {
            None
        },
        _ => None,
    }
}

/// The thinking-mode switch, only meaningful for the reasoning model.
#[derive(Debug, Clone, Copy, PartialEq, Eq)]
pub struct Thinking {
    /// The wire field `type`.
    pub kind: ThinkingType,
}

impl DeepView for Thinking {
    type V = Thinking;

    open spec fn deep_view(&self) -> Thinking {
        *self
    }
}

pub open spec fn thinking_enc(t: Thinking) -> JsonV {
    JsonV::Obj(seq![("type"@, thinking_type_enc(t.kind))])
}

pub open spec fn thinking_dec(v: JsonV) -> Option<Thinking> {
    if !(v is Obj) {
        None
    } else {
        match get_v(v, "type"@) {
            Some(tv) => match thinking_type_dec(tv) {
                Some(t) => Some(Thinking { kind: t }),
                None => None,
            },
            None => None,
        }
    }
}

pub proof fn lemma_thinking_round_trip(t: Thinking)
    ensures
        thinking_dec(thinking_enc(t)) == Some(t),
{
    reveal_strlit("disabled");
    reveal_strlit("enabled");
    assert("disabled"@.len() == 8 && "enabled"@.len() == 7);
    assert("enabled"@ != "disabled"@);
    lemma_lookup_single("type"@, thinking_type_enc(t.kind), "type"@);
}

impl Thinking {
    pub fn to_json(&self) -> (r: JsonValue)
        ensures
            r@ == thinking_enc(*self),
    {
        let tv = match self.kind {
            ThinkingType::Disabled => JsonValue::Str("disabled".to_owned()),
            ThinkingType::Enabled => JsonValue::Str("enabled".to_owned()),
        };
        let mut members: Vec<(String, JsonValue)> = Vec::new();
        members.push(("type".to_owned(), tv));
        proof {
            lemma_jv_members_index(members@);
            assert(jv_members(members@) =~= seq![("type"@, thinking_type_enc(self.kind))]);
        }
        JsonValue::Obj(members)
    }

    pub fn from_json(v: &JsonValue) -> (r: Option<Thinking>)
        ensures
            r == thinking_dec(v@),
    {
        if !v.is_obj() {
            return None;
        }
        match v.get("type") {
            Some(x) => match x {
                JsonValue::Str(s) => {
                    if str_eq(s.as_str(), "disabled") {
                        Some(Thinking { kind: ThinkingType::Disabled })
                    } else if str_eq(s.as_str(), "enabled") {
                        Some(Thinking { kind: ThinkingType::Enabled })
                    } else {
                        None
                    }
                },
                _ => None,
            },
            None => None,
        }
    }
}

/// The response-format mode.
#[derive(Debug, Clone, Copy, PartialEq, Eq)]
pub enum ResponseFormatType {
    Text,
    JsonObject,
}

impl DeepView for ResponseFormatType {
    type V = ResponseFormatType;

    open spec fn deep_view(&self) -> ResponseFormatType {
        *self
    }
}

pub open spec fn response_format_type_enc(t: ResponseFormatType) -> JsonV {
    match t {
        ResponseFormatType::Text => JsonV::Str("text"@),
        ResponseFormatType::JsonObject => JsonV::Str("json_object"@),
    }
}

pub open spec fn response_format_type_dec(v: JsonV) -> Option<ResponseFormatType> {
    match v {
        JsonV::Str(t) => if t == "text"@ {
            Some(ResponseFormatType::Text)
        } else if t == "json_object"@ {
            Some(ResponseFormatType::JsonObject)
        } else {
            None
        },
        _ => None,
    }
}

/// The response-format object of a request.
#[derive(Debug, Clone, Copy, PartialEq, Eq)]
pub struct ResponseFormat {
    /// The wire field `type`.
    pub kind: ResponseFormatType,
}

impl DeepView for ResponseFormat {
    type V = ResponseFormat;

    open spec fn deep_view(&self) -> ResponseFormat {
        *self
    }
}

pub open spec fn response_format_enc(f: ResponseFormat) -> JsonV {
    JsonV::Obj(seq![("type"@, response_format_type_enc(f.kind))])
}

pub open spec fn response_format_dec(v: JsonV) -> Option<ResponseFormat> {
    if !(v is Obj) {
        None
    } else {
        match get_v(v, "type"@) {
            Some(tv) => match response_format_type_dec(tv) {
                Some(t) => Some(ResponseFormat { kind: t }),
                None => None,
            },
            None => None,
        }
    }
}

pub proof fn lemma_response_format_round_trip(f: ResponseFormat)
    ensures
        response_format_dec(response_format_enc(f)) == Some(f),
{
    reveal_strlit("text");
    reveal_strlit("json_object");
    assert("text"@.len() == 4 && "json_object"@.len() == 11);
    assert("json_object"@ != "text"@);
    lemma_lookup_single("type"@, response_format_type_enc(f.kind), "type"@);
}

impl ResponseFormat {
    pub fn to_json(&self) -> (r: JsonValue)
        ensures
            r@ == response_format_enc(*self),
    {
        let tv = match self.kind {
            ResponseFormatType::Text => JsonValue::Str("text".to_owned()),
            ResponseFormatType::JsonObject => JsonValue::Str("json_object".to_owned()),
        };
        let mut members: Vec<(String, JsonValue)> = Vec::new();
        members.push(("type".to_owned(), tv));
        proof {
            lemma_jv_members_index(members@);
            assert(jv_members(members@) =~= seq![
                ("type"@, response_format_type_enc(self.kind)),
            ]);
        }
        JsonValue::Obj(members)
    }

    pub fn from_json(v: &JsonValue) -> (r: Option<ResponseFormat>)
        ensures
            r == response_format_dec(v@),
    {
        if !v.is_obj() {
            return None;
        }
        match v.get("type") {
            Some(x) => match x {
                JsonValue::Str(s) => {
                    if str_eq(s.as_str(), "text") {
                        Some(ResponseFormat { kind: ResponseFormatType::Text })
                    } else if str_eq(s.as_str(), "json_object") {
                        Some(ResponseFormat { kind: ResponseFormatType::JsonObject })
                    } else {
                        None
                    }
                },
                _ => None,
            },
            None => None,
        }
    }
}

/// Options of the streaming mode.
#[derive(Debug, Clone, Copy, PartialEq, Eq)]
pub struct StreamOptions {
    pub include_usage: bool,
}

impl DeepView for StreamOptions {
    type V = StreamOptions;

    open spec fn deep_view(&self) -> StreamOptions {
        *self
    }
}

pub open spec fn stream_options_enc(o: StreamOptions) -> JsonV {
    JsonV::Obj(seq![("include_usage"@, JsonV::Bool(o.include_usage))])
}

pub open spec fn stream_options_dec(v: JsonV) -> Option<StreamOptions> {
    if !(v is Obj) {
        None
    } else {
        match get_v(v, "include_usage"@) {
            Some(JsonV::Bool(b)) => Some(StreamOptions { include_usage: b }),
            _ => None,
        }
    }
}

pub proof fn lemma_stream_options_round_trip(o: StreamOptions)
    ensures
        stream_options_dec(stream_options_enc(o)) == Some(o),
{
    lemma_lookup_single("include_usage"@, JsonV::Bool(o.include_usage), "include_usage"@);
}

impl StreamOptions {
    pub fn to_json(&self) -> (r: JsonValue)
        ensures
            r@ == stream_options_enc(*self),
    {
        let mut members: Vec<(String, JsonValue)> = Vec::new();
        members.push(("include_usage".to_owned(), JsonValue::Bool(self.include_usage)));
        proof {
            lemma_jv_members_index(members@);
            assert(jv_members(members@) =~= seq![
                ("include_usage"@, JsonV::Bool(self.include_usage)),
            ]);
        }
        JsonValue::Obj(members)
    }

    pub fn from_json(v: &JsonValue) -> (r: Option<StreamOptions>)
        ensures
            r == stream_options_dec(v@),
    {
        if !v.is_obj() {
            return None;
        }
        match v.get("include_usage") {
            Some(x) => match x {
                JsonValue::Bool(b) => Some(StreamOptions { include_usage: *b }),
                _ => None,
            },
            None => None,
        }
    }
}

/// Stop sequences: on the wire either one bare string or a bare array of
/// strings; the shape itself is the tag.
#[derive(Debug, PartialEq, Eq)]
pub enum Stop {
    /// One stop sequence, written as a bare string.
    Text(String),
    /// Several stop sequences, written as a bare array.
    List(Vec<String>),
}

pub enum StopV {
    Text(Seq<char>),
    List(Seq<Seq<char>>),
}

impl DeepView for Stop {
    type V = StopV;

    open spec fn deep_view(&self) -> StopV {
        match self {
            Stop::Text(s) => StopV::Text(s@),
            Stop::List(v) => StopV::List(v.deep_view()),
        }
    }
}

impl Clone for Stop {
    fn clone(&self) -> (r: Self)
        ensures
            r.deep_view() == self.deep_view(),
    {
        match self {
            Stop::Text(s) => Stop::Text(s.clone()),
            Stop::List(v) => {
                let mut out: Vec<String> = Vec::new();
                let n = v.len();
                let mut i: usize = 0;
                while i < n
                    invariant
                        0 <= i <= n,
                        n == v@.len(),
                        out@ == v@.take(i as int),
                    decreases n - i,
                {
                    out.push(v[i].clone());
                    proof {
                        assert(v@.take(i as int).push(v@[i as int]) =~= v@.take(
                            i as int + 1,
                        ));
                    }
                    i += 1;
                }
                proof {
                    assert(v@.take(n as int) =~= v@);
                    assert(out.deep_view() =~= v.deep_view());
                }
                Stop::List(out)
            },
        }
    }
}

pub open spec fn str_list_enc(s: Seq<Seq<char>>) -> Seq<JsonV> {
    Seq::new(s.len(), |i: int| JsonV::Str(s[i]))
}

/// Decoding of an array of strings: every element must be a string.
pub open spec fn str_list_dec(s: Seq<JsonV>) -> Option<Seq<Seq<char>>> {
    if forall|i: int| 0 <= i < s.len() ==> (#[trigger] s[i]) is Str {
        Some(Seq::new(s.len(), |i: int| s[i]->Str_0))
    } else {
        None
    }
}

pub open spec fn stop_enc(s: StopV) -> JsonV {
    match s {
        StopV::Text(t) => JsonV::Str(t),
        StopV::List(ts) => JsonV::Arr(str_list_enc(ts)),
    }
}

/// The shape of the node decides the variant: a bare string or a bare
/// array of strings.
pub open spec fn stop_dec(v: JsonV) -> Option<StopV> {
    match v {
        JsonV::Str(t) => Some(StopV::Text(t)),
        JsonV::Arr(items) => match str_list_dec(items) {
            Some(ts) => Some(StopV::List(ts)),
            None => None,
        },
        _ => None,
    }
}

/// The stop field reads back in the same shape it was written with.
pub proof fn lemma_stop_round_trip(s: StopV)
    ensures
        stop_dec(stop_enc(s)) == Some(s),
{
    match s {
        StopV::Text(t) => {},
        StopV::List(ts) => {
            let e = str_list_enc(ts);
            assert(forall|i: int| 0 <= i < e.len() ==> (#[trigger] e[i]) is Str);
            assert(Seq::new(e.len(), |i: int| e[i]->Str_0) =~= ts);
        },
    }
}

impl Stop {
    pub fn to_json(&self) -> (r: JsonValue)
        ensures
            r@ == stop_enc(self.deep_view()),
    {
        match self {
            Stop::Text(s) => JsonValue::Str(s.clone()),
            Stop::List(v) => {
                let mut out: Vec<JsonValue> = Vec::new();
                let n = v.len();
                let mut i: usize = 0;
                while i < n
                    invariant
                        0 <= i <= n,
                        n == v@.len(),
                        out@.len() == i,
                        forall|q: int|
                            0 <= q < i ==> out@[q]@ == JsonV::Str(v@[q]@),
                    decreases n - i,
                {
                    out.push(JsonValue::Str(v[i].clone()));
                    i += 1;
                }
                proof {
                    lemma_jv_list_index(out@);
                    assert(jv_list(out@) =~= str_list_enc(v.deep_view()));
                }
                JsonValue::Arr(out)
            },
        }
    }

    #[verifier::loop_isolation(false)]
    pub fn from_json(v: &JsonValue) -> (r: Option<Stop>)
        ensures
            (r is Some) == (stop_dec(v@) is Some),
            r matches Some(s) ==> stop_dec(v@) == Some(s.deep_view()),
    {
        match v {
            JsonValue::Str(s) => Some(Stop::Text(s.clone())),
            JsonValue::Arr(items) => {
                proof {
                    lemma_jv_list_index(items@);
                }
                let ghost iv = jv_list(items@);
                let mut out: Vec<String> = Vec::new();
                let n = items.len();
                let mut i: usize = 0;
                while i < n
                    invariant
                        0 <= i <= n,
                        n == items@.len(),
                        iv == jv_list(items@),
                        iv.len() == n,
                        forall|q: int| 0 <= q < n ==> iv[q] == items@[q]@,
                        out@.len() == i,
                        forall|q: int| 0 <= q < i ==> (#[trigger] iv[q]) is Str,
                        forall|q: int| 0 <= q < i ==> iv[q]->Str_0 == out@[q]@,
                    decreases n - i,
                {
                    match &items[i] {
                        JsonValue::Str(s) => {
                            out.push(s.clone());
                        },
                        _ => {
                            proof {
                                assert(!(iv[i as int] is Str));
                            }
                            return None;
                        },
                    }
                    i += 1;
                }
                proof {
                    assert(Seq::new(iv.len(), |q: int| iv[q]->Str_0) =~= out.deep_view());
                }
                Some(Stop::List(out))
            },
            _ => None,
        }
    }
}

/// A tool the model may call.
#[derive(Debug, PartialEq, Eq)]
pub struct Tool {
    /// The wire field `type`.
    pub kind: ToolType,
    pub function: Function,
}

/// A function made available to the model: its name, an optional
/// description, a JSON-schema parameter object, and the strict switch.
#[derive(Debug, PartialEq, Eq)]
pub struct Function {
    pub name: String,
    pub description: Option<String>,
    pub parameters: JsonValue,
    pub strict: Option<bool>,
}

pub struct ToolV {
    pub kind: ToolType,
    pub function: FunctionV,
}

pub struct FunctionV {
    pub name: Seq<char>,
    pub description: Option<Seq<char>>,
    pub parameters: JsonV,
    pub strict: Option<bool>,
}

impl DeepView for Tool {
    type V = ToolV;

    open spec fn deep_view(&self) -> ToolV {
        ToolV { kind: self.kind, function: self.function.deep_view() }
    }
}

impl DeepView for Function {
    type V = FunctionV;

    open spec fn deep_view(&self) -> FunctionV {
        FunctionV {
            name: self.name@,
            description: self.description.deep_view(),
            parameters: self.parameters@,
            strict: self.strict,
        }
    }
}

pub open spec fn function_enc(f: FunctionV) -> JsonV {
    JsonV::Obj(
        seq![("name"@, JsonV::Str(f.name))] + crate::raw::request::opt_str_member(
            "description"@,
            f.description,
        ) + seq![("parameters"@, f.parameters)] + crate::raw::request::opt_bool_member(
            "strict"@,
            f.strict,
        ),
    )
}

pub open spec fn function_dec(v: JsonV) -> Option<FunctionV> {
    if !(v is Obj) {
        None
    } else {
        match (
            req_str_field(v, "name"@),
            opt_str_field(v, "description"@),
            get_v(v, "parameters"@),
            opt_bool_field(v, "strict"@),
        ) {
            (Some(n), Some(d), Some(p), Some(st)) => Some(
                FunctionV { name: n, description: d, parameters: p, strict: st },
            ),
            _ => None,
        }
    }
}

impl Function {
    pub fn to_json(&self) -> (r: JsonValue)
        ensures
            r@ == function_enc(self.deep_view()),
    {
        let mut members: Vec<(String, JsonValue)> = Vec::new();
        members.push(("name".to_owned(), JsonValue::Str(self.name.clone())));
        match &self.description {
            Some(s) => {
                members.push(("description".to_owned(), JsonValue::Str(s.clone())));
            },
            None => {},
        }
        members.push(("parameters".to_owned(), crate::json::read::clone_json(
            &self.parameters,
        )));
        match &self.strict {
            Some(b) => {
                members.push(("strict".to_owned(), JsonValue::Bool(*b)));
            },
            None => {},
        }
        proof {
            lemma_jv_members_index(members@);
            assert(jv_members(members@) =~= seq![("name"@, JsonV::Str(self.name@))]
                + crate::raw::request::opt_str_member(
                "description"@,
                self.description.deep_view(),
            ) + seq![("parameters"@, self.parameters@)]
                + crate::raw::request::opt_bool_member("strict"@, self.strict));
        }
        JsonValue::Obj(members)
    }

    pub fn from_json(v: &JsonValue) -> (r: Option<Function>)
        ensures
            (r is Some) == (function_dec(v@) is Some),
            r matches Some(f) ==> function_dec(v@) == Some(f.deep_view()),
    {
        if !v.is_obj() {
            return None;
        }
        let name = match read_req_str(v, "name") {
            Some(x) => x,
            None => {
                return None;
            },
        };
        let description = match read_opt_str(v, "description") {
            Some(x) => x,
            None => {
                return None;
            },
        };
        let parameters = match v.get("parameters") {
            Some(x) => crate::json::read::clone_json(x),
            None => {
                return None;
            },
        };
        let strict = match read_opt_bool(v, "strict") {
            Some(x) => x,
            None => {
                return None;
            },
        };
        Some(Function { name, description, parameters, strict })
    }
}

pub open spec fn tool_enc(t: ToolV) -> JsonV {
    JsonV::Obj(seq![("type"@, tool_type_enc(t.kind)), ("function"@, function_enc(t.function))])
}

pub open spec fn tool_dec(v: JsonV) -> Option<ToolV> {
    if !(v is Obj) {
        None
    } else {
        match (get_v(v, "type"@), get_v(v, "function"@)) {
            (Some(tv), Some(fv)) => match (tool_type_dec(tv), function_dec(fv)) {
                (Some(t), Some(f)) => Some(ToolV { kind: t, function: f }),
                _ => None,
            },
            _ => None,
        }
    }
}

impl Tool {
    pub fn to_json(&self) -> (r: JsonValue)
        ensures
            r@ == tool_enc(self.deep_view()),
    {
        let mut members: Vec<(String, JsonValue)> = Vec::new();
        members.push(("type".to_owned(), self.kind.to_json()));
        members.push(("function".to_owned(), self.function.to_json()));
        proof {
            lemma_jv_members_index(members@);
            assert(jv_members(members@) =~= seq![
                ("type"@, tool_type_enc(self.kind)),
                ("function"@, function_enc(self.function.deep_view())),
            ]);
        }
        JsonValue::Obj(members)
    }

    pub fn from_json(v: &JsonValue) -> (r: Option<Tool>)
        ensures
            (r is Some) == (tool_dec(v@) is Some),
            r matches Some(t) ==> tool_dec(v@) == Some(t.deep_view()),
    {
        if !v.is_obj() {
            return None;
        }
        let tv = match v.get("type") {
            Some(x) => x,
            None => {
                return None;
            },
        };
        let fv = match v.get("function") {
            Some(x) => x,
            None => {
                return None;
            },
        };
        let kind = match ToolType::from_json(tv) {
            Some(x) => x,
            None => {
                return None;
            },
        };
        let function = match Function::from_json(fv) {
            Some(x) => x,
            None => {
                return None;
            },
        };
        Some(Tool { kind, function })
    }
}

/// Decoding of a whole array of tools: every element must decode.
pub open spec fn tool_list_dec(s: Seq<JsonV>) -> Option<Seq<ToolV>> {
    if forall|i: int| 0 <= i < s.len() ==> tool_dec(#[trigger] s[i]) is Some {
        Some(Seq::new(s.len(), |i: int| tool_dec(s[i])->Some_0))
    } else {
        None
    }
}

pub open spec fn tool_list_enc(s: Seq<ToolV>) -> Seq<JsonV> {
    Seq::new(s.len(), |i: int| tool_enc(s[i]))
}

/// Encodes a list of tools.
#[verifier::loop_isolation(false)]
pub fn tools_to_json(ts: &Vec<Tool>) -> (r: JsonValue)
    ensures
        r@ == JsonV::Arr(tool_list_enc(ts.deep_view())),
{
    let mut out: Vec<JsonValue> = Vec::new();
    let n = ts.len();
    let mut i: usize = 0;
    while i < n
        invariant
            0 <= i <= n,
            n == ts@.len(),
            out@.len() == i,
            forall|q: int| 0 <= q < i ==> out@[q]@ == tool_enc(ts@[q].deep_view()),
        decreases n - i,
    {
        out.push(ts[i].to_json());
        i += 1;
    }
    proof {
        lemma_jv_list_index(out@);
        assert(jv_list(out@) =~= tool_list_enc(ts.deep_view()));
    }
    JsonValue::Arr(out)
}

/// Decodes a list of tools.
#[verifier::loop_isolation(false)]
pub fn tools_from_json(items: &Vec<JsonValue>) -> (r: Option<Vec<Tool>>)
    ensures
        (r is Some) == (tool_list_dec(jv_list(items@)) is Some),
        r matches Some(v) ==> tool_list_dec(jv_list(items@)) == Some(v.deep_view()),
{
    proof {
        lemma_jv_list_index(items@);
    }
    let ghost iv = jv_list(items@);
    let mut out: Vec<Tool> = Vec::new();
    let n = items.len();
    let mut i: usize = 0;
    while i < n
        invariant
            0 <= i <= n,
            n == items@.len(),
            out@.len() == i,
            forall|q: int| 0 <= q < i ==> tool_dec(#[trigger] iv[q]) is Some,
            forall|q: int|
                0 <= q < i ==> tool_dec(#[trigger] iv[q]) == Some(out@[q].deep_view()),
        decreases n - i,
    {
        proof {
            assert(iv[i as int] == items@[i as int]@);
        }
        match Tool::from_json(&items[i]) {
            Some(t) => {
                proof {
                    assert(tool_dec(iv[i as int]) == Some(t.deep_view()));
                }
                out.push(t);
            },
            None => {
                proof {
                    assert(tool_dec(iv[i as int]) is None);
                }
                return None;
            },
        }
        i += 1;
    }
    proof {
        assert(Seq::new(iv.len(), |q: int| tool_dec(iv[q])->Some_0) =~= out.deep_view());
    }
    Some(out)
}

/// The token form of the tool-choice policy.
#[derive(Debug, Clone, Copy, PartialEq, Eq)]
pub enum ToolChoiceType {
    /// The wire token `none`: the model calls no tool.
    NoTool,
    /// The wire token `auto`.
    Auto,
    /// The wire token `required`.
    Required,
}

impl DeepView for ToolChoiceType {
    type V = ToolChoiceType;

    open spec fn deep_view(&self) -> ToolChoiceType {
        *self
    }
}

pub open spec fn tool_choice_type_enc(t: ToolChoiceType) -> JsonV {
    match t {
        ToolChoiceType::NoTool => JsonV::Str("none"@),
        ToolChoiceType::Auto => JsonV::Str("auto"@),
        ToolChoiceType::Required => JsonV::Str("required"@),
    }
}

pub open spec fn tool_choice_type_dec(v: JsonV) -> Option<ToolChoiceType> {
    match v {
        JsonV::Str(t) => if t == "none"@ {
            Some(ToolChoiceType::NoTool)
        } else if t == "auto"@ {
            Some(ToolChoiceType::Auto)
        } else if t == "required"@ {
            Some(ToolChoiceType::Required)
        } else {
            None
        },
        _ => None,
    }
}

/// The name of one function the model is forced to call.
#[derive(Debug, PartialEq, Eq)]
pub struct FunctionName {
    pub name: String,
}

pub struct FunctionNameV {
    pub name: Seq<char>,
}

impl DeepView for FunctionName {
    type V = FunctionNameV;

    open spec fn deep_view(&self) -> FunctionNameV {
        FunctionNameV { name: self.name@ }
    }
}

/// The object form of the tool-choice policy: one named function.
#[derive(Debug, PartialEq, Eq)]
pub struct ToolChoiceObject {
    /// The wire field `type`.
    pub kind: ToolType,
    pub function: FunctionName,
}

pub struct ToolChoiceObjectV {
    pub kind: ToolType,
    pub function: FunctionNameV,
}

impl DeepView for ToolChoiceObject {
    type V = ToolChoiceObjectV;

    open spec fn deep_view(&self) -> ToolChoiceObjectV {
        ToolChoiceObjectV { kind: self.kind, function: self.function.deep_view() }
    }
}

/// The tool-choice policy: on the wire either a bare token or an object
/// naming one function; the shape itself is the tag.
#[derive(Debug, PartialEq, Eq)]
pub enum ToolChoice {
    /// The bare-token form.
    Mode(ToolChoiceType),
    /// The object form.
    Named(ToolChoiceObject),
}

pub enum ToolChoiceV {
    Mode(ToolChoiceType),
    Named(ToolChoiceObjectV),
}

impl DeepView for ToolChoice {
    type V = ToolChoiceV;

    open spec fn deep_view(&self) -> ToolChoiceV {
        match self {
            ToolChoice::Mode(t) => ToolChoiceV::Mode(*t),
            ToolChoice::Named(o) => ToolChoiceV::Named(o.deep_view()),
        }
    }
}

pub open spec fn function_name_enc(f: FunctionNameV) -> JsonV {
    JsonV::Obj(seq![("name"@, JsonV::Str(f.name))])
}

pub open spec fn function_name_dec(v: JsonV) -> Option<FunctionNameV> {
    if !(v is Obj) {
        None
    } else {
        match req_str_field(v, "name"@) {
            Some(n) => Some(FunctionNameV { name: n }),
            None => None,
        }
    }
}

pub open spec fn tool_choice_object_enc(o: ToolChoiceObjectV) -> JsonV {
    JsonV::Obj(
        seq![("type"@, tool_type_enc(o.kind)), ("function"@, function_name_enc(o.function))],
    )
}

pub open spec fn tool_choice_object_dec(v: JsonV) -> Option<ToolChoiceObjectV> {
    if !(v is Obj) {
        None
    } else {
        match (get_v(v, "type"@), get_v(v, "function"@)) {
            (Some(tv), Some(fv)) => match (tool_type_dec(tv), function_name_dec(fv)) {
                (Some(t), Some(f)) => Some(ToolChoiceObjectV { kind: t, function: f }),
                _ => None,
            },
            _ => None,
        }
    }
}

pub open spec fn tool_choice_enc(c: ToolChoiceV) -> JsonV {
    match c {
        ToolChoiceV::Mode(t) => tool_choice_type_enc(t),
        ToolChoiceV::Named(o) => tool_choice_object_enc(o),
    }
}

/// The shape of the node decides the variant: a bare token string or an
/// object naming a function.
pub open spec fn tool_choice_dec(v: JsonV) -> Option<ToolChoiceV> {
    match v {
        JsonV::Str(_) => match tool_choice_type_dec(v) {
            Some(t) => Some(ToolChoiceV::Mode(t)),
            None => None,
        },
        JsonV::Obj(_) => match tool_choice_object_dec(v) {
            Some(o) => Some(ToolChoiceV::Named(o)),
            None => None,
        },
        _ => None,
    }
}

impl ToolChoice {
    pub fn to_json(&self) -> (r: JsonValue)
        ensures
            r@ == tool_choice_enc(self.deep_view()),
    {
        match self {
            ToolChoice::Mode(t) => match t {
                ToolChoiceType::NoTool => JsonValue::Str("none".to_owned()),
                ToolChoiceType::Auto => JsonValue::Str("auto".to_owned()),
                ToolChoiceType::Required => JsonValue::Str("required".to_owned()),
            },
            ToolChoice::Named(o) => {
                let mut fm: Vec<(String, JsonValue)> = Vec::new();
                fm.push(("name".to_owned(), JsonValue::Str(o.function.name.clone())));
                proof {
                    lemma_jv_members_index(fm@);
                    assert(jv_members(fm@) =~= seq![("name"@, JsonV::Str(o.function.name@))]);
                }
                let fobj = JsonValue::Obj(fm);
                let mut members: Vec<(String, JsonValue)> = Vec::new();
                members.push(("type".to_owned(), JsonValue::Str("function".to_owned())));
                members.push(("function".to_owned(), fobj));
                proof {
                    lemma_jv_members_index(members@);
                    assert(jv_members(members@) =~= seq![
                        ("type"@, tool_type_enc(o.kind)),
                        ("function"@, function_name_enc(o.function.deep_view())),
                    ]);
                }
                JsonValue::Obj(members)
            },
        }
    }

    pub fn from_json(v: &JsonValue) -> (r: Option<ToolChoice>)
        ensures
            (r is Some) == (tool_choice_dec(v@) is Some),
            r matches Some(c) ==> tool_choice_dec(v@) == Some(c.deep_view()),
    {
        match v {
            JsonValue::Str(s) => {
                if str_eq(s.as_str(), "none") {
                    Some(ToolChoice::Mode(ToolChoiceType::NoTool))
                } else if str_eq(s.as_str(), "auto") {
                    Some(ToolChoice::Mode(ToolChoiceType::Auto))
                } else if str_eq(s.as_str(), "required") {
                    Some(ToolChoice::Mode(ToolChoiceType::Required))
                } else {
                    None
                }
            },
            JsonValue::Obj(_) => {
                let tv = match v.get("type") {
                    Some(x) => x,
                    None => {
                        return None;
                    },
                };
                let kind = match ToolType::from_json(tv) {
                    Some(x) => x,
                    None => {
                        return None;
                    },
                };
                let fv = match v.get("function") {
                    Some(x) => x,
                    None => {
                        return None;
                    },
                };
                if !fv.is_obj() {
                    return None;
                }
                let name = match read_req_str(fv, "name") {
                    Some(x) => x,
                    None => {
                        return None;
                    },
                };
                Some(
                    ToolChoice::Named(
                        ToolChoiceObject { kind, function: FunctionName { name } },
                    ),
                )
            },
            _ => None,
        }
    }
}

} // verus!

verus! {

/// What a lookup in a function's wire object yields, by key.
spec fn function_field(f: FunctionV, q: Seq<char>) -> Option<JsonV> {
    if q == "name"@ {
        Some(JsonV::Str(f.name))
    } else if q == "description"@ {
        match f.description {
            Some(t) => Some(JsonV::Str(t)),
            None => None,
        }
    } else if q == "parameters"@ {
        Some(f.parameters)
    } else if q == "strict"@ {
        match f.strict {
            Some(b) => Some(JsonV::Bool(b)),
            None => None,
        }
    } else {
        None
    }
}

proof fn lemma_function_lookup(f: FunctionV, q: Seq<char>)
    ensures
        lookup_v(function_enc(f)->Obj_0, q) == function_field(f, q),
{
    reveal_strlit("name");
    reveal_strlit("description");
    reveal_strlit("parameters");
    reveal_strlit("strict");
    assert("name"@.len() == 4 && "description"@.len() == 11 && "parameters"@.len() == 10
        && "strict"@.len() == 6);
    let a = seq![("name"@, JsonV::Str(f.name))];
    let b = crate::raw::request::opt_str_member("description"@, f.description);
    let c = seq![("parameters"@, f.parameters)];
    let d = crate::raw::request::opt_bool_member("strict"@, f.strict);
    lemma_lookup_single("name"@, JsonV::Str(f.name), q);
    match f.description {
        Some(t) => {
            lemma_lookup_single("description"@, JsonV::Str(t), q);
        },
        None => {
            assert(lookup_v(b, q) is None);
        },
    }
    lemma_lookup_single("parameters"@, f.parameters, q);
    match f.strict {
        Some(x) => {
            lemma_lookup_single("strict"@, JsonV::Bool(x), q);
        },
        None => {
            assert(lookup_v(d, q) is None);
        },
    }
    let s1 = a + b;
    let s2 = s1 + c;
    crate::json::value::lemma_lookup_append(a, b, q);
    crate::json::value::lemma_lookup_append(s1, c, q);
    crate::json::value::lemma_lookup_append(s2, d, q);
    assert(function_enc(f)->Obj_0 == s2 + d);
}

pub proof fn lemma_function_round_trip(f: FunctionV)
    ensures
        function_dec(function_enc(f)) == Some(f),
{
    reveal_strlit("name");
    reveal_strlit("description");
    reveal_strlit("parameters");
    reveal_strlit("strict");
    assert("name"@.len() == 4 && "description"@.len() == 11 && "parameters"@.len() == 10
        && "strict"@.len() == 6);
    lemma_function_lookup(f, "name"@);
    lemma_function_lookup(f, "description"@);
    lemma_function_lookup(f, "parameters"@);
    lemma_function_lookup(f, "strict"@);
}

pub proof fn lemma_tool_round_trip(t: ToolV)
    ensures
        tool_dec(tool_enc(t)) == Some(t),
{
    reveal_strlit("type");
    reveal_strlit("function");
    assert("type"@.len() == 4 && "function"@.len() == 8);
    let m = seq![("type"@, tool_type_enc(t.kind)), ("function"@, function_enc(t.function))];
    let m1 = m.drop_first();
    assert(m1 =~= seq![("function"@, function_enc(t.function))]);
    assert(lookup_v(m, "type"@) == Some(tool_type_enc(t.kind)));
    assert(lookup_v(m1, "function"@) == Some(function_enc(t.function)));
    assert(lookup_v(m, "function"@) == Some(function_enc(t.function)));
    crate::raw::request::lemma_tool_type_round_trip(t.kind);
    lemma_function_round_trip(t.function);
}

pub proof fn lemma_tool_list_round_trip(s: Seq<ToolV>)
    ensures
        tool_list_dec(tool_list_enc(s)) == Some(s),
{
    let e = tool_list_enc(s);
    assert forall|i: int| 0 <= i < e.len() implies tool_dec(#[trigger] e[i]) is Some by {
        lemma_tool_round_trip(s[i]);
    }
    assert forall|i: int| 0 <= i < e.len() implies tool_dec(#[trigger] e[i]) == Some(
        s[i],
    ) by {
        lemma_tool_round_trip(s[i]);
    }
    assert(Seq::new(e.len(), |i: int| tool_dec(e[i])->Some_0) =~= s);
}

pub proof fn lemma_tool_choice_round_trip(c: ToolChoiceV)
    ensures
        tool_choice_dec(tool_choice_enc(c)) == Some(c),
{
    match c {
        ToolChoiceV::Mode(t) => {
            reveal_strlit("none");
            reveal_strlit("auto");
            reveal_strlit("required");
            assert("none"@.len() == 4 && "auto"@.len() == 4 && "required"@.len() == 8);
            assert("none"@[0] == 'n' && "auto"@[0] == 'a');
            assert("auto"@ != "none"@);
            assert("required"@ != "none"@ && "required"@ != "auto"@);
        },
        ToolChoiceV::Named(o) => {
            reveal_strlit("type");
            reveal_strlit("function");
            reveal_strlit("name");
            assert("type"@.len() == 4 && "function"@.len() == 8 && "name"@.len() == 4);
            let m = seq![
                ("type"@, tool_type_enc(o.kind)),
                ("function"@, function_name_enc(o.function)),
            ];
            let m1 = m.drop_first();
            assert(m1 =~= seq![("function"@, function_name_enc(o.function))]);
            assert(lookup_v(m, "type"@) == Some(tool_type_enc(o.kind)));
            assert(lookup_v(m1, "function"@) == Some(function_name_enc(o.function)));
            assert(lookup_v(m, "function"@) == Some(function_name_enc(o.function)));
            crate::raw::request::lemma_tool_type_round_trip(o.kind);
            lemma_lookup_single("name"@, JsonV::Str(o.function.name), "name"@);
            assert(function_name_dec(function_name_enc(o.function)) == Some(o.function));
        },
    }
}

} // verus!

verus! {

/// The wire object of the thinking switch is well formed.
pub proof fn lemma_thinking_enc_wf(t: Thinking)
    ensures
        crate::json::value::wf_v(thinking_enc(t)),
{
    crate::json::value::lemma_wf_v_members_parts(thinking_enc(t)->Obj_0);
}

/// The wire object of the response format is well formed.
pub proof fn lemma_response_format_enc_wf(f: ResponseFormat)
    ensures
        crate::json::value::wf_v(response_format_enc(f)),
{
    crate::json::value::lemma_wf_v_members_parts(response_format_enc(f)->Obj_0);
}

/// The wire object of the stream options is well formed.
pub proof fn lemma_stream_options_enc_wf(o: StreamOptions)
    ensures
        crate::json::value::wf_v(stream_options_enc(o)),
{
    crate::json::value::lemma_wf_v_members_parts(stream_options_enc(o)->Obj_0);
}

/// The wire node of the stop field is well formed.
pub proof fn lemma_stop_enc_wf(s: StopV)
    ensures
        crate::json::value::wf_v(stop_enc(s)),
{
    match s {
        StopV::Text(_) => {},
        StopV::List(ts) => {
            crate::json::value::lemma_wf_v_list_parts(str_list_enc(ts));
        },
    }
}

/// The wire object of a function is well formed when its parameter
/// schema is.
pub proof fn lemma_function_enc_wf(f: FunctionV)
    requires
        crate::json::value::wf_v(f.parameters),
    ensures
        crate::json::value::wf_v(function_enc(f)),
{
    let ms = function_enc(f)->Obj_0;
    assert forall|i: int| 0 <= i < ms.len() implies crate::json::value::wf_v(
        (#[trigger] ms[i]).1,
    ) by {
        let a = seq![("name"@, JsonV::Str(f.name))];
        let b = crate::raw::request::opt_str_member("description"@, f.description);
        let c = seq![("parameters"@, f.parameters)];
        let d = crate::raw::request::opt_bool_member("strict"@, f.strict);
        assert(ms == a + b + c + d);
    }
    crate::json::value::lemma_wf_v_members_parts(ms);
}

/// The wire object of a tool is well formed when its function's is.
pub proof fn lemma_tool_enc_wf(t: ToolV)
    requires
        crate::json::value::wf_v(t.function.parameters),
    ensures
        crate::json::value::wf_v(tool_enc(t)),
{
    lemma_function_enc_wf(t.function);
    crate::json::value::lemma_wf_v_members_parts(tool_enc(t)->Obj_0);
}

/// The wire node of the tool choice is well formed.
pub proof fn lemma_tool_choice_enc_wf(c: ToolChoiceV)
    ensures
        crate::json::value::wf_v(tool_choice_enc(c)),
{
    match c {
        ToolChoiceV::Mode(_) => {},
        ToolChoiceV::Named(o) => {
            crate::json::value::lemma_wf_v_members_parts(
                function_name_enc(o.function)->Obj_0,
            );
            crate::json::value::lemma_wf_v_members_parts(tool_choice_object_enc(o)->Obj_0);
        },
    }
}

} // verus!
