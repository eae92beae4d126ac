//! Request-side protocol types: conversation messages, tool calls, and the
//! enums they carry, each with its wire encoder and decoder and the law
//! that the two invert each other.

use vstd::prelude::*;

use crate::json::value::get_v;
use crate::json::value::jv_list;
use crate::json::value::jv_members;
use crate::json::value::lemma_jv_list_index;
use crate::json::value::lemma_jv_members_index;
use crate::json::value::lookup_v;
use crate::json::value::str_eq;
use crate::json::field::opt_bool_field;
use crate::json::field::opt_str_field;
use crate::json::field::read_opt_bool;
use crate::json::field::read_opt_str;
use crate::json::field::read_req_str;
use crate::json::field::req_str_field;
use crate::json::value::JsonV;
use crate::json::value::JsonValue;

verus! {

/// One object member holding a string, present only when the field is set.
pub open spec fn opt_str_member(k: Seq<char>, o: Option<Seq<char>>) -> Seq<
    (Seq<char>, JsonV),
> {
    match o {
        Some(t) => seq![(k, JsonV::Str(t))],
        None => Seq::empty(),
    }
}

/// One object member holding a boolean, present only when the field is set.
pub open spec fn opt_bool_member(k: Seq<char>, o: Option<bool>) -> Seq<(Seq<char>, JsonV)> {
    match o {
        Some(b) => seq![(k, JsonV::Bool(b))],
        None => Seq::empty(),
    }
}

/// Who speaks a message.
#[derive(Debug, Clone, Copy, PartialEq, Eq)]
pub enum Role {
    System,
    User,
    Assistant,
    Tool,
}

impl Default for Role {
    fn default() -> (r: Self)
        ensures
            r == Role::User,
    {
        Role::User
    }
}

impl DeepView for Role {
    type V = Role;

    open spec fn deep_view(&self) -> Role {
        *self
    }
}

pub open spec fn role_enc(r: Role) -> JsonV {
    match r {
        Role::System => JsonV::Str("system"@),
        Role::User => JsonV::Str("user"@),
        Role::Assistant => JsonV::Str("assistant"@),
        Role::Tool => JsonV::Str("tool"@),
    }
}

pub open spec fn role_dec(v: JsonV) -> Option<Role> {
    match v {
        JsonV::Str(t) => if t == "system"@ {
            Some(Role::System)
        } else if t == "user"@ {
            Some(Role::User)
        } else if t == "assistant"@ {
            Some(Role::Assistant)
        } else if t == "tool"@ {
            Some(Role::Tool)
        } else {
            None
        },
        _ => None,
    }
}

pub proof fn lemma_role_round_trip(r: Role)
    ensures
        role_dec(role_enc(r)) == Some(r),
{
    reveal_strlit("system");
    reveal_strlit("user");
    reveal_strlit("assistant");
    reveal_strlit("tool");
    assert("system"@.len() == 6 && "user"@.len() == 4 && "assistant"@.len() == 9
        && "tool"@.len() == 4);
    assert("user"@[0] == 'u' && "tool"@[0] == 't');
    assert("user"@ != "system"@);
    assert("assistant"@ != "system"@ && "assistant"@ != "user"@);
    assert("tool"@ != "system"@ && "tool"@ != "user"@ && "tool"@ != "assistant"@);
    match r {
        Role::System => {
            assert(role_dec(JsonV::Str("system"@)) == Some(Role::System));
        },
        Role::User => {
            assert(role_dec(JsonV::Str("user"@)) == Some(Role::User));
        },
        Role::Assistant => {
            assert(role_dec(JsonV::Str("assistant"@)) == Some(Role::Assistant));
        },
        Role::Tool => {
            assert(role_dec(JsonV::Str("tool"@)) == Some(Role::Tool));
        },
    }
}

impl Role {
    pub fn to_json(&self) -> (r: JsonValue)
        ensures
            r@ == role_enc(*self),
    {
        match self {
            Role::System => JsonValue::Str("system".to_owned()),
            Role::User => JsonValue::Str("user".to_owned()),
            Role::Assistant => JsonValue::Str("assistant".to_owned()),
            Role::Tool => JsonValue::Str("tool".to_owned()),
        }
    }

    pub fn from_json(v: &JsonValue) -> (r: Option<Role>)
        ensures
            r == role_dec(v@),
    {
        match v {
            JsonValue::Str(s) => {
                if str_eq(s.as_str(), "system") {
                    Some(Role::System)
                } else if str_eq(s.as_str(), "user") {
                    Some(Role::User)
                } else if str_eq(s.as_str(), "assistant") {
                    Some(Role::Assistant)
                } else if str_eq(s.as_str(), "tool") {
                    Some(Role::Tool)
                } else {
                    None
                }
            },
            _ => None,
        }
    }
}

/// The kind of a tool; the protocol knows functions only.
#[derive(Debug, Clone, Copy, PartialEq, Eq)]
pub enum ToolType {
    Function,
}

impl DeepView for ToolType {
    type V = ToolType;

    open spec fn deep_view(&self) -> ToolType {
        *self
    }
}

pub open spec fn tool_type_enc(t: ToolType) -> JsonV {
    JsonV::Str("function"@)
}

pub open spec fn tool_type_dec(v: JsonV) -> Option<ToolType> {
    match v {
        JsonV::Str(t) => if t == "function"@ {
            Some(ToolType::Function)
        } else {
            None
        },
        _ => None,
    }
}

pub proof fn lemma_tool_type_round_trip(t: ToolType)
    ensures
        tool_type_dec(tool_type_enc(t)) == Some(t),
{
}

impl ToolType {
    pub fn to_json(&self) -> (r: JsonValue)
        ensures
            r@ == tool_type_enc(*self),
    {
        JsonValue::Str("function".to_owned())
    }

    pub fn from_json(v: &JsonValue) -> (r: Option<ToolType>)
        ensures
            r == tool_type_dec(v@),
    {
        match v {
            JsonValue::Str(s) => {
                if str_eq(s.as_str(), "function") {
                    Some(ToolType::Function)
                } else {
                    None
                }
            },
            _ => None,
        }
    }
}

/// A function invocation requested by the model: a name and a JSON-encoded
/// argument string.
#[derive(Debug, PartialEq, Eq)]
pub struct FunctionCall {
    pub name: String,
    pub arguments: String,
}

pub struct FunctionCallV {
    pub name: Seq<char>,
    pub arguments: Seq<char>,
}

impl DeepView for FunctionCall {
    type V = FunctionCallV;

    open spec fn deep_view(&self) -> FunctionCallV {
        FunctionCallV { name: self.name@, arguments: self.arguments@ }
    }
}

impl Clone for FunctionCall {
    fn clone(&self) -> (r: Self)
        ensures
            r == *self,
    {
        FunctionCall { name: self.name.clone(), arguments: self.arguments.clone() }
    }
}

pub open spec fn function_call_enc(f: FunctionCallV) -> JsonV {
    JsonV::Obj(seq![("name"@, JsonV::Str(f.name)), ("arguments"@, JsonV::Str(f.arguments))])
}

pub open spec fn function_call_dec(v: JsonV) -> Option<FunctionCallV> {
    if !(v is Obj) {
        None
    } else {
        match (req_str_field(v, "name"@), req_str_field(v, "arguments"@)) {
            (Some(n), Some(a)) => Some(FunctionCallV { name: n, arguments: a }),
            _ => None,
        }
    }
}

pub proof fn lemma_function_call_round_trip(f: FunctionCallV)
    ensures
        function_call_dec(function_call_enc(f)) == Some(f),
{
    reveal_strlit("name");
    reveal_strlit("arguments");
    assert("name"@.len() == 4 && "arguments"@.len() == 9);
    assert("name"@ != "arguments"@);
    let m = seq![("name"@, JsonV::Str(f.name)), ("arguments"@, JsonV::Str(f.arguments))];
    let m1 = m.drop_first();
    assert(m1 =~= seq![("arguments"@, JsonV::Str(f.arguments))]);
    assert(lookup_v(m, "name"@) == Some(JsonV::Str(f.name)));
    assert(lookup_v(m1, "arguments"@) == Some(JsonV::Str(f.arguments)));
    assert(lookup_v(m, "arguments"@) == Some(JsonV::Str(f.arguments)));
}

impl FunctionCall {
    pub fn to_json(&self) -> (r: JsonValue)
        ensures
            r@ == function_call_enc(self.deep_view()),
    {
        let mut members: Vec<(String, JsonValue)> = Vec::new();
        members.push(("name".to_owned(), JsonValue::Str(self.name.clone())));
        members.push(("arguments".to_owned(), JsonValue::Str(self.arguments.clone())));
        proof {
            lemma_jv_members_index(members@);
            assert(jv_members(members@) =~= seq![
                ("name"@, JsonV::Str(self.name@)),
                ("arguments"@, JsonV::Str(self.arguments@)),
            ]);
        }
        JsonValue::Obj(members)
    }

    pub fn from_json(v: &JsonValue) -> (r: Option<FunctionCall>)
        ensures
            (r is Some) == (function_call_dec(v@) is Some),
            r matches Some(x) ==> function_call_dec(v@) == Some(x.deep_view()),
    {
        if !v.is_obj() {
            return None;
        }
        let n = match read_req_str(v, "name") {
            Some(n) => n,
            None => {
                return None;
            },
        };
        let a = match read_req_str(v, "arguments") {
            Some(a) => a,
            None => {
                return None;
            },
        };
        Some(FunctionCall { name: n, arguments: a })
    }
}

/// A tool call issued by the model.
#[derive(Debug, PartialEq, Eq)]
pub struct ToolCall {
    pub id: String,
    /// The wire field `type`.
    pub kind: ToolType,
    pub function: FunctionCall,
}

pub struct ToolCallV {
    pub id: Seq<char>,
    pub kind: ToolType,
    pub function: FunctionCallV,
}

impl DeepView for ToolCall {
    type V = ToolCallV;

    open spec fn deep_view(&self) -> ToolCallV {
        ToolCallV {
            id: self.id@,
            kind: self.kind,
            function: self.function.deep_view(),
        }
    }
}

impl Clone for ToolCall {
    fn clone(&self) -> (r: Self)
        ensures
            r == *self,
    {
        ToolCall { id: self.id.clone(), kind: self.kind, function: self.function.clone() }
    }
}

pub open spec fn tool_call_enc(t: ToolCallV) -> JsonV {
    JsonV::Obj(
        seq![
            ("id"@, JsonV::Str(t.id)),
            ("type"@, tool_type_enc(t.kind)),
            ("function"@, function_call_enc(t.function)),
        ],
    )
}

pub open spec fn tool_call_dec(v: JsonV) -> Option<ToolCallV> {
    if !(v is Obj) {
        None
    } else {
        match (req_str_field(v, "id"@), get_v(v, "type"@), get_v(v, "function"@)) {
            (Some(id), Some(tv), Some(fv)) => match (tool_type_dec(tv), function_call_dec(
                fv,
            )) {
                (Some(t), Some(f)) => Some(ToolCallV { id: id, kind: t, function: f }),
                _ => None,
            },
            _ => None,
        }
    }
}

pub proof fn lemma_tool_call_round_trip(t: ToolCallV)
    ensures
        tool_call_dec(tool_call_enc(t)) == Some(t),
{
    reveal_strlit("id");
    reveal_strlit("type");
    reveal_strlit("function");
    let m = seq![
        ("id"@, JsonV::Str(t.id)),
        ("type"@, tool_type_enc(t.kind)),
        ("function"@, function_call_enc(t.function)),
    ];
    let m1 = m.drop_first();
    let m2 = m1.drop_first();
    assert(m1 =~= seq![
        ("type"@, tool_type_enc(t.kind)),
        ("function"@, function_call_enc(t.function)),
    ]);
    assert(m2 =~= seq![("function"@, function_call_enc(t.function))]);
    assert("id"@.len() == 2 && "type"@.len() == 4 && "function"@.len() == 8);
    assert("id"@ != "type"@ && "id"@ != "function"@ && "type"@ != "function"@);
    assert(lookup_v(m, "id"@) == Some(JsonV::Str(t.id)));
    assert(lookup_v(m2, "function"@) == Some(function_call_enc(t.function)));
    assert(lookup_v(m1, "type"@) == Some(tool_type_enc(t.kind)));
    assert(lookup_v(m1, "function"@) == Some(function_call_enc(t.function)));
    assert(lookup_v(m, "type"@) == Some(tool_type_enc(t.kind)));
    assert(lookup_v(m, "function"@) == Some(function_call_enc(t.function)));
    lemma_tool_type_round_trip(t.kind);
    lemma_function_call_round_trip(t.function);
}

impl ToolCall {
    pub fn to_json(&self) -> (r: JsonValue)
        ensures
            r@ == tool_call_enc(self.deep_view()),
    {
        let mut members: Vec<(String, JsonValue)> = Vec::new();
        members.push(("id".to_owned(), JsonValue::Str(self.id.clone())));
        members.push(("type".to_owned(), self.kind.to_json()));
        members.push(("function".to_owned(), self.function.to_json()));
        proof {
            lemma_jv_members_index(members@);
            assert(jv_members(members@) =~= seq![
                ("id"@, JsonV::Str(self.id@)),
                ("type"@, tool_type_enc(self.kind)),
                ("function"@, function_call_enc(self.function.deep_view())),
            ]);
        }
        JsonValue::Obj(members)
    }

    pub fn from_json(v: &JsonValue) -> (r: Option<ToolCall>)
        ensures
            (r is Some) == (tool_call_dec(v@) is Some),
            r matches Some(x) ==> tool_call_dec(v@) == Some(x.deep_view()),
    {
        if !v.is_obj() {
            return None;
        }
        let id = match read_req_str(v, "id") {
            Some(x) => x,
            None => {
                return None;
            },
        };
        let tv = match v.get("type") {
            Some(x) => x,
            None => {
                return None;
            },
        };
        let fv = match v.get("function") {
            Some(x) => x,
            None => {
                return None;
            },
        };
        let t = match ToolType::from_json(tv) {
            Some(x) => x,
            None => {
                return None;
            },
        };
        let f = match FunctionCall::from_json(fv) {
            Some(x) => x,
            None => {
                return None;
            },
        };
        Some(ToolCall { id: id, kind: t, function: f })
    }
}

/// Decoding of a whole array of tool calls: every element must decode.
pub open spec fn tool_call_list_dec(s: Seq<JsonV>) -> Option<Seq<ToolCallV>> {
    if forall|i: int| 0 <= i < s.len() ==> tool_call_dec(#[trigger] s[i]) is Some {
        Some(Seq::new(s.len(), |i: int| tool_call_dec(s[i])->Some_0))
    } else {
        None
    }
}

pub open spec fn tool_call_list_enc(s: Seq<ToolCallV>) -> Seq<JsonV> {
    Seq::new(s.len(), |i: int| tool_call_enc(s[i]))
}

pub proof fn lemma_tool_call_list_round_trip(s: Seq<ToolCallV>)
    ensures
        tool_call_list_dec(tool_call_list_enc(s)) == Some(s),
{
    let e = tool_call_list_enc(s);
    assert forall|i: int| 0 <= i < e.len() implies tool_call_dec(#[trigger] e[i]) is Some by {
        lemma_tool_call_round_trip(s[i]);
    }
    assert forall|i: int|
        0 <= i < e.len() implies tool_call_dec(#[trigger] e[i]) == Some(s[i]) by {
        lemma_tool_call_round_trip(s[i]);
    }
    assert(Seq::new(e.len(), |i: int| tool_call_dec(e[i])->Some_0) =~= s);
}

/// Encodes a list of tool calls.
#[verifier::loop_isolation(false)]
pub fn tool_calls_to_json(tcs: &Vec<ToolCall>) -> (r: JsonValue)
    ensures
        r@ == JsonV::Arr(tool_call_list_enc(tcs.deep_view())),
{
    let mut out: Vec<JsonValue> = Vec::new();
    let n = tcs.len();
    let mut i: usize = 0;
    while i < n
        invariant
            0 <= i <= n,
            n == tcs@.len(),
            out@.len() == i,
            forall|q: int| 0 <= q < i ==> out@[q]@ == tool_call_enc(tcs@[q].deep_view()),
        decreases n - i,
    {
        out.push(tcs[i].to_json());
        i += 1;
    }
    proof {
        lemma_jv_list_index(out@);
        assert(jv_list(out@) =~= tool_call_list_enc(tcs.deep_view()));
    }
    JsonValue::Arr(out)
}

/// Decodes a list of tool calls.
#[verifier::loop_isolation(false)]
pub fn tool_calls_from_json(items: &Vec<JsonValue>) -> (r: Option<Vec<ToolCall>>)
    ensures
        (r is Some) == (tool_call_list_dec(jv_list(items@)) is Some),
        r matches Some(v) ==> tool_call_list_dec(jv_list(items@)) == Some(v.deep_view()),
{
    proof {
        lemma_jv_list_index(items@);
    }
    let ghost iv = jv_list(items@);
    let mut out: Vec<ToolCall> = Vec::new();
    let n = items.len();
    let mut i: usize = 0;
    while i < n
        invariant
            0 <= i <= n,
            n == items@.len(),
            out@.len() == i,
            forall|q: int| 0 <= q < i ==> tool_call_dec(#[trigger] iv[q]) is Some,
            forall|q: int|
                0 <= q < i ==> tool_call_dec(#[trigger] iv[q]) == Some(
                    out@[q].deep_view(),
                ),
        decreases n - i,
    {
        proof {
            assert(iv[i as int] == items@[i as int]@);
        }
        match ToolCall::from_json(&items[i]) {
            Some(t) => {
                proof {
                    assert(tool_call_dec(iv[i as int]) == Some(t.deep_view()));
                }
                out.push(t);
            },
            None => {
                proof {
                    assert(tool_call_dec(iv[i as int]) is None);
                }
                return None;
            },
        }
        i += 1;
    }
    proof {
        assert(Seq::new(iv.len(), |q: int| tool_call_dec(iv[q])->Some_0) =~= out.deep_view());
    }
    Some(out)
}

/// One turn of a conversation, as it crosses the wire.  A tool-role message
/// carries the identifier of the call it answers; an assistant message that
/// requests tool use carries `tool_calls` and may omit its content.
#[derive(Debug, PartialEq, Eq)]
pub struct Message {
    pub role: Role,
    pub content: Option<String>,
    pub name: Option<String>,
    pub tool_call_id: Option<String>,
    pub tool_calls: Option<Vec<ToolCall>>,
    pub reasoning_content: Option<String>,
    pub prefix: Option<bool>,
}

pub struct MessageV {
    pub role: Role,
    pub content: Option<Seq<char>>,
    pub name: Option<Seq<char>>,
    pub tool_call_id: Option<Seq<char>>,
    pub tool_calls: Option<Seq<ToolCallV>>,
    pub reasoning_content: Option<Seq<char>>,
    pub prefix: Option<bool>,
}

impl DeepView for Message {
    type V = MessageV;

    open spec fn deep_view(&self) -> MessageV {
        MessageV {
            role: self.role,
            content: self.content.deep_view(),
            name: self.name.deep_view(),
            tool_call_id: self.tool_call_id.deep_view(),
            tool_calls: self.tool_calls.deep_view(),
            reasoning_content: self.reasoning_content.deep_view(),
            prefix: self.prefix,
        }
    }
}

impl Clone for Message {
    fn clone(&self) -> (r: Self)
        ensures
            r.deep_view() == self.deep_view(),
    {
        let tool_calls: Option<Vec<ToolCall>> = match &self.tool_calls {
            Some(tcs) => {
                let mut v: Vec<ToolCall> = Vec::new();
                let n = tcs.len();
                let mut i: usize = 0;
                while i < n
                    invariant
                        0 <= i <= n,
                        n == tcs@.len(),
                        v@ == tcs@.take(i as int),
                    decreases n - i,
                {
                    v.push(tcs[i].clone());
                    proof {
                        assert(tcs@.take(i as int).push(tcs@[i as int]) =~= tcs@.take(
                            i as int + 1,
                        ));
                    }
                    i += 1;
                }
                proof {
                    assert(tcs@.take(n as int) =~= tcs@);
                }
                Some(v)
            },
            None => None,
        };
        let r = Message {
            role: self.role,
            content: self.content.clone(),
            name: self.name.clone(),
            tool_call_id: self.tool_call_id.clone(),
            tool_calls: tool_calls,
            reasoning_content: self.reasoning_content.clone(),
            prefix: self.prefix,
        };
        proof {
            match (&r.tool_calls, &self.tool_calls) {
                (Some(a), Some(b)) => {
                    assert(a.deep_view() =~= b.deep_view());
                },
                _ => {},
            }
        }
        r
    }
}

impl Message {
    /// A plain text message: the given role and content, nothing else.
    pub fn new(role: Role, message: &str) -> (r: Self)
        ensures
            r.role == role,
            r.content matches Some(c) && c@ == message@,
            r.name is None,
            r.tool_call_id is None,
            r.tool_calls is None,
            r.reasoning_content is None,
            r.prefix is None,
    {
        Message {
            role: role,
            content: Some(message.to_owned()),
            name: None,
            tool_call_id: None,
            tool_calls: None,
            reasoning_content: None,
            prefix: None,
        }
    }
}

/// The wire object of a message: `role` always, optional fields only when
/// set, in the declared order.
pub open spec fn message_enc(m: MessageV) -> JsonV {
    JsonV::Obj(message_members(m))
}

pub open spec fn message_members(m: MessageV) -> Seq<(Seq<char>, JsonV)> {
    seq![("role"@, role_enc(m.role))] + opt_str_member("content"@, m.content)
        + opt_str_member("name"@, m.name) + opt_str_member("tool_call_id"@, m.tool_call_id)
        + (match m.tool_calls {
        Some(tcs) => seq![("tool_calls"@, JsonV::Arr(tool_call_list_enc(tcs)))],
        None => Seq::empty(),
    }) + opt_str_member("reasoning_content"@, m.reasoning_content) + opt_bool_member(
        "prefix"@,
        m.prefix,
    )
}

/// Decoding of a message object: `role` is required; the optional fields
/// accept a missing member or null as absent.
pub open spec fn message_dec(v: JsonV) -> Option<MessageV> {
    if !(v is Obj) {
        None
    } else {
        match get_v(v, "role"@) {
            None => None,
            Some(rv) => match role_dec(rv) {
                None => None,
                Some(role) => {
                    let tcs = match get_v(v, "tool_calls"@) {
                        None => Some(None),
                        Some(JsonV::Null) => Some(None),
                        Some(JsonV::Arr(items)) => match tool_call_list_dec(items) {
                            Some(ts) => Some(Some(ts)),
                            None => None,
                        },
                        Some(_) => None,
                    };
                    match (
                        opt_str_field(v, "content"@),
                        opt_str_field(v, "name"@),
                        opt_str_field(v, "tool_call_id"@),
                        tcs,
                        opt_str_field(v, "reasoning_content"@),
                        opt_bool_field(v, "prefix"@),
                    ) {
                        (
                            Some(content),
                            Some(name),
                            Some(tool_call_id),
                            Some(tool_calls),
                            Some(reasoning_content),
                            Some(prefix),
                        ) => Some(
                            MessageV {
                                role,
                                content,
                                name,
                                tool_call_id,
                                tool_calls,
                                reasoning_content,
                                prefix,
                            },
                        ),
                        _ => None,
                    }
                },
            },
        }
    }
}

impl Message {
    /// Encodes this message as its wire object.
    pub fn to_json(&self) -> (r: JsonValue)
        ensures
            r@ == message_enc(self.deep_view()),
    {
        let mut members: Vec<(String, JsonValue)> = Vec::new();
        members.push(("role".to_owned(), self.role.to_json()));
        match &self.content {
            Some(s) => {
                members.push(("content".to_owned(), JsonValue::Str(s.clone())));
            },
            None => {},
        }
        match &self.name {
            Some(s) => {
                members.push(("name".to_owned(), JsonValue::Str(s.clone())));
            },
            None => {},
        }
        match &self.tool_call_id {
            Some(s) => {
                members.push(("tool_call_id".to_owned(), JsonValue::Str(s.clone())));
            },
            None => {},
        }
        match &self.tool_calls {
            Some(tcs) => {
                members.push(("tool_calls".to_owned(), tool_calls_to_json(tcs)));
            },
            None => {},
        }
        match &self.reasoning_content {
            Some(s) => {
                members.push(("reasoning_content".to_owned(), JsonValue::Str(s.clone())));
            },
            None => {},
        }
        match &self.prefix {
            Some(b) => {
                members.push(("prefix".to_owned(), JsonValue::Bool(*b)));
            },
            None => {},
        }
        proof {
            lemma_jv_members_index(members@);
            assert(jv_members(members@) =~= message_members(self.deep_view()));
        }
        JsonValue::Obj(members)
    }

    /// Decodes a message from its wire object.
    pub fn from_json(v: &JsonValue) -> (r: Option<Message>)
        ensures
            (r is Some) == (message_dec(v@) is Some),
            r matches Some(m) ==> message_dec(v@) == Some(m.deep_view()),
    {
        if !v.is_obj() {
            return None;
        }
        let rv = match v.get("role") {
            Some(x) => x,
            None => {
                return None;
            },
        };
        let role = match Role::from_json(rv) {
            Some(x) => x,
            None => {
                return None;
            },
        };
        let tool_calls: Option<Vec<ToolCall>> = match v.get("tool_calls") {
            None => None,
            Some(x) => match x {
                JsonValue::Null => None,
                JsonValue::Arr(items) => match tool_calls_from_json(items) {
                    Some(ts) => Some(ts),
                    None => {
                        return None;
                    },
                },
                _ => {
                    return None;
                },
            },
        };
        let content = match read_opt_str(v, "content") {
            Some(x) => x,
            None => {
                return None;
            },
        };
        let name = match read_opt_str(v, "name") {
            Some(x) => x,
            None => {
                return None;
            },
        };
        let tool_call_id = match read_opt_str(v, "tool_call_id") {
            Some(x) => x,
            None => {
                return None;
            },
        };
        let reasoning_content = match read_opt_str(v, "reasoning_content") {
            Some(x) => x,
            None => {
                return None;
            },
        };
        let prefix = match read_opt_bool(v, "prefix") {
            Some(x) => x,
            None => {
                return None;
            },
        };
        Some(
            Message {
                role,
                content,
                name,
                tool_call_id,
                tool_calls,
                reasoning_content,
                prefix,
            },
        )
    }
}

} // verus!

verus! {

/// Encoding of a whole message list.
pub open spec fn message_list_enc(s: Seq<MessageV>) -> Seq<JsonV> {
    Seq::new(s.len(), |i: int| message_enc(s[i]))
}

/// Decoding of a whole message list: every element must decode.
pub open spec fn message_list_dec(s: Seq<JsonV>) -> Option<Seq<MessageV>> {
    if forall|i: int| 0 <= i < s.len() ==> message_dec(#[trigger] s[i]) is Some {
        Some(Seq::new(s.len(), |i: int| message_dec(s[i])->Some_0))
    } else {
        None
    }
}

/// Encodes a list of messages.
#[verifier::loop_isolation(false)]
pub fn messages_to_json(ms: &Vec<Message>) -> (r: JsonValue)
    ensures
        r@ == JsonV::Arr(message_list_enc(ms.deep_view())),
{
    let mut out: Vec<JsonValue> = Vec::new();
    let n = ms.len();
    let mut i: usize = 0;
    while i < n
        invariant
            0 <= i <= n,
            n == ms@.len(),
            out@.len() == i,
            forall|q: int| 0 <= q < i ==> out@[q]@ == message_enc(ms@[q].deep_view()),
        decreases n - i,
    {
        out.push(ms[i].to_json());
        i += 1;
    }
    proof {
        lemma_jv_list_index(out@);
        assert(jv_list(out@) =~= message_list_enc(ms.deep_view()));
    }
    JsonValue::Arr(out)
}

/// Decodes a list of messages.
#[verifier::loop_isolation(false)]
pub fn messages_from_json(items: &Vec<JsonValue>) -> (r: Option<Vec<Message>>)
    ensures
        (r is Some) == (message_list_dec(jv_list(items@)) is Some),
        r matches Some(v) ==> message_list_dec(jv_list(items@)) == Some(v.deep_view()),
{
    proof {
        lemma_jv_list_index(items@);
    }
    let ghost iv = jv_list(items@);
    let mut out: Vec<Message> = Vec::new();
    let n = items.len();
    let mut i: usize = 0;
    while i < n
        invariant
            0 <= i <= n,
            n == items@.len(),
            out@.len() == i,
            forall|q: int| 0 <= q < i ==> message_dec(#[trigger] iv[q]) is Some,
            forall|q: int|
                0 <= q < i ==> message_dec(#[trigger] iv[q]) == Some(out@[q].deep_view()),
        decreases n - i,
    {
        proof {
            assert(iv[i as int] == items@[i as int]@);
        }
        match Message::from_json(&items[i]) {
            Some(m) => {
                proof {
                    assert(message_dec(iv[i as int]) == Some(m.deep_view()));
                }
                out.push(m);
            },
            None => {
                proof {
                    assert(message_dec(iv[i as int]) is None);
                }
                return None;
            },
        }
        i += 1;
    }
    proof {
        assert(Seq::new(iv.len(), |q: int| message_dec(iv[q])->Some_0) =~= out.deep_view());
    }
    Some(out)
}

/// What a lookup in a message's wire object yields, by key.
pub open spec fn message_field(m: MessageV, q: Seq<char>) -> Option<JsonV> {
    if q == "role"@ {
        Some(role_enc(m.role))
    } else if q == "content"@ {
        match m.content {
            Some(t) => Some(JsonV::Str(t)),
            None => None,
        }
    } else if q == "name"@ {
        match m.name {
            Some(t) => Some(JsonV::Str(t)),
            None => None,
        }
    } else if q == "tool_call_id"@ {
        match m.tool_call_id {
            Some(t) => Some(JsonV::Str(t)),
            None => None,
        }
    } else if q == "tool_calls"@ {
        match m.tool_calls {
            Some(tcs) => Some(JsonV::Arr(tool_call_list_enc(tcs))),
            None => None,
        }
    } else if q == "reasoning_content"@ {
        match m.reasoning_content {
            Some(t) => Some(JsonV::Str(t)),
            None => None,
        }
    } else if q == "prefix"@ {
        match m.prefix {
            Some(b) => Some(JsonV::Bool(b)),
            None => None,
        }
    } else {
        None
    }
}

proof fn lemma_lookup_opt_str(k: Seq<char>, o: Option<Seq<char>>, q: Seq<char>)
    ensures
        lookup_v(opt_str_member(k, o), q) == (match o {
            Some(t) => if k == q {
                Some(JsonV::Str(t))
            } else {
                None
            },
            None => None::<JsonV>,
        }),
{
    match o {
        Some(t) => {
            crate::json::value::lemma_lookup_single(k, JsonV::Str(t), q);
        },
        None => {
            assert(lookup_v(opt_str_member(k, o), q) is None);
        },
    }
}

proof fn lemma_lookup_opt_bool(k: Seq<char>, o: Option<bool>, q: Seq<char>)
    ensures
        lookup_v(opt_bool_member(k, o), q) == (match o {
            Some(b) => if k == q {
                Some(JsonV::Bool(b))
            } else {
                None
            },
            None => None::<JsonV>,
        }),
{
    match o {
        Some(b) => {
            crate::json::value::lemma_lookup_single(k, JsonV::Bool(b), q);
        },
        None => {
            assert(lookup_v(opt_bool_member(k, o), q) is None);
        },
    }
}

/// Member lookup in a message's wire object is exactly `message_field`.
#[verifier::rlimit(100)]
pub proof fn lemma_message_lookup(m: MessageV, q: Seq<char>)
    ensures
        lookup_v(message_members(m), q) == message_field(m, q),
{
    reveal_strlit("role");
    reveal_strlit("content");
    reveal_strlit("name");
    reveal_strlit("tool_call_id");
    reveal_strlit("tool_calls");
    reveal_strlit("reasoning_content");
    reveal_strlit("prefix");
    assert("role"@.len() == 4 && "content"@.len() == 7 && "name"@.len() == 4
        && "tool_call_id"@.len() == 12 && "tool_calls"@.len() == 10
        && "reasoning_content"@.len() == 17 && "prefix"@.len() == 6);
    assert("role"@[0] == 'r' && "name"@[0] == 'n');
    let a0 = seq![("role"@, role_enc(m.role))];
    let b1 = opt_str_member("content"@, m.content);
    let b2 = opt_str_member("name"@, m.name);
    let b3 = opt_str_member("tool_call_id"@, m.tool_call_id);
    let b4: Seq<(Seq<char>, JsonV)> = match m.tool_calls {
        Some(tcs) => seq![("tool_calls"@, JsonV::Arr(tool_call_list_enc(tcs)))],
        None => Seq::empty(),
    };
    let b5 = opt_str_member("reasoning_content"@, m.reasoning_content);
    let b6 = opt_bool_member("prefix"@, m.prefix);
    crate::json::value::lemma_lookup_single("role"@, role_enc(m.role), q);
    lemma_lookup_opt_str("content"@, m.content, q);
    lemma_lookup_opt_str("name"@, m.name, q);
    lemma_lookup_opt_str("tool_call_id"@, m.tool_call_id, q);
    match m.tool_calls {
        Some(tcs) => {
            crate::json::value::lemma_lookup_single(
                "tool_calls"@,
                JsonV::Arr(tool_call_list_enc(tcs)),
                q,
            );
        },
        None => {
            assert(lookup_v(b4, q) is None);
        },
    }
    lemma_lookup_opt_str("reasoning_content"@, m.reasoning_content, q);
    lemma_lookup_opt_bool("prefix"@, m.prefix, q);
    let s1 = a0 + b1;
    let s2 = s1 + b2;
    let s3 = s2 + b3;
    let s4 = s3 + b4;
    let s5 = s4 + b5;
    crate::json::value::lemma_lookup_append(a0, b1, q);
    crate::json::value::lemma_lookup_append(s1, b2, q);
    crate::json::value::lemma_lookup_append(s2, b3, q);
    crate::json::value::lemma_lookup_append(s3, b4, q);
    crate::json::value::lemma_lookup_append(s4, b5, q);
    crate::json::value::lemma_lookup_append(s5, b6, q);
    assert(message_members(m) == s5 + b6);
}

/// The tree-level round trip: decoding the wire object of any message
/// yields that message back.
pub proof fn lemma_message_round_trip(m: MessageV)
    ensures
        message_dec(message_enc(m)) == Some(m),
{
    let e = message_enc(m);
    lemma_message_lookup(m, "role"@);
    lemma_message_lookup(m, "content"@);
    lemma_message_lookup(m, "name"@);
    lemma_message_lookup(m, "tool_call_id"@);
    lemma_message_lookup(m, "tool_calls"@);
    lemma_message_lookup(m, "reasoning_content"@);
    lemma_message_lookup(m, "prefix"@);
    reveal_strlit("role");
    reveal_strlit("content");
    reveal_strlit("name");
    reveal_strlit("tool_call_id");
    reveal_strlit("tool_calls");
    reveal_strlit("reasoning_content");
    reveal_strlit("prefix");
    assert("role"@.len() == 4 && "content"@.len() == 7 && "name"@.len() == 4
        && "tool_call_id"@.len() == 12 && "tool_calls"@.len() == 10
        && "reasoning_content"@.len() == 17 && "prefix"@.len() == 6);
    assert("role"@[0] == 'r' && "name"@[0] == 'n');
    lemma_role_round_trip(m.role);
    match m.tool_calls {
        Some(tcs) => {
            lemma_tool_call_list_round_trip(tcs);
        },
        None => {},
    }
    assert(message_dec(e) matches Some(d) && d == m);
}

proof fn lemma_function_call_enc_wf(f: FunctionCallV)
    ensures
        crate::json::value::wf_v(function_call_enc(f)),
{
    let ms = seq![("name"@, JsonV::Str(f.name)), ("arguments"@, JsonV::Str(f.arguments))];
    crate::json::value::lemma_wf_v_members_parts(ms);
}

proof fn lemma_tool_call_enc_wf(t: ToolCallV)
    ensures
        crate::json::value::wf_v(tool_call_enc(t)),
{
    lemma_function_call_enc_wf(t.function);
    let ms = seq![
        ("id"@, JsonV::Str(t.id)),
        ("type"@, tool_type_enc(t.kind)),
        ("function"@, function_call_enc(t.function)),
    ];
    crate::json::value::lemma_wf_v_members_parts(ms);
}

/// The wire object of a message is well formed.
pub proof fn lemma_message_enc_wf(m: MessageV)
    ensures
        crate::json::value::wf_v(message_enc(m)),
{
    let ms = message_members(m);
    assert forall|i: int| 0 <= i < ms.len() implies crate::json::value::wf_v(
        (#[trigger] ms[i]).1,
    ) by {
        let a0 = seq![("role"@, role_enc(m.role))];
        let b1 = opt_str_member("content"@, m.content);
        let b2 = opt_str_member("name"@, m.name);
        let b3 = opt_str_member("tool_call_id"@, m.tool_call_id);
        let b4: Seq<(Seq<char>, JsonV)> = match m.tool_calls {
            Some(tcs) => seq![("tool_calls"@, JsonV::Arr(tool_call_list_enc(tcs)))],
            None => Seq::empty(),
        };
        let b5 = opt_str_member("reasoning_content"@, m.reasoning_content);
        let b6 = opt_bool_member("prefix"@, m.prefix);
        assert(ms == a0 + b1 + b2 + b3 + b4 + b5 + b6);
        match m.tool_calls {
            Some(tcs) => {
                let le = tool_call_list_enc(tcs);
                assert forall|z: int| 0 <= z < le.len() implies crate::json::value::wf_v(
                    #[trigger] le[z],
                ) by {
                    lemma_tool_call_enc_wf(tcs[z]);
                }
                crate::json::value::lemma_wf_v_list_parts(le);
                assert(crate::json::value::wf_v(JsonV::Arr(le)));
            },
            None => {},
        }
    }
    crate::json::value::lemma_wf_v_members_parts(ms);
}

/// The full wire round trip of a message: its serialized text parses back
/// to its wire object, and that object decodes back to the message.
pub proof fn lemma_message_text_round_trip(m: MessageV)
    ensures
        crate::json::parse::parse_text(crate::json::ser::ser(message_enc(m))) == Some(
            message_enc(m),
        ),
        message_dec(message_enc(m)) == Some(m),
{
    lemma_message_enc_wf(m);
    crate::json::roundtrip::lemma_text_round_trip(message_enc(m));
    lemma_message_round_trip(m);
}

} // verus!

verus! {

pub proof fn lemma_message_list_round_trip(s: Seq<MessageV>)
    ensures
        message_list_dec(message_list_enc(s)) == Some(s),
{
    let e = message_list_enc(s);
    assert forall|i: int| 0 <= i < e.len() implies message_dec(#[trigger] e[i]) is Some by {
        lemma_message_round_trip(s[i]);
    }
    assert forall|i: int| 0 <= i < e.len() implies message_dec(#[trigger] e[i]) == Some(
        s[i],
    ) by {
        lemma_message_round_trip(s[i]);
    }
    assert(Seq::new(e.len(), |i: int| message_dec(e[i])->Some_0) =~= s);
}

} // verus!
