//! The request envelope: the conversation so far, the selected model, and
//! the independently-optional generation parameters.  Its wire object
//! carries `messages` and `model` always and every other field only when
//! set; the law at the end pins that down.

use vstd::prelude::*;

use crate::json::field::opt_bool_field;
use crate::json::field::opt_num_field;
use crate::json::field::opt_u32_field;
use crate::json::field::read_opt_bool;
use crate::json::field::read_opt_num;
use crate::json::field::read_opt_u32;
use crate::json::num::dec_digits;
use crate::json::value::get_v;
use crate::json::value::has_key;
use crate::json::value::jv_members;
use crate::json::value::lemma_jv_members_index;
use crate::json::value::lemma_lookup_append;
use crate::json::value::lemma_lookup_single;
use crate::json::value::lookup_v;
use crate::json::value::JsonV;
use crate::json::value::JsonValue;
use crate::json::value::Number;
use crate::raw::params::model_dec;
use crate::raw::params::model_enc;
use crate::raw::params::response_format_dec;
use crate::raw::params::response_format_enc;
use crate::raw::params::stop_dec;
use crate::raw::params::stop_enc;
use crate::raw::params::stream_options_dec;
use crate::raw::params::stream_options_enc;
use crate::raw::params::thinking_dec;
use crate::raw::params::thinking_enc;
use crate::raw::params::tool_choice_dec;
use crate::raw::params::tool_choice_enc;
use crate::raw::params::tool_list_dec;
use crate::raw::params::tool_list_enc;
use crate::raw::params::tools_from_json;
use crate::raw::params::tools_to_json;
use crate::raw::params::Model;
use crate::raw::params::ResponseFormat;
use crate::raw::params::Stop;
use crate::raw::params::StopV;
use crate::raw::params::StreamOptions;
use crate::raw::params::Thinking;
use crate::raw::params::Tool;
use crate::raw::params::ToolChoice;
use crate::raw::params::ToolChoiceV;
use crate::raw::params::ToolV;
use crate::raw::request::message_list_dec;
use crate::raw::request::message_list_enc;
use crate::raw::request::messages_from_json;
use crate::raw::request::messages_to_json;
use crate::raw::request::Message;
use crate::raw::request::MessageV;

verus! {

/// One object member, present only when the field is set.
pub open spec fn opt_member(k: Seq<char>, o: Option<JsonV>) -> Seq<(Seq<char>, JsonV)> {
    match o {
        Some(v) => seq![(k, v)],
        None => Seq::empty(),
    }
}

/// The request envelope.  Numeric sampling parameters are carried as
/// number tokens, so any value the wire format allows is representable.
#[derive(Debug, PartialEq, Eq)]
pub struct ChatCompletionRequest {
    pub messages: Vec<Message>,
    pub model: Model,
    pub thinking: Option<Thinking>,
    pub frequency_penalty: Option<Number>,
    pub max_tokens: Option<u32>,
    pub presence_penalty: Option<Number>,
    pub response_format: Option<ResponseFormat>,
    pub stop: Option<Stop>,
    pub stream: Option<bool>,
    pub stream_options: Option<StreamOptions>,
    pub temperature: Option<Number>,
    pub top_p: Option<Number>,
    pub tools: Option<Vec<Tool>>,
    pub tool_choice: Option<ToolChoice>,
    pub logprobs: Option<bool>,
    pub top_logprobs: Option<u32>,
}

pub struct RequestV {
    pub messages: Seq<MessageV>,
    pub model: Model,
    pub thinking: Option<Thinking>,
    pub frequency_penalty: Option<Seq<char>>,
    pub max_tokens: Option<u32>,
    pub presence_penalty: Option<Seq<char>>,
    pub response_format: Option<ResponseFormat>,
    pub stop: Option<StopV>,
    pub stream: Option<bool>,
    pub stream_options: Option<StreamOptions>,
    pub temperature: Option<Seq<char>>,
    pub top_p: Option<Seq<char>>,
    pub tools: Option<Seq<ToolV>>,
    pub tool_choice: Option<ToolChoiceV>,
    pub logprobs: Option<bool>,
    pub top_logprobs: Option<u32>,
}

impl DeepView for ChatCompletionRequest {
    type V = RequestV;

    open spec fn deep_view(&self) -> RequestV {
        RequestV {
            messages: self.messages.deep_view(),
            model: self.model,
            thinking: self.thinking,
            frequency_penalty: self.frequency_penalty.deep_view(),
            max_tokens: self.max_tokens,
            presence_penalty: self.presence_penalty.deep_view(),
            response_format: self.response_format,
            stop: self.stop.deep_view(),
            stream: self.stream,
            stream_options: self.stream_options,
            temperature: self.temperature.deep_view(),
            top_p: self.top_p.deep_view(),
            tools: self.tools.deep_view(),
            tool_choice: self.tool_choice.deep_view(),
            logprobs: self.logprobs,
            top_logprobs: self.top_logprobs,
        }
    }
}

/// The neutral request: no messages, the default model, nothing else set.
pub open spec fn default_request_v() -> RequestV {
    RequestV {
        messages: Seq::empty(),
        model: Model::DeepseekChat,
        thinking: None,
        frequency_penalty: None,
        max_tokens: None,
        presence_penalty: None,
        response_format: None,
        stop: None,
        stream: None,
        stream_options: None,
        temperature: None,
        top_p: None,
        tools: None,
        tool_choice: None,
        logprobs: None,
        top_logprobs: None,
    }
}

impl Default for ChatCompletionRequest {
    fn default() -> (r: Self)
        ensures
            r.deep_view() == default_request_v(),
    {
        let r = ChatCompletionRequest {
            messages: Vec::new(),
            model: Model::DeepseekChat,
            thinking: None,
            frequency_penalty: None,
            max_tokens: None,
            presence_penalty: None,
            response_format: None,
            stop: None,
            stream: None,
            stream_options: None,
            temperature: None,
            top_p: None,
            tools: None,
            tool_choice: None,
            logprobs: None,
            top_logprobs: None,
        };
        proof {
            assert(r.messages.deep_view() =~= Seq::<MessageV>::empty());
        }
        r
    }
}

/// The wire object of a request: `messages` and `model` always, optional
/// fields only when set, in the declared order.
pub open spec fn request_members(r: RequestV) -> Seq<(Seq<char>, JsonV)> {
    request_members_front(r) + request_members_back(r)
}

pub open spec fn request_enc(r: RequestV) -> JsonV {
    JsonV::Obj(request_members(r))
}

/// What a lookup in a request's wire object yields, by key.
pub open spec fn request_field(r: RequestV, q: Seq<char>) -> Option<JsonV> {
    if q == "messages"@ {
        Some(JsonV::Arr(message_list_enc(r.messages)))
    } else if q == "model"@ {
        Some(model_enc(r.model))
    } else if q == "thinking"@ {
        match r.thinking {
            Some(t) => Some(thinking_enc(t)),
            None => None,
        }
    } else if q == "frequency_penalty"@ {
        match r.frequency_penalty {
            Some(t) => Some(JsonV::Num(t)),
            None => None,
        }
    } else if q == "max_tokens"@ {
        match r.max_tokens {
            Some(n) => Some(JsonV::Num(dec_digits(n as nat))),
            None => None,
        }
    } else if q == "presence_penalty"@ {
        match r.presence_penalty {
            Some(t) => Some(JsonV::Num(t)),
            None => None,
        }
    } else if q == "response_format"@ {
        match r.response_format {
            Some(f) => Some(response_format_enc(f)),
            None => None,
        }
    } else if q == "stop"@ {
        match r.stop {
            Some(s) => Some(stop_enc(s)),
            None => None,
        }
    } else if q == "stream"@ {
        match r.stream {
            Some(b) => Some(JsonV::Bool(b)),
            None => None,
        }
    } else if q == "stream_options"@ {
        match r.stream_options {
            Some(o) => Some(stream_options_enc(o)),
            None => None,
        }
    } else if q == "temperature"@ {
        match r.temperature {
            Some(t) => Some(JsonV::Num(t)),
            None => None,
        }
    } else if q == "top_p"@ {
        match r.top_p {
            Some(t) => Some(JsonV::Num(t)),
            None => None,
        }
    } else if q == "tools"@ {
        match r.tools {
            Some(ts) => Some(JsonV::Arr(tool_list_enc(ts))),
            None => None,
        }
    } else if q == "tool_choice"@ {
        match r.tool_choice {
            Some(c) => Some(tool_choice_enc(c)),
            None => None,
        }
    } else if q == "logprobs"@ {
        match r.logprobs {
            Some(b) => Some(JsonV::Bool(b)),
            None => None,
        }
    } else if q == "top_logprobs"@ {
        match r.top_logprobs {
            Some(n) => Some(JsonV::Num(dec_digits(n as nat))),
            None => None,
        }
    } else {
        None
    }
}

proof fn lemma_lookup_opt_member(k: Seq<char>, o: Option<JsonV>, q: Seq<char>)
    ensures
        lookup_v(opt_member(k, o), q) == (match o {
            Some(v) => if k == q {
                Some(v)
            } else {
                None
            },
            None => None::<JsonV>,
        }),
{
    match o {
        Some(v) => {
            lemma_lookup_single(k, v, q);
        },
        None => {
            assert(lookup_v(opt_member(k, o), q) is None);
        },
    }
}

proof fn lemma_request_keys()
    ensures
        "messages"@.len() == 8,
        "model"@.len() == 5,
        "thinking"@.len() == 8,
        "frequency_penalty"@.len() == 17,
        "max_tokens"@.len() == 10,
        "presence_penalty"@.len() == 16,
        "response_format"@.len() == 15,
        "stop"@.len() == 4,
        "stream"@.len() == 6,
        "stream_options"@.len() == 14,
        "temperature"@.len() == 11,
        "top_p"@.len() == 5,
        "tools"@.len() == 5,
        "tool_choice"@.len() == 11,
        "logprobs"@.len() == 8,
        "top_logprobs"@.len() == 12,
        "messages"@[0] == 'm',
        "thinking"@[0] == 't',
        "logprobs"@[0] == 'l',
        "model"@[0] == 'm',
        "top_p"@[0] == 't',
        "tools"@[0] == 't',
        "top_p"@[2] == 'p',
        "tools"@[2] == 'o',
        "temperature"@[1] == 'e',
        "tool_choice"@[1] == 'o',
{
    reveal_strlit("messages");
    reveal_strlit("model");
    reveal_strlit("thinking");
    reveal_strlit("frequency_penalty");
    reveal_strlit("max_tokens");
    reveal_strlit("presence_penalty");
    reveal_strlit("response_format");
    reveal_strlit("stop");
    reveal_strlit("stream");
    reveal_strlit("stream_options");
    reveal_strlit("temperature");
    reveal_strlit("top_p");
    reveal_strlit("tools");
    reveal_strlit("tool_choice");
    reveal_strlit("logprobs");
    reveal_strlit("top_logprobs");
}

/// The first half of the wire object: through the `stop` field.
pub open spec fn request_members_front(r: RequestV) -> Seq<(Seq<char>, JsonV)> {
    seq![
        ("messages"@, JsonV::Arr(message_list_enc(r.messages))),
        ("model"@, model_enc(r.model)),
    ] + opt_member("thinking"@, match r.thinking {
        Some(t) => Some(thinking_enc(t)),
        None => None,
    }) + opt_member("frequency_penalty"@, match r.frequency_penalty {
        Some(t) => Some(JsonV::Num(t)),
        None => None,
    }) + opt_member("max_tokens"@, match r.max_tokens {
        Some(n) => Some(JsonV::Num(dec_digits(n as nat))),
        None => None,
    }) + opt_member("presence_penalty"@, match r.presence_penalty {
        Some(t) => Some(JsonV::Num(t)),
        None => None,
    }) + opt_member("response_format"@, match r.response_format {
        Some(f) => Some(response_format_enc(f)),
        None => None,
    }) + opt_member("stop"@, match r.stop {
        Some(s) => Some(stop_enc(s)),
        None => None,
    })
}

/// The second half of the wire object: from the `stream` field on.
pub open spec fn request_members_back(r: RequestV) -> Seq<(Seq<char>, JsonV)> {
    opt_member("stream"@, match r.stream {
        Some(b) => Some(JsonV::Bool(b)),
        None => None,
    }) + opt_member("stream_options"@, match r.stream_options {
        Some(o) => Some(stream_options_enc(o)),
        None => None,
    }) + opt_member("temperature"@, match r.temperature {
        Some(t) => Some(JsonV::Num(t)),
        None => None,
    }) + opt_member("top_p"@, match r.top_p {
        Some(t) => Some(JsonV::Num(t)),
        None => None,
    }) + opt_member("tools"@, match r.tools {
        Some(ts) => Some(JsonV::Arr(tool_list_enc(ts))),
        None => None,
    }) + opt_member("tool_choice"@, match r.tool_choice {
        Some(c) => Some(tool_choice_enc(c)),
        None => None,
    }) + opt_member("logprobs"@, match r.logprobs {
        Some(b) => Some(JsonV::Bool(b)),
        None => None,
    }) + opt_member("top_logprobs"@, match r.top_logprobs {
        Some(n) => Some(JsonV::Num(dec_digits(n as nat))),
        None => None,
    })
}

spec fn request_field_front(r: RequestV, q: Seq<char>) -> Option<JsonV> {
    if q == "messages"@ {
        Some(JsonV::Arr(message_list_enc(r.messages)))
    } else if q == "model"@ {
        Some(model_enc(r.model))
    } else if q == "thinking"@ {
        match r.thinking {
            Some(t) => Some(thinking_enc(t)),
            None => None,
        }
    } else if q == "frequency_penalty"@ {
        match r.frequency_penalty {
            Some(t) => Some(JsonV::Num(t)),
            None => None,
        }
    } else if q == "max_tokens"@ {
        match r.max_tokens {
            Some(n) => Some(JsonV::Num(dec_digits(n as nat))),
            None => None,
        }
    } else if q == "presence_penalty"@ {
        match r.presence_penalty {
            Some(t) => Some(JsonV::Num(t)),
            None => None,
        }
    } else if q == "response_format"@ {
        match r.response_format {
            Some(f) => Some(response_format_enc(f)),
            None => None,
        }
    } else if q == "stop"@ {
        match r.stop {
            Some(s) => Some(stop_enc(s)),
            None => None,
        }
    } else {
        None
    }
}

spec fn request_field_back(r: RequestV, q: Seq<char>) -> Option<JsonV> {
    if q == "stream"@ {
        match r.stream {
            Some(b) => Some(JsonV::Bool(b)),
            None => None,
        }
    } else if q == "stream_options"@ {
        match r.stream_options {
            Some(o) => Some(stream_options_enc(o)),
            None => None,
        }
    } else if q == "temperature"@ {
        match r.temperature {
            Some(t) => Some(JsonV::Num(t)),
            None => None,
        }
    } else if q == "top_p"@ {
        match r.top_p {
            Some(t) => Some(JsonV::Num(t)),
            None => None,
        }
    } else if q == "tools"@ {
        match r.tools {
            Some(ts) => Some(JsonV::Arr(tool_list_enc(ts))),
            None => None,
        }
    } else if q == "tool_choice"@ {
        match r.tool_choice {
            Some(c) => Some(tool_choice_enc(c)),
            None => None,
        }
    } else if q == "logprobs"@ {
        match r.logprobs {
            Some(b) => Some(JsonV::Bool(b)),
            None => None,
        }
    } else if q == "top_logprobs"@ {
        match r.top_logprobs {
            Some(n) => Some(JsonV::Num(dec_digits(n as nat))),
            None => None,
        }
    } else {
        None
    }
}

#[verifier::rlimit(100)]
proof fn lemma_request_lookup_front(r: RequestV, q: Seq<char>)
    ensures
        lookup_v(request_members_front(r), q) == request_field_front(r, q),
{
    lemma_request_keys();
    let a0 = seq![
        ("messages"@, JsonV::Arr(message_list_enc(r.messages))),
        ("model"@, model_enc(r.model)),
    ];
    let b1 = opt_member("thinking"@, match r.thinking {
        Some(t) => Some(thinking_enc(t)),
        None => None,
    });
    let b2 = opt_member("frequency_penalty"@, match r.frequency_penalty {
        Some(t) => Some(JsonV::Num(t)),
        None => None,
    });
    let b3 = opt_member("max_tokens"@, match r.max_tokens {
        Some(n) => Some(JsonV::Num(dec_digits(n as nat))),
        None => None,
    });
    let b4 = opt_member("presence_penalty"@, match r.presence_penalty {
        Some(t) => Some(JsonV::Num(t)),
        None => None,
    });
    let b5 = opt_member("response_format"@, match r.response_format {
        Some(f) => Some(response_format_enc(f)),
        None => None,
    });
    let b6 = opt_member("stop"@, match r.stop {
        Some(s) => Some(stop_enc(s)),
        None => None,
    });
    assert(a0.drop_first() =~= seq![("model"@, model_enc(r.model))]);
    lemma_lookup_single("model"@, model_enc(r.model), q);
    lemma_lookup_opt_member("thinking"@, match r.thinking {
        Some(t) => Some(thinking_enc(t)),
        None => None,
    }, q);
    lemma_lookup_opt_member("frequency_penalty"@, match r.frequency_penalty {
        Some(t) => Some(JsonV::Num(t)),
        None => None,
    }, q);
    lemma_lookup_opt_member("max_tokens"@, match r.max_tokens {
        Some(n) => Some(JsonV::Num(dec_digits(n as nat))),
        None => None,
    }, q);
    lemma_lookup_opt_member("presence_penalty"@, match r.presence_penalty {
        Some(t) => Some(JsonV::Num(t)),
        None => None,
    }, q);
    lemma_lookup_opt_member("response_format"@, match r.response_format {
        Some(f) => Some(response_format_enc(f)),
        None => None,
    }, q);
    lemma_lookup_opt_member("stop"@, match r.stop {
        Some(s) => Some(stop_enc(s)),
        None => None,
    }, q);
    let s1 = a0 + b1;
    let s2 = s1 + b2;
    let s3 = s2 + b3;
    let s4 = s3 + b4;
    let s5 = s4 + b5;
    lemma_lookup_append(a0, b1, q);
    lemma_lookup_append(s1, b2, q);
    lemma_lookup_append(s2, b3, q);
    lemma_lookup_append(s3, b4, q);
    lemma_lookup_append(s4, b5, q);
    lemma_lookup_append(s5, b6, q);
    assert(request_members_front(r) == s5 + b6);
}

#[verifier::rlimit(100)]
proof fn lemma_request_lookup_back(r: RequestV, q: Seq<char>)
    ensures
        lookup_v(request_members_back(r), q) == request_field_back(r, q),
{
    lemma_request_keys();
    let b7 = opt_member("stream"@, match r.stream {
        Some(b) => Some(JsonV::Bool(b)),
        None => None,
    });
    let b8 = opt_member("stream_options"@, match r.stream_options {
        Some(o) => Some(stream_options_enc(o)),
        None => None,
    });
    let b9 = opt_member("temperature"@, match r.temperature {
        Some(t) => Some(JsonV::Num(t)),
        None => None,
    });
    let b10 = opt_member("top_p"@, match r.top_p {
        Some(t) => Some(JsonV::Num(t)),
        None => None,
    });
    let b11 = opt_member("tools"@, match r.tools {
        Some(ts) => Some(JsonV::Arr(tool_list_enc(ts))),
        None => None,
    });
    let b12 = opt_member("tool_choice"@, match r.tool_choice {
        Some(c) => Some(tool_choice_enc(c)),
        None => None,
    });
    let b13 = opt_member("logprobs"@, match r.logprobs {
        Some(b) => Some(JsonV::Bool(b)),
        None => None,
    });
    let b14 = opt_member("top_logprobs"@, match r.top_logprobs {
        Some(n) => Some(JsonV::Num(dec_digits(n as nat))),
        None => None,
    });
    lemma_lookup_opt_member("stream"@, match r.stream {
        Some(b) => Some(JsonV::Bool(b)),
        None => None,
    }, q);
    lemma_lookup_opt_member("stream_options"@, match r.stream_options {
        Some(o) => Some(stream_options_enc(o)),
        None => None,
    }, q);
    lemma_lookup_opt_member("temperature"@, match r.temperature {
        Some(t) => Some(JsonV::Num(t)),
        None => None,
    }, q);
    lemma_lookup_opt_member("top_p"@, match r.top_p {
        Some(t) => Some(JsonV::Num(t)),
        None => None,
    }, q);
    lemma_lookup_opt_member("tools"@, match r.tools {
        Some(ts) => Some(JsonV::Arr(tool_list_enc(ts))),
        None => None,
    }, q);
    lemma_lookup_opt_member("tool_choice"@, match r.tool_choice {
        Some(c) => Some(tool_choice_enc(c)),
        None => None,
    }, q);
    lemma_lookup_opt_member("logprobs"@, match r.logprobs {
        Some(b) => Some(JsonV::Bool(b)),
        None => None,
    }, q);
    lemma_lookup_opt_member("top_logprobs"@, match r.top_logprobs {
        Some(n) => Some(JsonV::Num(dec_digits(n as nat))),
        None => None,
    }, q);
    let s8 = b7 + b8;
    let s9 = s8 + b9;
    let s10 = s9 + b10;
    let s11 = s10 + b11;
    let s12 = s11 + b12;
    let s13 = s12 + b13;
    lemma_lookup_append(b7, b8, q);
    lemma_lookup_append(s8, b9, q);
    lemma_lookup_append(s9, b10, q);
    lemma_lookup_append(s10, b11, q);
    lemma_lookup_append(s11, b12, q);
    lemma_lookup_append(s12, b13, q);
    lemma_lookup_append(s13, b14, q);
    assert(request_members_back(r) == s13 + b14);
}

/// Member lookup in a request's wire object is exactly `request_field`.
#[verifier::rlimit(100)]
pub proof fn lemma_request_lookup(r: RequestV, q: Seq<char>)
    ensures
        lookup_v(request_members(r), q) == request_field(r, q),
{
    lemma_request_keys();
    lemma_request_lookup_front(r, q);
    lemma_request_lookup_back(r, q);
    lemma_lookup_append(request_members_front(r), request_members_back(r), q);
}

/// The serialized body carries `messages` and `model` always, and each
/// optional parameter exactly when it is set: nothing is written for a
/// field left in its unset state.
pub proof fn lemma_request_omits_unset(r: RequestV)
    ensures
        has_key(request_members(r), "messages"@),
        has_key(request_members(r), "model"@),
        has_key(request_members(r), "thinking"@) == (r.thinking is Some),
        has_key(request_members(r), "frequency_penalty"@) == (r.frequency_penalty is Some),
        has_key(request_members(r), "max_tokens"@) == (r.max_tokens is Some),
        has_key(request_members(r), "presence_penalty"@) == (r.presence_penalty is Some),
        has_key(request_members(r), "response_format"@) == (r.response_format is Some),
        has_key(request_members(r), "stop"@) == (r.stop is Some),
        has_key(request_members(r), "stream"@) == (r.stream is Some),
        has_key(request_members(r), "stream_options"@) == (r.stream_options is Some),
        has_key(request_members(r), "temperature"@) == (r.temperature is Some),
        has_key(request_members(r), "top_p"@) == (r.top_p is Some),
        has_key(request_members(r), "tools"@) == (r.tools is Some),
        has_key(request_members(r), "tool_choice"@) == (r.tool_choice is Some),
        has_key(request_members(r), "logprobs"@) == (r.logprobs is Some),
        has_key(request_members(r), "top_logprobs"@) == (r.top_logprobs is Some),
{
    lemma_request_keys();
    lemma_request_lookup(r, "messages"@);
    lemma_request_lookup(r, "model"@);
    lemma_request_lookup(r, "thinking"@);
    lemma_request_lookup(r, "frequency_penalty"@);
    lemma_request_lookup(r, "max_tokens"@);
    lemma_request_lookup(r, "presence_penalty"@);
    lemma_request_lookup(r, "response_format"@);
    lemma_request_lookup(r, "stop"@);
    lemma_request_lookup(r, "stream"@);
    lemma_request_lookup(r, "stream_options"@);
    lemma_request_lookup(r, "temperature"@);
    lemma_request_lookup(r, "top_p"@);
    lemma_request_lookup(r, "tools"@);
    lemma_request_lookup(r, "tool_choice"@);
    lemma_request_lookup(r, "logprobs"@);
    lemma_request_lookup(r, "top_logprobs"@);
}

} // verus!

verus! {

/// Decoding of a request object: every field is optional with a default,
/// so an empty object reads as the neutral request.
pub open spec fn request_dec(v: JsonV) -> Option<RequestV> {
    if !(v is Obj) {
        None
    } else {
        let messages = match get_v(v, "messages"@) {
            None => Some(Seq::<MessageV>::empty()),
            Some(JsonV::Arr(items)) => message_list_dec(items),
            Some(_) => None,
        };
        let model = match get_v(v, "model"@) {
            None => Some(Model::DeepseekChat),
            Some(mv) => model_dec(mv),
        };
        let thinking = match get_v(v, "thinking"@) {
            None => Some(None),
            Some(JsonV::Null) => Some(None),
            Some(tv) => match thinking_dec(tv) {
                Some(t) => Some(Some(t)),
                None => None,
            },
        };
        let response_format = match get_v(v, "response_format"@) {
            None => Some(None),
            Some(JsonV::Null) => Some(None),
            Some(fv) => match response_format_dec(fv) {
                Some(f) => Some(Some(f)),
                None => None,
            },
        };
        let stop = match get_v(v, "stop"@) {
            None => Some(None),
            Some(JsonV::Null) => Some(None),
            Some(sv) => match stop_dec(sv) {
                Some(x) => Some(Some(x)),
                None => None,
            },
        };
        let stream_options = match get_v(v, "stream_options"@) {
            None => Some(None),
            Some(JsonV::Null) => Some(None),
            Some(ov) => match stream_options_dec(ov) {
                Some(o) => Some(Some(o)),
                None => None,
            },
        };
        let tools = match get_v(v, "tools"@) {
            None => Some(None),
            Some(JsonV::Null) => Some(None),
            Some(JsonV::Arr(items)) => match tool_list_dec(items) {
                Some(ts) => Some(Some(ts)),
                None => None,
            },
            Some(_) => None,
        };
        let tool_choice = match get_v(v, "tool_choice"@) {
            None => Some(None),
            Some(JsonV::Null) => Some(None),
            Some(cv) => match tool_choice_dec(cv) {
                Some(c) => Some(Some(c)),
                None => None,
            },
        };
        match (
            messages,
            model,
            thinking,
            opt_num_field(v, "frequency_penalty"@),
            opt_u32_field(v, "max_tokens"@),
            opt_num_field(v, "presence_penalty"@),
            response_format,
            stop,
        ) {
            (
                Some(messages),
                Some(model),
                Some(thinking),
                Some(frequency_penalty),
                Some(max_tokens),
                Some(presence_penalty),
                Some(response_format),
                Some(stop),
            ) => match (
                opt_bool_field(v, "stream"@),
                stream_options,
                opt_num_field(v, "temperature"@),
                opt_num_field(v, "top_p"@),
                tools,
                tool_choice,
                opt_bool_field(v, "logprobs"@),
                opt_u32_field(v, "top_logprobs"@),
            ) {
                (
                    Some(stream),
                    Some(stream_options),
                    Some(temperature),
                    Some(top_p),
                    Some(tools),
                    Some(tool_choice),
                    Some(logprobs),
                    Some(top_logprobs),
                ) => Some(
                    RequestV {
                        messages,
                        model,
                        thinking,
                        frequency_penalty,
                        max_tokens,
                        presence_penalty,
                        response_format,
                        stop,
                        stream,
                        stream_options,
                        temperature,
                        top_p,
                        tools,
                        tool_choice,
                        logprobs,
                        top_logprobs,
                    },
                ),
                _ => None,
            },
            _ => None,
        }
    }
}

impl ChatCompletionRequest {
    /// Builds the first half of the wire members.
    #[verifier::rlimit(100)]
    fn front_members(&self) -> (r: Vec<(String, JsonValue)>)
        ensures
            jv_members(r@) == request_members_front(self.deep_view()),
    {
        let mut members: Vec<(String, JsonValue)> = Vec::new();
        members.push(("messages".to_owned(), messages_to_json(&self.messages)));
        members.push(("model".to_owned(), self.model.to_json()));
        match &self.thinking {
            Some(t) => {
                members.push(("thinking".to_owned(), t.to_json()));
            },
            None => {},
        }
        match &self.frequency_penalty {
            Some(x) => {
                members.push(("frequency_penalty".to_owned(), JsonValue::Num(x.clone())));
            },
            None => {},
        }
        match &self.max_tokens {
            Some(n) => {
                members.push(("max_tokens".to_owned(), JsonValue::Num(Number::from_u64(
                    *n as u64,
                ))));
            },
            None => {},
        }
        match &self.presence_penalty {
            Some(x) => {
                members.push(("presence_penalty".to_owned(), JsonValue::Num(x.clone())));
            },
            None => {},
        }
        match &self.response_format {
            Some(f) => {
                members.push(("response_format".to_owned(), f.to_json()));
            },
            None => {},
        }
        match &self.stop {
            Some(x) => {
                members.push(("stop".to_owned(), x.to_json()));
            },
            None => {},
        }
        proof {
            lemma_jv_members_index(members@);
            assert(jv_members(members@) =~= request_members_front(self.deep_view()));
        }
        members
    }

    /// Builds the second half of the wire members.
    #[verifier::rlimit(100)]
    fn back_members(&self) -> (r: Vec<(String, JsonValue)>)
        ensures
            jv_members(r@) == request_members_back(self.deep_view()),
    {
        let mut members: Vec<(String, JsonValue)> = Vec::new();
        match &self.stream {
            Some(b) => {
                members.push(("stream".to_owned(), JsonValue::Bool(*b)));
            },
            None => {},
        }
        match &self.stream_options {
            Some(o) => {
                members.push(("stream_options".to_owned(), o.to_json()));
            },
            None => {},
        }
        match &self.temperature {
            Some(x) => {
                members.push(("temperature".to_owned(), JsonValue::Num(x.clone())));
            },
            None => {},
        }
        match &self.top_p {
            Some(x) => {
                members.push(("top_p".to_owned(), JsonValue::Num(x.clone())));
            },
            None => {},
        }
        match &self.tools {
            Some(ts) => {
                members.push(("tools".to_owned(), tools_to_json(ts)));
            },
            None => {},
        }
        match &self.tool_choice {
            Some(c) => {
                members.push(("tool_choice".to_owned(), c.to_json()));
            },
            None => {},
        }
        match &self.logprobs {
            Some(b) => {
                members.push(("logprobs".to_owned(), JsonValue::Bool(*b)));
            },
            None => {},
        }
        match &self.top_logprobs {
            Some(n) => {
                members.push(("top_logprobs".to_owned(), JsonValue::Num(Number::from_u64(
                    *n as u64,
                ))));
            },
            None => {},
        }
        proof {
            lemma_jv_members_index(members@);
            assert(jv_members(members@) =~= request_members_back(self.deep_view()));
        }
        members
    }

    /// Encodes this request as its wire object.
    pub fn to_json(&self) -> (r: JsonValue)
        ensures
            r@ == request_enc(self.deep_view()),
    {
        let mut members = self.front_members();
        let ghost front = members@;
        let mut back = self.back_members();
        let ghost backv = back@;
        members.append(&mut back);
        proof {
            assert(members@ =~= front + backv);
            crate::json::value::lemma_jv_members_append(front, backv);
        }
        JsonValue::Obj(members)
    }

    /// Decodes a request from its wire object.
    #[verifier::rlimit(100)]
    pub fn from_json(v: &JsonValue) -> (r: Option<ChatCompletionRequest>)
        ensures
            (r is Some) == (request_dec(v@) is Some),
            r matches Some(x) ==> request_dec(v@) == Some(x.deep_view()),
    {
        if !v.is_obj() {
            return None;
        }
        let messages: Vec<Message> = match v.get("messages") {
            None => Vec::new(),
            Some(x) => match x {
                JsonValue::Arr(items) => match messages_from_json(items) {
                    Some(ms) => ms,
                    None => {
                        return None;
                    },
                },
                _ => {
                    return None;
                },
            },
        };
        let model = match v.get("model") {
            None => Model::DeepseekChat,
            Some(mv) => match Model::from_json(mv) {
                Some(m) => m,
                None => {
                    return None;
                },
            },
        };
        let thinking = match v.get("thinking") {
            None => None,
            Some(x) => match x {
                JsonValue::Null => None,
                _ => match Thinking::from_json(x) {
                    Some(t) => Some(t),
                    None => {
                        return None;
                    },
                },
            },
        };
        let frequency_penalty = match read_opt_num(v, "frequency_penalty") {
            Some(x) => x,
            None => {
                return None;
            },
        };
        let max_tokens = match read_opt_u32(v, "max_tokens") {
            Some(x) => x,
            None => {
                return None;
            },
        };
        let presence_penalty = match read_opt_num(v, "presence_penalty") {
            Some(x) => x,
            None => {
                return None;
            },
        };
        let response_format = match v.get("response_format") {
            None => None,
            Some(x) => match x {
                JsonValue::Null => None,
                _ => match ResponseFormat::from_json(x) {
                    Some(f) => Some(f),
                    None => {
                        return None;
                    },
                },
            },
        };
        let stop = match v.get("stop") {
            None => None,
            Some(x) => match x {
                JsonValue::Null => None,
                _ => match Stop::from_json(x) {
                    Some(s) => Some(s),
                    None => {
                        return None;
                    },
                },
            },
        };
        let stream = match read_opt_bool(v, "stream") {
            Some(x) => x,
            None => {
                return None;
            },
        };
        let stream_options = match v.get("stream_options") {
            None => None,
            Some(x) => match x {
                JsonValue::Null => None,
                _ => match StreamOptions::from_json(x) {
                    Some(o) => Some(o),
                    None => {
                        return None;
                    },
                },
            },
        };
        let temperature = match read_opt_num(v, "temperature") {
            Some(x) => x,
            None => {
                return None;
            },
        };
        let top_p = match read_opt_num(v, "top_p") {
            Some(x) => x,
            None => {
                return None;
            },
        };
        let tools = match v.get("tools") {
            None => None,
            Some(x) => match x {
                JsonValue::Null => None,
                JsonValue::Arr(items) => match tools_from_json(items) {
                    Some(ts) => Some(ts),
                    None => {
                        return None;
                    },
                },
                _ => {
                    return None;
                },
            },
        };
        let tool_choice = match v.get("tool_choice") {
            None => None,
            Some(x) => match x {
                JsonValue::Null => None,
                _ => match ToolChoice::from_json(x) {
                    Some(c) => Some(c),
                    None => {
                        return None;
                    },
                },
            },
        };
        let logprobs = match read_opt_bool(v, "logprobs") {
            Some(x) => x,
            None => {
                return None;
            },
        };
        let top_logprobs = match read_opt_u32(v, "top_logprobs") {
            Some(x) => x,
            None => {
                return None;
            },
        };
        proof {
            assert(messages.deep_view() =~= (match get_v(v@, "messages"@) {
                None => Seq::<MessageV>::empty(),
                Some(JsonV::Arr(items)) => message_list_dec(items)->Some_0,
                Some(_) => Seq::<MessageV>::empty(),
            }));
        }
        Some(
            ChatCompletionRequest {
                messages,
                model,
                thinking,
                frequency_penalty,
                max_tokens,
                presence_penalty,
                response_format,
                stop,
                stream,
                stream_options,
                temperature,
                top_p,
                tools,
                tool_choice,
                logprobs,
                top_logprobs,
            },
        )
    }
}

} // verus!

verus! {

/// The request envelope round-trips losslessly through its wire object:
/// decoding the encoding of any request yields that request back.
#[verifier::rlimit(100)]
pub proof fn lemma_request_round_trip(r: RequestV)
    ensures
        request_dec(request_enc(r)) == Some(r),
{
    lemma_request_keys();
    lemma_request_lookup(r, "messages"@);
    lemma_request_lookup(r, "model"@);
    lemma_request_lookup(r, "thinking"@);
    lemma_request_lookup(r, "frequency_penalty"@);
    lemma_request_lookup(r, "max_tokens"@);
    lemma_request_lookup(r, "presence_penalty"@);
    lemma_request_lookup(r, "response_format"@);
    lemma_request_lookup(r, "stop"@);
    lemma_request_lookup(r, "stream"@);
    lemma_request_lookup(r, "stream_options"@);
    lemma_request_lookup(r, "temperature"@);
    lemma_request_lookup(r, "top_p"@);
    lemma_request_lookup(r, "tools"@);
    lemma_request_lookup(r, "tool_choice"@);
    lemma_request_lookup(r, "logprobs"@);
    lemma_request_lookup(r, "top_logprobs"@);
    crate::raw::request::lemma_message_list_round_trip(r.messages);
    crate::raw::params::lemma_model_round_trip(r.model);
    match r.thinking {
        Some(t) => {
            crate::raw::params::lemma_thinking_round_trip(t);
        },
        None => {},
    }
    match r.max_tokens {
        Some(n) => {
            crate::json::num::lemma_dec_digits_round_trip(n as u64);
        },
        None => {},
    }
    match r.response_format {
        Some(f) => {
            crate::raw::params::lemma_response_format_round_trip(f);
        },
        None => {},
    }
    match r.stop {
        Some(x) => {
            crate::raw::params::lemma_stop_round_trip(x);
        },
        None => {},
    }
    match r.stream_options {
        Some(o) => {
            crate::raw::params::lemma_stream_options_round_trip(o);
        },
        None => {},
    }
    match r.tools {
        Some(ts) => {
            crate::raw::params::lemma_tool_list_round_trip(ts);
        },
        None => {},
    }
    match r.tool_choice {
        Some(c) => {
            crate::raw::params::lemma_tool_choice_round_trip(c);
        },
        None => {},
    }
    match r.top_logprobs {
        Some(n) => {
            crate::json::num::lemma_dec_digits_round_trip(n as u64);
        },
        None => {},
    }
    assert(request_dec(request_enc(r)) matches Some(d) && d == r);
}

} // verus!

verus! {

/// A request whose number tokens and tool parameter schemas are well
/// formed; every value the builder produces satisfies this.
pub open spec fn wf_request_v(r: RequestV) -> bool {
    &&& (r.frequency_penalty matches Some(t) ==> crate::json::value::is_num_lex(t))
    &&& (r.presence_penalty matches Some(t) ==> crate::json::value::is_num_lex(t))
    &&& (r.temperature matches Some(t) ==> crate::json::value::is_num_lex(t))
    &&& (r.top_p matches Some(t) ==> crate::json::value::is_num_lex(t))
    &&& (r.tools matches Some(ts) ==> forall|i: int|
        0 <= i < ts.len() ==> crate::json::value::wf_v(
            (#[trigger] ts[i]).function.parameters,
        ))
}

#[verifier::rlimit(100)]
proof fn lemma_request_front_wf(r: RequestV)
    requires
        wf_request_v(r),
    ensures
        crate::json::value::wf_v_members(request_members_front(r)),
{
    let front = request_members_front(r);
    assert forall|i: int| 0 <= i < front.len() implies crate::json::value::wf_v(
        (#[trigger] front[i]).1,
    ) by {
        let ml = message_list_enc(r.messages);
        assert forall|z: int| 0 <= z < ml.len() implies crate::json::value::wf_v(
            #[trigger] ml[z],
        ) by {
            crate::raw::request::lemma_message_enc_wf(r.messages[z]);
        }
        crate::json::value::lemma_wf_v_list_parts(ml);
        match r.thinking {
            Some(t) => {
                crate::raw::params::lemma_thinking_enc_wf(t);
            },
            None => {},
        }
        match r.max_tokens {
            Some(n) => {
                crate::json::num::lemma_dec_digits_num_lex(n as nat);
            },
            None => {},
        }
        match r.response_format {
            Some(f) => {
                crate::raw::params::lemma_response_format_enc_wf(f);
            },
            None => {},
        }
        match r.stop {
            Some(x) => {
                crate::raw::params::lemma_stop_enc_wf(x);
            },
            None => {},
        }
    }
    crate::json::value::lemma_wf_v_members_parts(front);
}

#[verifier::rlimit(100)]
proof fn lemma_request_back_wf(r: RequestV)
    requires
        wf_request_v(r),
    ensures
        crate::json::value::wf_v_members(request_members_back(r)),
{
    let back = request_members_back(r);
    assert forall|i: int| 0 <= i < back.len() implies crate::json::value::wf_v(
        (#[trigger] back[i]).1,
    ) by {
        match r.stream_options {
            Some(o) => {
                crate::raw::params::lemma_stream_options_enc_wf(o);
            },
            None => {},
        }
        match r.tools {
            Some(ts) => {
                let tl = tool_list_enc(ts);
                assert forall|z: int| 0 <= z < tl.len() implies crate::json::value::wf_v(
                    #[trigger] tl[z],
                ) by {
                    crate::raw::params::lemma_tool_enc_wf(ts[z]);
                }
                crate::json::value::lemma_wf_v_list_parts(tl);
            },
            None => {},
        }
        match r.tool_choice {
            Some(c) => {
                crate::raw::params::lemma_tool_choice_enc_wf(c);
            },
            None => {},
        }
        match r.top_logprobs {
            Some(n) => {
                crate::json::num::lemma_dec_digits_num_lex(n as nat);
            },
            None => {},
        }
    }
    crate::json::value::lemma_wf_v_members_parts(back);
}

/// The wire object of a well-formed request is well formed.
pub proof fn lemma_request_enc_wf(r: RequestV)
    requires
        wf_request_v(r),
    ensures
        crate::json::value::wf_v(request_enc(r)),
{
    let front = request_members_front(r);
    let back = request_members_back(r);
    lemma_request_front_wf(r);
    lemma_request_back_wf(r);
    assert forall|i: int| 0 <= i < request_members(r).len() implies crate::json::value::wf_v(
        (#[trigger] request_members(r)[i]).1,
    ) by {
        if i < front.len() {
            crate::json::value::lemma_wf_v_members_index(front, i);
        } else {
            crate::json::value::lemma_wf_v_members_index(back, i - front.len());
        }
    }
    crate::json::value::lemma_wf_v_members_parts(request_members(r));
}

/// The full wire round trip of a well-formed request: its serialized body
/// parses back to its wire object, and that object decodes back to the
/// request.
pub proof fn lemma_request_text_round_trip(r: RequestV)
    requires
        wf_request_v(r),
    ensures
        crate::json::parse::parse_text(crate::json::ser::ser(request_enc(r))) == Some(
            request_enc(r),
        ),
        request_dec(request_enc(r)) == Some(r),
{
    lemma_request_enc_wf(r);
    crate::json::roundtrip::lemma_text_round_trip(request_enc(r));
    lemma_request_round_trip(r);
}

} // verus!
