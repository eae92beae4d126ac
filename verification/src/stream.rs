//! The streaming decode pipeline.
//!
//! Two layers: `SseDecoder` turns a server-sent-event text stream into the
//! data payloads of its events, one state-machine step per character; the
//! chunk layer turns each payload into the next item of the decoded
//! sequence — the literal sentinel ends the sequence, a chunk that parses
//! is yielded as a success, and a malformed payload is yielded as an error
//! without ending the sequence.

use vstd::prelude::*;

use crate::error::ApiError;
use crate::json::read::parse_json;
use crate::json::value::chars_to_string;
use crate::json::value::str_eq;
use crate::json::value::str_to_chars;
use crate::raw::streaming::chunk_text_dec;
use crate::raw::streaming::ChatCompletionChunk;
use crate::raw::streaming::ChunkV;

verus! {

/// The state of the event framer: the partial line, the data accumulated
/// for the current event, whether any data line was seen, and whether the
/// last character was a carriage return.
pub struct SseState {
    pub line: Seq<char>,
    pub data: Seq<char>,
    pub has_data: bool,
    pub prev_cr: bool,
}

pub open spec fn sse_init() -> SseState {
    SseState { line: Seq::empty(), data: Seq::empty(), has_data: false, prev_cr: false }
}

pub open spec fn data_prefix() -> Seq<char> {
    seq!['d', 'a', 't', 'a', ':']
}

pub open spec fn data_word() -> Seq<char> {
    seq!['d', 'a', 't', 'a']
}

/// The value a complete line contributes to the event data: the rest after
/// `data:` (one leading space removed), the empty value for a bare `data`
/// line, nothing for any other line.
pub open spec fn line_value(line: Seq<char>) -> Option<Seq<char>> {
    if line.len() >= 5 && line.subrange(0, 5) == data_prefix() {
        let rest = line.subrange(5, line.len() as int);
        if rest.len() > 0 && rest[0] == ' ' {
            Some(rest.drop_first())
        } else {
            Some(rest)
        }
    } else if line == data_word() {
        Some(Seq::empty())
    } else {
        None
    }
}

/// One complete line is processed: an empty line dispatches the
/// accumulated data as an event, a data line appends its value, any other
/// line is ignored.
pub open spec fn sse_line_step(st: SseState, line: Seq<char>) -> (SseState, Option<
    Seq<char>,
>) {
    if line.len() == 0 {
        if st.has_data {
            (SseState { data: Seq::empty(), has_data: false, ..st }, Some(st.data))
        } else {
            (st, None)
        }
    } else {
        match line_value(line) {
            Some(val) => (
                SseState {
                    data: if st.has_data {
                        st.data + seq!['\n'] + val
                    } else {
                        val
                    },
                    has_data: true,
                    ..st
                },
                None,
            ),
            None => (st, None),
        }
    }
}

/// One character is processed: a line feed after a carriage return is
/// swallowed, any line terminator completes the current line, any other
/// character extends it.
pub open spec fn sse_char_step(st: SseState, c: char) -> (SseState, Option<Seq<char>>) {
    if st.prev_cr && c == '\n' {
        (SseState { prev_cr: false, ..st }, None)
    } else if c == '\n' || c == '\r' {
        let stepped = sse_line_step(SseState { prev_cr: c == '\r', ..st }, st.line);
        (SseState { line: Seq::empty(), ..stepped.0 }, stepped.1)
    } else {
        (SseState { line: st.line.push(c), prev_cr: false, ..st }, None)
    }
}

/// A whole input processed character by character, collecting the
/// dispatched event payloads in order.
pub open spec fn sse_run(st: SseState, input: Seq<char>) -> (SseState, Seq<Seq<char>>)
    decreases input.len(),
{
    if input.len() == 0 {
        (st, Seq::empty())
    } else {
        let first = sse_char_step(st, input.first());
        let rest = sse_run(first.0, input.drop_first());
        (
            rest.0,
            match first.1 {
                Some(e) => seq![e] + rest.1,
                None => rest.1,
            },
        )
    }
}

proof fn lemma_sse_run_snoc(st: SseState, s: Seq<char>, c: char)
    ensures
        sse_run(st, s.push(c)) == ({
            let done = sse_run(st, s);
            let stepped = sse_char_step(done.0, c);
            (
                stepped.0,
                match stepped.1 {
                    Some(e) => done.1.push(e),
                    None => done.1,
                },
            )
        }),
    decreases s.len(),
{
    let p = s.push(c);
    if s.len() == 0 {
        assert(p.first() == c);
        assert(p.drop_first() =~= Seq::<char>::empty());
        let stepped = sse_char_step(st, c);
        assert(sse_run(stepped.0, Seq::<char>::empty()) == (stepped.0, Seq::<Seq<
            char,
        >>::empty()));
        assert(sse_run(st, Seq::<char>::empty()) == (st, Seq::<Seq<char>>::empty()));
        match stepped.1 {
            Some(e) => {
                assert(seq![e] + Seq::<Seq<char>>::empty() =~= Seq::<Seq<char>>::empty().push(
                    e,
                ));
            },
            None => {},
        }
    } else {
        assert(p.first() == s.first());
        assert(p.drop_first() =~= s.drop_first().push(c));
        let first = sse_char_step(st, s.first());
        lemma_sse_run_snoc(first.0, s.drop_first(), c);
        let done = sse_run(first.0, s.drop_first());
        let stepped = sse_char_step(done.0, c);
        match (first.1, stepped.1) {
            (Some(e0), Some(e1)) => {
                assert(seq![e0] + done.1.push(e1) =~= (seq![e0] + done.1).push(e1));
            },
            (Some(e0), None) => {},
            (None, _) => {},
        }
    }
}

/// The incremental event framer.
pub struct SseDecoder {
    line: Vec<char>,
    data: Vec<char>,
    has_data: bool,
    prev_cr: bool,
}

impl View for SseDecoder {
    type V = SseState;

    closed spec fn view(&self) -> SseState {
        SseState {
            line: self.line@,
            data: self.data@,
            has_data: self.has_data,
            prev_cr: self.prev_cr,
        }
    }
}

impl SseDecoder {
    /// A fresh framer with nothing buffered.
    pub fn new() -> (r: Self)
        ensures
            r@ == sse_init(),
    {
        let r = SseDecoder {
            line: Vec::new(),
            data: Vec::new(),
            has_data: false,
            prev_cr: false,
        };
        proof {
            assert(r@.line =~= sse_init().line);
            assert(r@.data =~= sse_init().data);
        }
        r
    }

    /// The value the current line contributes, mirroring `line_value`.
    #[verifier::loop_isolation(false)]
    fn line_value_x(&self) -> (r: Option<Vec<char>>)
        ensures
            (r is Some) == (line_value(self.line@) is Some),
            r matches Some(v) ==> line_value(self.line@) == Some(v@),
    {
        let n = self.line.len();
        if n >= 5 && self.line[0] == 'd' && self.line[1] == 'a' && self.line[2] == 't'
            && self.line[3] == 'a' && self.line[4] == ':' {
            proof {
                assert(self.line@.subrange(0, 5) =~= data_prefix());
            }
            let from: usize = if n >= 6 && self.line[5] == ' ' {
                6
            } else {
                5
            };
            let mut v: Vec<char> = Vec::new();
            let mut k = from;
            while k < n
                invariant
                    from <= k <= n,
                    v@ == self.line@.subrange(from as int, k as int),
                decreases n - k,
            {
                v.push(self.line[k]);
                proof {
                    assert(self.line@.subrange(from as int, k as int).push(
                        self.line@[k as int],
                    ) =~= self.line@.subrange(from as int, k as int + 1));
                }
                k += 1;
            }
            proof {
                let rest = self.line@.subrange(5, self.line@.len() as int);
                if rest.len() > 0 && rest[0] == ' ' {
                    assert(self.line@.subrange(6, n as int) =~= rest.drop_first());
                } else {
                    assert(self.line@.subrange(5, n as int) =~= rest);
                }
            }
            Some(v)
        } else if n == 4 && self.line[0] == 'd' && self.line[1] == 'a' && self.line[2] == 't'
            && self.line[3] == 'a' {
            proof {
                assert(self.line@ =~= data_word());
            }
            Some(Vec::new())
        } else {
            proof {
                if self.line@.len() >= 5 && self.line@.subrange(0, 5) == data_prefix() {
                    assert(self.line@[0] == 'd' && self.line@[1] == 'a' && self.line@[2]
                        == 't' && self.line@[3] == 'a' && self.line@[4] == ':') by {
                        assert(self.line@.subrange(0, 5)[0] == self.line@[0]);
                        assert(self.line@.subrange(0, 5)[1] == self.line@[1]);
                        assert(self.line@.subrange(0, 5)[2] == self.line@[2]);
                        assert(self.line@.subrange(0, 5)[3] == self.line@[3]);
                        assert(self.line@.subrange(0, 5)[4] == self.line@[4]);
                    }
                }
                if self.line@ == data_word() {
                    assert(self.line@[0] == 'd' && self.line@[1] == 'a' && self.line@[2]
                        == 't' && self.line@[3] == 'a');
                }
            }
            None
        }
    }

    /// Feeds one character; yields a payload when an event is dispatched.
    #[verifier::loop_isolation(false)]
    fn push_char(&mut self, c: char) -> (r: Option<String>)
        ensures
            ({
                let stepped = sse_char_step(old(self)@, c);
                &&& final(self)@ == stepped.0
                &&& (r is Some) == (stepped.1 is Some)
                &&& (r matches Some(s) ==> stepped.1 == Some(s@))
            }),
    {
        if self.prev_cr && c == '\n' {
            self.prev_cr = false;
            return None;
        }
        if c == '\n' || c == '\r' {
            self.prev_cr = c == '\r';
            let ghost st_pre = self@;
            let r: Option<String> = if self.line.len() == 0 {
                if self.has_data {
                    let d = chars_to_string(&self.data);
                    self.data = Vec::new();
                    self.has_data = false;
                    proof {
                        assert(self@.data =~= Seq::<char>::empty());
                    }
                    Some(d)
                } else {
                    None
                }
            } else {
                match self.line_value_x() {
                    Some(val) => {
                        if self.has_data {
                            self.data.push('\n');
                            let ghost with_nl = self.data@;
                            let n = val.len();
                            let mut k: usize = 0;
                            while k < n
                                invariant
                                    0 <= k <= n,
                                    n == val@.len(),
                                    self.data@ == with_nl + val@.take(k as int),
                                    self.line@ == st_pre.line,
                                    self.prev_cr == st_pre.prev_cr,
                                    self.has_data == st_pre.has_data,
                                decreases n - k,
                            {
                                self.data.push(val[k]);
                                proof {
                                    assert(with_nl + val@.take(k as int + 1) =~= (with_nl
                                        + val@.take(k as int)).push(val@[k as int]));
                                }
                                k += 1;
                            }
                            proof {
                                assert(val@.take(n as int) =~= val@);
                                assert(self.data@ =~= st_pre.data + seq!['\n'] + val@);
                            }
                        } else {
                            self.data = val;
                            self.has_data = true;
                        }
                        self.has_data = true;
                        None
                    },
                    None => None,
                }
            };
            self.line = Vec::new();
            proof {
                assert(self@.line =~= Seq::<char>::empty());
            }
            return r;
        }
        self.line.push(c);
        self.prev_cr = false;
        None
    }

    /// Feeds a chunk of transport text; yields the payloads of every event
    /// completed within it, in order.
    #[verifier::loop_isolation(false)]
    pub fn feed(&mut self, chunk: &str) -> (out: Vec<String>)
        ensures
            ({
                let run = sse_run(old(self)@, chunk@);
                &&& final(self)@ == run.0
                &&& out.deep_view() == run.1
            }),
    {
        let cs = str_to_chars(chunk);
        let mut out: Vec<String> = Vec::new();
        let n = cs.len();
        let mut i: usize = 0;
        proof {
            assert(cs@.take(0) =~= Seq::<char>::empty());
            assert(out.deep_view() =~= sse_run(old(self)@, cs@.take(0)).1);
        }
        while i < n
            invariant
                0 <= i <= n,
                n == cs@.len(),
                cs@ == chunk@,
                self@ == sse_run(old(self)@, cs@.take(i as int)).0,
                out.deep_view() == sse_run(old(self)@, cs@.take(i as int)).1,
            decreases n - i,
        {
            let ghost pre_out = out.deep_view();
            match self.push_char(cs[i]) {
                Some(e) => {
                    out.push(e);
                },
                None => {},
            }
            proof {
                lemma_sse_run_snoc(old(self)@, cs@.take(i as int), cs@[i as int]);
                assert(cs@.take(i as int).push(cs@[i as int]) =~= cs@.take(i as int + 1));
                assert(out.deep_view() =~= sse_run(old(self)@, cs@.take(i as int + 1)).1);
            }
            i += 1;
        }
        proof {
            assert(cs@.take(n as int) =~= cs@);
        }
        out
    }
}

/// The items a payload sequence decodes to, in order: the sentinel ends
/// the sequence and contributes nothing; every earlier payload contributes
/// one item, its decoded chunk or a decode failure.
pub open spec fn stream_items(payloads: Seq<Seq<char>>) -> Seq<Option<ChunkV>>
    decreases payloads.len(),
{
    if payloads.len() == 0 {
        Seq::empty()
    } else if payloads.first() == "[DONE]"@ {
        Seq::empty()
    } else {
        seq![chunk_text_dec(payloads.first())] + stream_items(payloads.drop_first())
    }
}

/// The decoded sequence is exactly the payloads before the first sentinel,
/// each decoded independently: a malformed payload yields its error item
/// and the sequence goes on; the sentinel and everything after it yield
/// nothing.
pub proof fn lemma_stream_items_characterization(payloads: Seq<Seq<char>>, k: int)
    requires
        0 <= k <= payloads.len(),
        forall|q: int| 0 <= q < k ==> payloads[q] != "[DONE]"@,
        k == payloads.len() || payloads[k] == "[DONE]"@,
    ensures
        stream_items(payloads).len() == k,
        forall|q: int|
            0 <= q < k ==> stream_items(payloads)[q] == chunk_text_dec(payloads[q]),
    decreases k,
{
    if payloads.len() == 0 {
    } else if k == 0 {
    } else {
        assert(payloads.first() != "[DONE]"@);
        lemma_stream_items_characterization(payloads.drop_first(), k - 1);
        assert forall|q: int|
            0 <= q < k implies stream_items(payloads)[q] == chunk_text_dec(
            payloads[q],
        ) by {
            if q > 0 {
                assert(stream_items(payloads)[q] == stream_items(payloads.drop_first())[q
                    - 1]);
                assert(payloads.drop_first()[q - 1] == payloads[q]);
            }
        }
    }
}

/// Decodes one event payload into a chunk, or a deserialization error.
pub fn decode_chunk_text(payload: &str) -> (r: Result<ChatCompletionChunk, ApiError>)
    ensures
        (r is Ok) == (chunk_text_dec(payload@) is Some),
        r matches Ok(c) ==> chunk_text_dec(payload@) == Some(c.deep_view()),
        r matches Err(e) ==> e is Deserialization,
{
    match parse_json(payload) {
        Some(j) => match ChatCompletionChunk::from_json(&j) {
            Some(c) => Ok(c),
            None => Err(
                ApiError::Deserialization(
                    "the event payload does not match the chunk schema".to_owned(),
                ),
            ),
        },
        None => Err(
            ApiError::Deserialization("the event payload is not valid JSON".to_owned()),
        ),
    }
}

/// The per-event decode state machine: once the sentinel has been seen the
/// sequence is over and nothing further is yielded.
pub struct StreamDecoder {
    done: bool,
}

impl View for StreamDecoder {
    type V = bool;

    closed spec fn view(&self) -> bool {
        self.done
    }
}

impl StreamDecoder {
    /// A fresh decoder; the sequence is still open.
    pub fn new() -> (r: Self)
        ensures
            r@ == false,
    {
        StreamDecoder { done: false }
    }

    /// Handles the next event payload: nothing once the sequence is over
    /// or on the sentinel (which closes it), otherwise the decoded chunk
    /// or the decode error as the next item.
    pub fn next_event(&mut self, payload: &str) -> (r: Option<
        Result<ChatCompletionChunk, ApiError>,
    >)
        ensures
            old(self)@ ==> r is None && final(self)@,
            !old(self)@ && payload@ == "[DONE]"@ ==> r is None && final(self)@,
            !old(self)@ && payload@ != "[DONE]"@ ==> !final(self)@ && (match chunk_text_dec(
                payload@,
            ) {
                Some(cv) => r matches Some(x) && x matches Ok(c) && c.deep_view() == cv,
                None => r matches Some(x) && x matches Err(e) && e is Deserialization,
            }),
    {
        if self.done {
            return None;
        }
        if str_eq(payload, "[DONE]") {
            self.done = true;
            return None;
        }
        Some(decode_chunk_text(payload))
    }
}

/// Decodes a whole payload sequence at once: exactly the items of
/// `stream_items`, successes and per-event errors in their places.
#[verifier::loop_isolation(false)]
pub fn decode_events(payloads: &Vec<String>) -> (out: Vec<
    Result<ChatCompletionChunk, ApiError>,
>)
    ensures
        out@.len() == stream_items(payloads.deep_view()).len(),
        forall|q: int|
            0 <= q < out@.len() ==> ((#[trigger] out@[q]) is Ok) == (stream_items(
                payloads.deep_view(),
            )[q] is Some),
        forall|q: int|
            0 <= q < out@.len() ==> ((#[trigger] out@[q]) matches Ok(c) ==> stream_items(
                payloads.deep_view(),
            )[q] == Some(c.deep_view())),
        forall|q: int|
            0 <= q < out@.len() ==> ((#[trigger] out@[q]) matches Err(e)
                ==> e is Deserialization),
{
    let ghost pv = payloads.deep_view();
    let mut out: Vec<Result<ChatCompletionChunk, ApiError>> = Vec::new();
    let n = payloads.len();
    let mut i: usize = 0;
    while i < n
        invariant
            0 <= i <= n,
            n == payloads@.len(),
            pv == payloads.deep_view(),
            pv.len() == n,
            forall|q: int| 0 <= q < n ==> pv[q] == payloads@[q]@,
            forall|q: int| 0 <= q < i ==> (#[trigger] pv[q]) != "[DONE]"@,
            out@.len() == i,
            forall|q: int|
                0 <= q < i ==> ((#[trigger] out@[q]) is Ok) == (chunk_text_dec(
                    pv[q],
                ) is Some),
            forall|q: int|
                0 <= q < i ==> ((#[trigger] out@[q]) matches Ok(c) ==> chunk_text_dec(pv[q])
                    == Some(c.deep_view())),
            forall|q: int|
                0 <= q < i ==> ((#[trigger] out@[q]) matches Err(e)
                    ==> e is Deserialization),
        decreases n - i,
    {
        if str_eq(payloads[i].as_str(), "[DONE]") {
            proof {
                lemma_stream_items_characterization(pv, i as int);
            }
            return out;
        }
        out.push(decode_chunk_text(payloads[i].as_str()));
        i += 1;
    }
    proof {
        lemma_stream_items_characterization(pv, n as int);
    }
    out
}

} // verus!
