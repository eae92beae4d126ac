//! The JSON value model: a tree of nulls, booleans, numbers, strings,
//! arrays and objects.  Numbers are carried as their literal text, so any
//! numeric wire value survives a round trip unchanged and the model needs
//! no floating point.
//!
//! `JsonValue` is the executable tree; `JsonV` is its mathematical mirror,
//! with strings as character sequences.  Contracts and laws speak `JsonV`.

use vstd::prelude::*;

verus! {

/// A JSON number, kept as the literal token it was written with.
#[derive(Debug, PartialEq, Eq)]
pub struct Number {
    pub text: String,
}

impl DeepView for Number {
    type V = Seq<char>;

    open spec fn deep_view(&self) -> Seq<char> {
        self.text@
    }
}

impl Clone for Number {
    fn clone(&self) -> (r: Self)
        ensures
            r == *self,
    {
        Number { text: self.text.clone() }
    }
}

/// A JSON value.  Objects keep their members in order as a list of pairs;
/// member lookup takes the first pair with the wanted key.
#[derive(Debug, PartialEq, Eq)]
pub enum JsonValue {
    Null,
    Bool(bool),
    Num(Number),
    Str(String),
    Arr(Vec<JsonValue>),
    Obj(Vec<(String, JsonValue)>),
}

/// The mathematical mirror of a JSON value.
pub enum JsonV {
    Null,
    Bool(bool),
    Num(Seq<char>),
    Str(Seq<char>),
    Arr(Seq<JsonV>),
    Obj(Seq<(Seq<char>, JsonV)>),
}

pub open spec fn jv_list(s: Seq<JsonValue>) -> Seq<JsonV>
    decreases s,
{
    if s.len() == 0 {
        Seq::empty()
    } else {
        seq![s.first()@] + jv_list(s.drop_first())
    }
}

pub open spec fn jv_members(s: Seq<(String, JsonValue)>) -> Seq<(Seq<char>, JsonV)>
    decreases s,
{
    if s.len() == 0 {
        Seq::empty()
    } else {
        seq![(s.first().0@, s.first().1@)] + jv_members(s.drop_first())
    }
}

impl View for JsonValue {
    type V = JsonV;

    open spec fn view(&self) -> JsonV
        decreases self,
    {
        match self {
            JsonValue::Null => JsonV::Null,
            JsonValue::Bool(b) => JsonV::Bool(*b),
            JsonValue::Num(n) => JsonV::Num(n.text@),
            JsonValue::Str(s) => JsonV::Str(s@),
            JsonValue::Arr(items) => JsonV::Arr(jv_list(items@)),
            JsonValue::Obj(members) => JsonV::Obj(jv_members(members@)),
        }
    }
}

impl DeepView for JsonValue {
    type V = JsonV;

    open spec fn deep_view(&self) -> JsonV {
        self.view()
    }
}

pub broadcast proof fn lemma_jv_list_index(s: Seq<JsonValue>)
    ensures
        (#[trigger] jv_list(s)).len() == s.len(),
        forall|i: int| 0 <= i < s.len() ==> jv_list(s)[i] == s[i]@,
    decreases s,
{
    if s.len() > 0 {
        lemma_jv_list_index(s.drop_first());
        assert(jv_list(s) == seq![s.first()@] + jv_list(s.drop_first()));
        assert forall|i: int| 0 <= i < s.len() implies jv_list(s)[i] == s[i]@ by {
            if i == 0 {
                assert((seq![s.first()@] + jv_list(s.drop_first()))[0] == s.first()@);
            } else {
                assert((seq![s.first()@] + jv_list(s.drop_first()))[i] == jv_list(
                    s.drop_first(),
                )[i - 1]);
                assert(s.drop_first()[i - 1] == s[i]);
            }
        }
    }
}

pub broadcast proof fn lemma_jv_members_index(s: Seq<(String, JsonValue)>)
    ensures
        (#[trigger] jv_members(s)).len() == s.len(),
        forall|i: int|
            0 <= i < s.len() ==> jv_members(s)[i] == (s[i].0@, s[i].1@),
    decreases s,
{
    if s.len() > 0 {
        lemma_jv_members_index(s.drop_first());
        assert(jv_members(s) == seq![(s.first().0@, s.first().1@)] + jv_members(
            s.drop_first(),
        ));
        assert forall|i: int|
            0 <= i < s.len() implies jv_members(s)[i] == (s[i].0@, s[i].1@) by {
            if i == 0 {
                assert((seq![(s.first().0@, s.first().1@)] + jv_members(s.drop_first()))[0]
                    == (s.first().0@, s.first().1@));
            } else {
                assert((seq![(s.first().0@, s.first().1@)] + jv_members(s.drop_first()))[i]
                    == jv_members(s.drop_first())[i - 1]);
                assert(s.drop_first()[i - 1] == s[i]);
            }
        }
    }
}

/// `jv_members` distributes over concatenation.
pub proof fn lemma_jv_members_append(a: Seq<(String, JsonValue)>, b: Seq<(String, JsonValue)>)
    ensures
        jv_members(a + b) == jv_members(a) + jv_members(b),
    decreases a,
{
    if a.len() == 0 {
        assert(a + b =~= b);
        assert(jv_members(a) =~= Seq::<(Seq<char>, JsonV)>::empty());
        assert(jv_members(a) + jv_members(b) =~= jv_members(b));
    } else {
        assert((a + b).first() == a.first());
        assert((a + b).drop_first() =~= a.drop_first() + b);
        lemma_jv_members_append(a.drop_first(), b);
        assert(seq![(a.first().0@, a.first().1@)] + (jv_members(a.drop_first()) + jv_members(
            b,
        )) =~= (seq![(a.first().0@, a.first().1@)] + jv_members(a.drop_first())) + jv_members(
            b,
        ));
    }
}

pub open spec fn is_digit(c: char) -> bool {
    '0' <= c && c <= '9'
}

/// Characters that may appear anywhere in a number token.
pub open spec fn is_num_char(c: char) -> bool {
    is_digit(c) || c == '-' || c == '+' || c == '.' || c == 'e' || c == 'E'
}

/// A well-formed number token: non-empty, starts with a digit or a minus
/// sign, and consists of number characters only.  This is deliberately the
/// same shape the parser's number scan accepts, so such a token written out
/// verbatim reads back as the same token.
pub open spec fn is_num_lex(s: Seq<char>) -> bool {
    &&& s.len() > 0
    &&& (s[0] == '-' || is_digit(s[0]))
    &&& forall|i: int| 0 <= i < s.len() ==> is_num_char(#[trigger] s[i])
}

/// Well-formedness of a JSON value: every number token in the tree is a
/// well-formed number token.
pub open spec fn wf_v(v: JsonV) -> bool
    decreases v,
{
    match v {
        JsonV::Null => true,
        JsonV::Bool(_) => true,
        JsonV::Num(t) => is_num_lex(t),
        JsonV::Str(_) => true,
        JsonV::Arr(items) => wf_v_list(items),
        JsonV::Obj(members) => wf_v_members(members),
    }
}

pub open spec fn wf_v_list(s: Seq<JsonV>) -> bool
    decreases s,
{
    s.len() == 0 || (wf_v(s.first()) && wf_v_list(s.drop_first()))
}

pub open spec fn wf_v_members(s: Seq<(Seq<char>, JsonV)>) -> bool
    decreases s,
{
    s.len() == 0 || (wf_v(s.first().1) && wf_v_members(s.drop_first()))
}

pub proof fn lemma_wf_v_members_index(s: Seq<(Seq<char>, JsonV)>, i: int)
    requires
        wf_v_members(s),
        0 <= i < s.len(),
    ensures
        wf_v(s[i].1),
    decreases s.len(),
{
    if i > 0 {
        lemma_wf_v_members_index(s.drop_first(), i - 1);
    }
}

pub proof fn lemma_wf_v_list_parts(s: Seq<JsonV>)
    requires
        forall|i: int| 0 <= i < s.len() ==> wf_v(#[trigger] s[i]),
    ensures
        wf_v_list(s),
    decreases s.len(),
{
    if s.len() > 0 {
        lemma_wf_v_list_parts(s.drop_first());
    }
}

pub proof fn lemma_wf_v_members_parts(s: Seq<(Seq<char>, JsonV)>)
    requires
        forall|i: int| 0 <= i < s.len() ==> wf_v((#[trigger] s[i]).1),
    ensures
        wf_v_members(s),
    decreases s.len(),
{
    if s.len() > 0 {
        lemma_wf_v_members_parts(s.drop_first());
    }
}

/// The first member of `s` named `k`, if any.
pub open spec fn lookup_v(s: Seq<(Seq<char>, JsonV)>, k: Seq<char>) -> Option<JsonV>
    decreases s.len(),
{
    if s.len() == 0 {
        None
    } else if s.first().0 == k {
        Some(s.first().1)
    } else {
        lookup_v(s.drop_first(), k)
    }
}

/// Looking a key up in a concatenation scans the left part first.
pub proof fn lemma_lookup_append(
    a: Seq<(Seq<char>, JsonV)>,
    b: Seq<(Seq<char>, JsonV)>,
    k: Seq<char>,
)
    ensures
        lookup_v(a + b, k) == if lookup_v(a, k) is Some {
            lookup_v(a, k)
        } else {
            lookup_v(b, k)
        },
    decreases a.len(),
{
    if a.len() == 0 {
        assert(a + b =~= b);
    } else {
        assert((a + b).first() == a.first());
        assert((a + b).drop_first() =~= a.drop_first() + b);
        lemma_lookup_append(a.drop_first(), b, k);
    }
}

/// Looking a key up in a one-member list.
pub proof fn lemma_lookup_single(k1: Seq<char>, v: JsonV, k: Seq<char>)
    ensures
        lookup_v(seq![(k1, v)], k) == if k1 == k {
            Some(v)
        } else {
            None::<JsonV>
        },
{
    let s = seq![(k1, v)];
    assert(s.drop_first() =~= Seq::<(Seq<char>, JsonV)>::empty());
    assert(lookup_v(Seq::<(Seq<char>, JsonV)>::empty(), k) is None);
}

/// Whether the object members `s` contain a member named `k`.
pub open spec fn has_key(s: Seq<(Seq<char>, JsonV)>, k: Seq<char>) -> bool {
    lookup_v(s, k) is Some
}

/// Member lookup on the mirror of an object value.
pub open spec fn get_v(v: JsonV, k: Seq<char>) -> Option<JsonV> {
    match v {
        JsonV::Obj(members) => lookup_v(members, k),
        _ => None,
    }
}

/// Relies on `String::push`: appends the given character to the end of
/// the string.
#[verifier::external_body]
pub(crate) fn push_char(s: &mut String, c: char)
    ensures
        final(s)@ == old(s)@.push(c),
{
    s.push(c);
}

/// Builds the string holding exactly the characters of `v`, in order.
#[verifier::loop_isolation(false)]
pub fn chars_to_string(v: &Vec<char>) -> (s: String)
    ensures
        s@ == v@,
{
    let mut s = String::new();
    let n = v.len();
    let mut i: usize = 0;
    while i < n
        invariant
            0 <= i <= n,
            n == v@.len(),
            s@ == v@.take(i as int),
        decreases n - i,
    {
        push_char(&mut s, v[i]);
        proof {
            assert(v@.take(i as int).push(v@[i as int]) =~= v@.take(i as int + 1));
        }
        i += 1;
    }
    proof {
        assert(v@.take(n as int) =~= v@);
    }
    s
}

/// The characters of `s`, in order.
#[verifier::loop_isolation(false)]
pub fn str_to_chars(s: &str) -> (v: Vec<char>)
    ensures
        v@ == s@,
{
    let n = s.unicode_len();
    let mut v: Vec<char> = Vec::new();
    let mut i: usize = 0;
    while i < n
        invariant
            0 <= i <= n,
            n == s@.len(),
            v@ == s@.take(i as int),
        decreases n - i,
    {
        v.push(s.get_char(i));
        proof {
            assert(s@.take(i as int).push(s@[i as int]) =~= s@.take(i as int + 1));
        }
        i += 1;
    }
    proof {
        assert(s@.take(n as int) =~= s@);
    }
    v
}

/// Character-wise string equality; avoids relying on unspecified trait impls.
pub fn str_eq(a: &str, b: &str) -> (r: bool)
    ensures
        r == (a@ == b@),
{
    let alen = a.unicode_len();
    let blen = b.unicode_len();
    if alen != blen {
        assert(a@ != b@) by {
            assert(a@.len() != b@.len());
        }
        return false;
    }
    let mut i: usize = 0;
    while i < alen
        invariant
            i <= alen,
            alen == a@.len(),
            alen == b@.len(),
            forall|q: int| 0 <= q < i ==> a@[q] == b@[q],
        decreases alen - i,
    {
        if a.get_char(i) != b.get_char(i) {
            return false;
        }
        i += 1;
    }
    proof {
        assert(a@ =~= b@);
    }
    true
}

impl JsonValue {
    /// Looks up the first object member named `k`; `None` when `self` is
    /// not an object or has no such member.
    #[verifier::loop_isolation(false)]
    pub fn get<'a>(&'a self, k: &str) -> (r: Option<&'a JsonValue>)
        ensures
            (r is Some) == (get_v(self@, k@) is Some),
            r matches Some(v) ==> get_v(self@, k@) == Some(v@),
    {
        match self {
            JsonValue::Obj(members) => {
                proof {
                    lemma_jv_members_index(members@);
                }
                let ghost mv = jv_members(members@);
                let n = members.len();
                let mut i: usize = 0;
                proof {
                    assert(mv.skip(0) =~= mv);
                }
                while i < n
                    invariant
                        i <= n,
                        n == members@.len(),
                        lookup_v(mv, k@) == lookup_v(mv.skip(i as int), k@),
                    decreases n - i,
                {
                    if str_eq(members[i].0.as_str(), k) {
                        proof {
                            assert(mv.skip(i as int).first() == mv[i as int]);
                            assert(lookup_v(mv.skip(i as int), k@) == Some(mv[i as int].1));
                        }
                        return Some(&members[i].1);
                    }
                    proof {
                        assert(mv.skip(i as int).drop_first() =~= mv.skip(i as int + 1));
                        assert(mv.skip(i as int).first() == mv[i as int]);
                    }
                    i += 1;
                }
                proof {
                    assert(mv.skip(n as int).len() == 0);
                }
                None
            },
            _ => None,
        }
    }
}

} // verus!
