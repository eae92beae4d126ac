//! Writing a JSON value as text.  The encoding is compact: no whitespace,
//! members and elements joined by commas, strings escaped with the JSON
//! escapes (`\"`, `\\`, `\n`, `\r`, `\t`, and `\u00XX` for the remaining
//! control characters).

use vstd::prelude::*;

use crate::json::value::chars_to_string;
use crate::json::value::jv_list;
use crate::json::value::jv_members;
use crate::json::value::lemma_jv_list_index;
use crate::json::value::lemma_jv_members_index;
use crate::json::value::JsonV;
use crate::json::value::JsonValue;

verus! {

/// The lower-case hexadecimal digit character for `d` in 0..16.
pub open spec fn hex_digit(d: int) -> char {
    if d == 0 {
        '0'
    } else if d == 1 {
        '1'
    } else if d == 2 {
        '2'
    } else if d == 3 {
        '3'
    } else if d == 4 {
        '4'
    } else if d == 5 {
        '5'
    } else if d == 6 {
        '6'
    } else if d == 7 {
        '7'
    } else if d == 8 {
        '8'
    } else if d == 9 {
        '9'
    } else if d == 10 {
        'a'
    } else if d == 11 {
        'b'
    } else if d == 12 {
        'c'
    } else if d == 13 {
        'd'
    } else if d == 14 {
        'e'
    } else {
        'f'
    }
}

/// How one character is written inside a JSON string.
pub open spec fn esc_char(c: char) -> Seq<char> {
    if c == '"' {
        seq!['\\', '"']
    } else if c == '\\' {
        seq!['\\', '\\']
    } else if c == '\n' {
        seq!['\\', 'n']
    } else if c == '\r' {
        seq!['\\', 'r']
    } else if c == '\t' {
        seq!['\\', 't']
    } else if (c as u32) < 32 {
        seq!['\\', 'u', '0', '0', hex_digit((c as u32) as int / 16), hex_digit(
            (c as u32) as int % 16,
        )]
    } else {
        seq![c]
    }
}

/// The body of a JSON string (without the surrounding quotes).
pub open spec fn ser_str_body(s: Seq<char>) -> Seq<char>
    decreases s.len(),
{
    if s.len() == 0 {
        Seq::empty()
    } else {
        esc_char(s.first()) + ser_str_body(s.drop_first())
    }
}

/// A whole JSON string, quotes included.
pub open spec fn ser_string(s: Seq<char>) -> Seq<char> {
    seq!['"'] + ser_str_body(s) + seq!['"']
}

/// The text of a JSON value.
pub open spec fn ser(v: JsonV) -> Seq<char>
    decreases v,
{
    match v {
        JsonV::Null => seq!['n', 'u', 'l', 'l'],
        JsonV::Bool(b) => if b {
            seq!['t', 'r', 'u', 'e']
        } else {
            seq!['f', 'a', 'l', 's', 'e']
        },
        JsonV::Num(t) => t,
        JsonV::Str(s) => ser_string(s),
        JsonV::Arr(items) => seq!['['] + ser_list(items) + seq![']'],
        JsonV::Obj(members) => seq!['{'] + ser_members(members) + seq!['}'],
    }
}

/// Array elements joined by commas.
pub open spec fn ser_list(items: Seq<JsonV>) -> Seq<char>
    decreases items,
{
    if items.len() == 0 {
        Seq::empty()
    } else if items.len() == 1 {
        ser(items.first())
    } else {
        ser(items.first()) + seq![','] + ser_list(items.drop_first())
    }
}

/// Object members joined by commas, each a quoted key, a colon and a value.
pub open spec fn ser_members(members: Seq<(Seq<char>, JsonV)>) -> Seq<char>
    decreases members,
{
    if members.len() == 0 {
        Seq::empty()
    } else if members.len() == 1 {
        ser_string(members.first().0) + seq![':'] + ser(members.first().1)
    } else {
        ser_string(members.first().0) + seq![':'] + ser(members.first().1) + seq![',']
            + ser_members(members.drop_first())
    }
}

pub proof fn lemma_ser_list_snoc(items: Seq<JsonV>, x: JsonV)
    ensures
        ser_list(items.push(x)) == if items.len() == 0 {
            ser(x)
        } else {
            ser_list(items) + seq![','] + ser(x)
        },
    decreases items.len(),
{
    let p = items.push(x);
    if items.len() == 0 {
        assert(p.first() == x);
        assert(p.len() == 1);
    } else {
        assert(p.first() == items.first());
        assert(p.drop_first() =~= items.drop_first().push(x));
        lemma_ser_list_snoc(items.drop_first(), x);
        if items.len() == 1 {
            assert(items.drop_first().len() == 0);
            assert(ser_list(p) == ser(items.first()) + seq![','] + ser(x));
            assert(ser_list(items) == ser(items.first()));
        } else {
            assert(ser_list(p) == ser(items.first()) + seq![','] + ser_list(
                items.drop_first().push(x),
            ));
            assert(ser_list(items.drop_first().push(x)) == ser_list(items.drop_first())
                + seq![','] + ser(x));
            assert(ser_list(items) + seq![','] + ser(x) =~= ser(items.first()) + seq![',']
                + (ser_list(items.drop_first()) + seq![','] + ser(x)));
        }
    }
}

pub proof fn lemma_ser_members_snoc(members: Seq<(Seq<char>, JsonV)>, x: (Seq<char>, JsonV))
    ensures
        ser_members(members.push(x)) == if members.len() == 0 {
            ser_string(x.0) + seq![':'] + ser(x.1)
        } else {
            ser_members(members) + seq![','] + (ser_string(x.0) + seq![':'] + ser(x.1))
        },
    decreases members.len(),
{
    let p = members.push(x);
    let sx = ser_string(x.0) + seq![':'] + ser(x.1);
    if members.len() == 0 {
        assert(p.first() == x);
        assert(p.len() == 1);
    } else {
        assert(p.first() == members.first());
        assert(p.drop_first() =~= members.drop_first().push(x));
        lemma_ser_members_snoc(members.drop_first(), x);
        let sf = ser_string(members.first().0) + seq![':'] + ser(members.first().1);
        if members.len() == 1 {
            assert(members.drop_first().len() == 0);
            assert(ser_members(p) == sf + seq![','] + sx);
            assert(ser_members(members) == sf);
        } else {
            assert(ser_members(p) == sf + seq![','] + ser_members(
                members.drop_first().push(x),
            ));
            assert(ser_members(members.drop_first().push(x)) == ser_members(
                members.drop_first(),
            ) + seq![','] + sx);
            assert(ser_members(members) + seq![','] + sx =~= sf + seq![','] + (ser_members(
                members.drop_first(),
            ) + seq![','] + sx));
        }
    }
}

fn hex_digit_of(d: u32) -> (c: char)
    requires
        d < 16,
    ensures
        c == hex_digit(d as int),
{
    match d {
        0 => '0',
        1 => '1',
        2 => '2',
        3 => '3',
        4 => '4',
        5 => '5',
        6 => '6',
        7 => '7',
        8 => '8',
        9 => '9',
        10 => 'a',
        11 => 'b',
        12 => 'c',
        13 => 'd',
        14 => 'e',
        _ => 'f',
    }
}

/// Appends the escaped form of `c` to `out`.
fn write_esc_char(c: char, out: &mut Vec<char>)
    ensures
        final(out)@ == old(out)@ + esc_char(c),
{
    let ghost pre = out@;
    if c == '"' {
        out.push('\\');
        out.push('"');
    } else if c == '\\' {
        out.push('\\');
        out.push('\\');
    } else if c == '\n' {
        out.push('\\');
        out.push('n');
    } else if c == '\r' {
        out.push('\\');
        out.push('r');
    } else if c == '\t' {
        out.push('\\');
        out.push('t');
    } else if (c as u32) < 32 {
        let n = c as u32;
        out.push('\\');
        out.push('u');
        out.push('0');
        out.push('0');
        out.push(hex_digit_of(n / 16));
        out.push(hex_digit_of(n % 16));
    } else {
        out.push(c);
    }
    proof {
        assert(out@ =~= pre + esc_char(c));
    }
}

/// Appends the body of a JSON string for `s` to `out`.
#[verifier::loop_isolation(false)]
fn write_str_body(s: &str, out: &mut Vec<char>)
    ensures
        final(out)@ == old(out)@ + ser_str_body(s@),
{
    let ghost pre = out@;
    let n = s.unicode_len();
    let mut i: usize = 0;
    while i < n
        invariant
            0 <= i <= n,
            n == s@.len(),
            out@ == pre + ser_str_body(s@.take(i as int)),
        decreases n - i,
    {
        write_esc_char(s.get_char(i), out);
        proof {
            lemma_ser_str_body_snoc(s@.take(i as int), s@[i as int]);
            assert(s@.take(i as int).push(s@[i as int]) =~= s@.take(i as int + 1));
            assert(out@ =~= pre + ser_str_body(s@.take(i as int + 1)));
        }
        i += 1;
    }
    proof {
        assert(s@.take(n as int) =~= s@);
    }
}

pub proof fn lemma_ser_str_body_snoc(s: Seq<char>, c: char)
    ensures
        ser_str_body(s.push(c)) == ser_str_body(s) + esc_char(c),
    decreases s.len(),
{
    let p = s.push(c);
    if s.len() == 0 {
        assert(p.first() == c);
        assert(p.drop_first() =~= Seq::<char>::empty());
        assert(ser_str_body(p) == esc_char(c) + ser_str_body(Seq::<char>::empty()));
        assert(ser_str_body(Seq::<char>::empty()) == Seq::<char>::empty());
        assert(esc_char(c) + Seq::<char>::empty() =~= Seq::<char>::empty() + esc_char(c));
    } else {
        assert(p.first() == s.first());
        assert(p.drop_first() =~= s.drop_first().push(c));
        lemma_ser_str_body_snoc(s.drop_first(), c);
        assert(ser_str_body(p) == esc_char(s.first()) + (ser_str_body(s.drop_first())
            + esc_char(c)));
        assert(esc_char(s.first()) + (ser_str_body(s.drop_first()) + esc_char(c)) =~= (
        esc_char(s.first()) + ser_str_body(s.drop_first())) + esc_char(c));
    }
}

/// Appends a whole JSON string (quotes included) for `s` to `out`.
fn write_string(s: &str, out: &mut Vec<char>)
    ensures
        final(out)@ == old(out)@ + ser_string(s@),
{
    let ghost pre = out@;
    out.push('"');
    write_str_body(s, out);
    out.push('"');
    proof {
        assert(out@ =~= pre + ser_string(s@));
    }
}

/// Appends the text of `j` to `out`.
#[verifier::rlimit(30)]
#[verifier::loop_isolation(false)]
pub fn write_value(j: &JsonValue, out: &mut Vec<char>)
    ensures
        final(out)@ == old(out)@ + ser(j@),
    decreases j,
{
    let ghost pre = out@;
    match j {
        JsonValue::Null => {
            out.push('n');
            out.push('u');
            out.push('l');
            out.push('l');
            proof {
                assert(out@ =~= pre + ser(j@));
            }
        },
        JsonValue::Bool(b) => {
            if *b {
                out.push('t');
                out.push('r');
                out.push('u');
                out.push('e');
            } else {
                out.push('f');
                out.push('a');
                out.push('l');
                out.push('s');
                out.push('e');
            }
            proof {
                assert(out@ =~= pre + ser(j@));
            }
        },
        JsonValue::Num(x) => {
            let cs = crate::json::value::str_to_chars(x.text.as_str());
            let n = cs.len();
            let mut i: usize = 0;
            while i < n
                invariant
                    0 <= i <= n,
                    n == cs@.len(),
                    out@ == pre + cs@.take(i as int),
                decreases n - i,
            {
                out.push(cs[i]);
                proof {
                    assert(cs@.take(i as int).push(cs@[i as int]) =~= cs@.take(
                        i as int + 1,
                    ));
                }
                i += 1;
            }
            proof {
                assert(cs@.take(n as int) =~= cs@);
                assert(out@ =~= pre + ser(j@));
            }
        },
        JsonValue::Str(s) => {
            write_string(s.as_str(), out);
            proof {
                assert(out@ =~= pre + ser(j@));
            }
        },
        JsonValue::Arr(items) => {
            proof {
                lemma_jv_list_index(items@);
            }
            let ghost iv = jv_list(items@);
            out.push('[');
            let n = items.len();
            let mut i: usize = 0;
            while i < n
                invariant
                    0 <= i <= n,
                    n == items@.len(),
                    iv == jv_list(items@),
                    iv.len() == n,
                    forall|q: int| 0 <= q < n ==> iv[q] == items@[q]@,
                    out@ == pre + seq!['['] + ser_list(iv.take(i as int)),
                decreases n - i,
            {
                if i > 0 {
                    out.push(',');
                }
                write_value(&items[i], out);
                proof {
                    lemma_ser_list_snoc(iv.take(i as int), iv[i as int]);
                    assert(iv.take(i as int).push(iv[i as int]) =~= iv.take(i as int + 1));
                    assert(out@ =~= pre + seq!['['] + ser_list(iv.take(i as int + 1)));
                }
                i += 1;
            }
            out.push(']');
            proof {
                assert(iv.take(n as int) =~= iv);
                assert(out@ =~= pre + ser(j@));
            }
        },
        JsonValue::Obj(members) => {
            proof {
                lemma_jv_members_index(members@);
            }
            let ghost mv = jv_members(members@);
            out.push('{');
            let n = members.len();
            let mut i: usize = 0;
            while i < n
                invariant
                    0 <= i <= n,
                    n == members@.len(),
                    mv == jv_members(members@),
                    mv.len() == n,
                    forall|q: int|
                        0 <= q < n ==> mv[q] == (members@[q].0@, members@[q].1@),
                    out@ == pre + seq!['{'] + ser_members(mv.take(i as int)),
                decreases n - i,
            {
                if i > 0 {
                    out.push(',');
                }
                write_string(members[i].0.as_str(), out);
                out.push(':');
                write_value(&members[i].1, out);
                proof {
                    lemma_ser_members_snoc(mv.take(i as int), mv[i as int]);
                    assert(mv.take(i as int).push(mv[i as int]) =~= mv.take(i as int + 1));
                    assert(out@ =~= pre + seq!['{'] + ser_members(mv.take(i as int + 1)));
                }
                i += 1;
            }
            out.push('}');
            proof {
                assert(mv.take(n as int) =~= mv);
                assert(out@ =~= pre + ser(j@));
            }
        },
    }
}

impl JsonValue {
    /// The compact JSON text of this value.
    pub fn to_text(&self) -> (r: String)
        ensures
            r@ == ser(self@),
    {
        let mut out: Vec<char> = Vec::new();
        write_value(self, &mut out);
        chars_to_string(&out)
    }
}

} // verus!
