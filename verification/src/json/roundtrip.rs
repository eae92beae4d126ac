//! The round-trip law of the wire form: parsing the serialized text of a
//! well-formed value yields exactly that value.

use vstd::prelude::*;

use crate::json::parse::char_of;
use crate::json::parse::false_lit;
use crate::json::parse::has_at;
use crate::json::parse::hex4_val;
use crate::json::parse::hex_val;
use crate::json::parse::is_hex4;
use crate::json::parse::is_hex_digit;
use crate::json::parse::is_scalar16;
use crate::json::parse::is_ws;
use crate::json::parse::null_lit;
use crate::json::parse::num_end;
use crate::json::parse::parse_arr;
use crate::json::parse::parse_items;
use crate::json::parse::parse_members;
use crate::json::parse::parse_obj;
use crate::json::parse::parse_text;
use crate::json::parse::parse_value;
use crate::json::parse::scan_string;
use crate::json::parse::skip_ws;
use crate::json::parse::true_lit;
use crate::json::parse::unesc;
use crate::json::read::lemma_char_of_cast;
use crate::json::ser::esc_char;
use crate::json::ser::hex_digit;
use crate::json::ser::ser;
use crate::json::ser::ser_list;
use crate::json::ser::ser_members;
use crate::json::ser::ser_str_body;
use crate::json::ser::ser_string;
use crate::json::value::is_digit;
use crate::json::value::is_num_char;
use crate::json::value::is_num_lex;
use crate::json::value::wf_v;
use crate::json::value::wf_v_list;
use crate::json::value::wf_v_members;
use crate::json::value::JsonV;

verus! {

/// Characters a serialized value can start with.
pub open spec fn is_value_start(c: char) -> bool {
    c == 'n' || c == 't' || c == 'f' || c == '"' || c == '-' || is_digit(c) || c == '['
        || c == '{'
}

proof fn lemma_subrange_index(ctx: Seq<char>, i: int, frag: Seq<char>)
    requires
        0 <= i,
        i + frag.len() <= ctx.len(),
        ctx.subrange(i, i + frag.len()) == frag,
    ensures
        forall|q: int| 0 <= q < frag.len() ==> ctx[i + q] == frag[q],
{
    assert forall|q: int| 0 <= q < frag.len() implies ctx[i + q] == frag[q] by {
        assert(ctx.subrange(i, i + frag.len())[q] == ctx[i + q]);
    }
}

proof fn lemma_subrange_sub(ctx: Seq<char>, i: int, frag: Seq<char>, a: int, b: int)
    requires
        0 <= i,
        i + frag.len() <= ctx.len(),
        ctx.subrange(i, i + frag.len()) == frag,
        0 <= a <= b <= frag.len(),
    ensures
        ctx.subrange(i + a, i + b) == frag.subrange(a, b),
{
    lemma_subrange_index(ctx, i, frag);
    assert(ctx.subrange(i + a, i + b) =~= frag.subrange(a, b));
}

proof fn lemma_hex_digit(d: int)
    requires
        0 <= d < 16,
    ensures
        is_hex_digit(hex_digit(d)),
        hex_val(hex_digit(d)) == d,
{
}

/// Scanning the serialized body of string `t`, with the closing quote right
/// after it, yields `t` and stops right after that quote.
proof fn lemma_scan_of_ser(t: Seq<char>, ctx: Seq<char>, i: int)
    requires
        0 <= i,
        i + ser_str_body(t).len() + 1 <= ctx.len(),
        ctx.subrange(i, i + ser_str_body(t).len()) == ser_str_body(t),
        ctx[i + ser_str_body(t).len()] == '"',
    ensures
        scan_string(ctx, i) == Some((t, i + ser_str_body(t).len() + 1)),
    decreases t.len(),
{
    let body = ser_str_body(t);
    let bl = body.len() as int;
    lemma_subrange_index(ctx, i, body);
    if t.len() == 0 {
        assert(ctx[i] == '"');
    } else {
        let c = t.first();
        let rest = t.drop_first();
        let e = esc_char(c);
        let restbody = ser_str_body(rest);
        assert(body == e + restbody);
        let el = e.len() as int;
        assert forall|q: int| 0 <= q < el implies ctx[i + q] == e[q] by {
            assert(ctx[i + q] == body[q]);
            assert(body[q] == (e + restbody)[q]);
        }
        lemma_subrange_sub(ctx, i, body, el, bl);
        assert(restbody =~= body.subrange(el, bl));
        assert(ctx.subrange(i + el, i + el + restbody.len() as int) == restbody);
        lemma_scan_of_ser(rest, ctx, i + el);
        assert(scan_string(ctx, i + el) == Some((rest, i + bl + 1)));
        if c == '"' {
            assert(ctx[i] == '\\' && ctx[i + 1] == '"');
            assert(unesc('"') == Some('"'));
            assert(scan_string(ctx, i) == Some((seq![c] + rest, i + bl + 1)));
        } else if c == '\\' {
            assert(ctx[i] == '\\' && ctx[i + 1] == '\\');
            assert(scan_string(ctx, i) == Some((seq![c] + rest, i + bl + 1)));
        } else if c == '\n' {
            assert(ctx[i] == '\\' && ctx[i + 1] == 'n');
            assert(scan_string(ctx, i) == Some((seq![c] + rest, i + bl + 1)));
        } else if c == '\r' {
            assert(ctx[i] == '\\' && ctx[i + 1] == 'r');
            assert(scan_string(ctx, i) == Some((seq![c] + rest, i + bl + 1)));
        } else if c == '\t' {
            assert(ctx[i] == '\\' && ctx[i + 1] == 't');
            assert(scan_string(ctx, i) == Some((seq![c] + rest, i + bl + 1)));
        } else if (c as u32) < 32 {
            let hi = (c as u32) as int / 16;
            let lo = (c as u32) as int % 16;
            assert(ctx[i] == '\\' && ctx[i + 1] == 'u' && ctx[i + 2] == '0' && ctx[i + 3]
                == '0' && ctx[i + 4] == hex_digit(hi) && ctx[i + 5] == hex_digit(lo));
            lemma_hex_digit(hi);
            lemma_hex_digit(lo);
            assert(is_hex4(ctx, i + 2));
            assert(hex_val('0') == 0);
            assert(hex4_val(ctx, i + 2) == hi * 16 + lo);
            let cu = (c as u32) as int;
            assert(cu == 16 * (cu / 16) + cu % 16);
            assert(hi * 16 + lo == cu);
            assert(is_scalar16(hex4_val(ctx, i + 2)));
            lemma_char_of_cast(c);
            assert(char_of((hex4_val(ctx, i + 2)) as u32) == c);
            assert(scan_string(ctx, i) == Some((seq![c] + rest, i + bl + 1)));
        } else {
            assert(e == seq![c]);
            assert(ctx[i + 0] == e[0]);
            assert(ctx[i] == c);
            assert(c != '"' && c != '\\');
            assert(scan_string(ctx, i) == Some((seq![c] + rest, i + bl + 1)));
        }
        assert(seq![c] + rest =~= t);
    }
}

proof fn lemma_num_end_eq(ctx: Seq<char>, a: int, b: int)
    requires
        0 <= a <= b <= ctx.len(),
        forall|q: int| a <= q < b ==> is_num_char(#[trigger] ctx[q]),
        b == ctx.len() || !is_num_char(ctx[b]),
    ensures
        num_end(ctx, a) == b,
    decreases b - a,
{
    if a < b {
        lemma_num_end_eq(ctx, a + 1, b);
    }
}

/// A serialized value is never empty and starts with a value-start
/// character.
proof fn lemma_ser_head(v: JsonV)
    requires
        wf_v(v),
    ensures
        ser(v).len() >= 1,
        is_value_start(ser(v)[0]),
{
    match v {
        JsonV::Null => {},
        JsonV::Bool(b) => {},
        JsonV::Num(t) => {},
        JsonV::Str(s) => {
            assert(ser(v)[0] == '"');
        },
        JsonV::Arr(items) => {
            assert(ser(v)[0] == '[');
        },
        JsonV::Obj(members) => {
            assert(ser(v)[0] == '{');
        },
    }
}

/// Parsing the serialized text of a well-formed value, embedded in a wider
/// text and not followed by a number character, yields exactly that value.
#[verifier::rlimit(60)]
pub proof fn lemma_parse_of_ser(v: JsonV, ctx: Seq<char>, i: int)
    requires
        wf_v(v),
        0 <= i,
        i + ser(v).len() <= ctx.len(),
        ctx.subrange(i, i + ser(v).len()) == ser(v),
        i + ser(v).len() == ctx.len() || !is_num_char(ctx[i + ser(v).len()]),
    ensures
        parse_value(ctx, i) == Some((v, i + ser(v).len())),
    decreases v, 1int,
{
    let n = ser(v).len();
    let end = i + n;
    lemma_ser_head(v);
    lemma_subrange_index(ctx, i, ser(v));
    assert(ctx[i] == ser(v)[0]);
    assert(!is_ws(ctx[i]));
    assert(skip_ws(ctx, i) == i);
    match v {
        JsonV::Null => {
            assert(ctx[i] == 'n');
            assert(ctx.subrange(i, i + 4) =~= null_lit());
            assert(has_at(ctx, i, null_lit()));
            assert(parse_value(ctx, i) == Some((JsonV::Null, i + 4)));
        },
        JsonV::Bool(b) => {
            if b {
                assert(ctx[i] == 't');
                assert(ctx.subrange(i, i + 4) =~= true_lit());
                assert(has_at(ctx, i, true_lit()));
                assert(parse_value(ctx, i) == Some((JsonV::Bool(true), i + 4)));
            } else {
                assert(ctx[i] == 'f');
                assert(ctx.subrange(i, i + 5) =~= false_lit());
                assert(has_at(ctx, i, false_lit()));
                assert(parse_value(ctx, i) == Some((JsonV::Bool(false), i + 5)));
            }
        },
        JsonV::Str(t) => {
            assert(ctx[i] == '"');
            let body = ser_str_body(t);
            let bl = body.len() as int;
            assert(ser(v) == seq!['"'] + body + seq!['"']);
            lemma_subrange_sub(ctx, i, ser(v), 1, 1 + bl);
            assert((seq!['"'] + body + seq!['"']).subrange(1, 1 + bl) =~= body);
            assert(ctx[i + 1 + bl] == ser(v)[n - 1]);
            assert(ser(v)[n - 1] == '"');
            lemma_scan_of_ser(t, ctx, i + 1);
            assert(scan_string(ctx, i + 1) == Some((t, end)));
            assert(parse_value(ctx, i) == Some((JsonV::Str(t), end)));
        },
        JsonV::Num(t) => {
            assert(is_num_lex(t));
            assert(ctx[i] == t[0]);
            assert(t[0] == '-' || is_digit(t[0]));
            assert(ctx[i] != 'n' && ctx[i] != 't' && ctx[i] != 'f' && ctx[i] != '"');
            assert forall|q: int| i <= q < end implies is_num_char(#[trigger] ctx[q]) by {
                assert(ctx[i + (q - i)] == ser(v)[q - i]);
                assert(is_num_char(t[q - i]));
            }
            lemma_num_end_eq(ctx, i, end);
            assert(num_end(ctx, i) == end);
            assert(ctx.subrange(i, end) == t);
            assert(parse_value(ctx, i) == Some((JsonV::Num(t), end)));
        },
        JsonV::Arr(items) => {
            assert(ctx[i] == '[');
            let lst = ser_list(items);
            let ll = lst.len() as int;
            assert(ser(v) == seq!['['] + lst + seq![']']);
            lemma_subrange_sub(ctx, i, ser(v), 1, 1 + ll);
            assert((seq!['['] + lst + seq![']']).subrange(1, 1 + ll) =~= lst);
            assert(ctx.subrange(i + 1, i + 1 + ll) == lst);
            assert(ctx[i + 1 + ll] == ser(v)[n - 1]);
            assert(ser(v)[n - 1] == ']');
            if items.len() == 0 {
                assert(lst.len() == 0);
                assert(ctx[i + 1] == ']');
                assert(!is_ws(']'));
                assert(skip_ws(ctx, i + 1) == i + 1);
                assert(parse_arr(ctx, i + 1) == Some((JsonV::Arr(Seq::empty()), i + 2)));
                assert(items =~= Seq::<JsonV>::empty());
                assert(v == JsonV::Arr(Seq::<JsonV>::empty()));
                assert(parse_value(ctx, i) == Some((v, end)));
            } else {
                assert(wf_v_list(items));
                assert(wf_v(items.first()));
                lemma_ser_head(items.first());
                assert(lst[0] == ser(items.first())[0]) by {
                    if items.len() == 1 {
                        assert(lst == ser(items.first()));
                    } else {
                        assert(lst == ser(items.first()) + seq![','] + ser_list(
                            items.drop_first(),
                        ));
                    }
                }
                assert(ctx[i + 1] == lst[0]);
                assert(!is_ws(ctx[i + 1]));
                assert(skip_ws(ctx, i + 1) == i + 1);
                assert(ctx[i + 1] != ']');
                lemma_parse_items_of_ser(items, ctx, i + 1);
                assert(parse_items(ctx, i + 1) == Some((items, end)));
                assert(parse_arr(ctx, i + 1) == Some((JsonV::Arr(items), end)));
                assert(parse_value(ctx, i) == Some((v, end)));
            }
        },
        JsonV::Obj(members) => {
            assert(ctx[i] == '{');
            let lst = ser_members(members);
            let ll = lst.len() as int;
            assert(ser(v) == seq!['{'] + lst + seq!['}']);
            lemma_subrange_sub(ctx, i, ser(v), 1, 1 + ll);
            assert((seq!['{'] + lst + seq!['}']).subrange(1, 1 + ll) =~= lst);
            assert(ctx.subrange(i + 1, i + 1 + ll) == lst);
            assert(ctx[i + 1 + ll] == ser(v)[n - 1]);
            assert(ser(v)[n - 1] == '}');
            if members.len() == 0 {
                assert(lst.len() == 0);
                assert(ctx[i + 1] == '}');
                assert(!is_ws('}'));
                assert(skip_ws(ctx, i + 1) == i + 1);
                assert(parse_obj(ctx, i + 1) == Some((JsonV::Obj(Seq::empty()), i + 2)));
                assert(members =~= Seq::<(Seq<char>, JsonV)>::empty());
                assert(v == JsonV::Obj(Seq::<(Seq<char>, JsonV)>::empty()));
                assert(parse_value(ctx, i) == Some((v, end)));
            } else {
                assert(lst[0] == '"') by {
                    let sf = ser_string(members.first().0) + seq![':'] + ser(
                        members.first().1,
                    );
                    if members.len() == 1 {
                        assert(lst == sf);
                    } else {
                        assert(lst == sf + seq![','] + ser_members(members.drop_first()));
                    }
                    assert(sf[0] == '"');
                }
                assert(ctx[i + 1] == lst[0]);
                assert(!is_ws(ctx[i + 1]));
                assert(skip_ws(ctx, i + 1) == i + 1);
                assert(ctx[i + 1] != '}');
                lemma_parse_members_of_ser(members, ctx, i + 1);
                assert(parse_members(ctx, i + 1) == Some((members, end)));
                assert(parse_obj(ctx, i + 1) == Some((JsonV::Obj(members), end)));
                assert(parse_value(ctx, i) == Some((v, end)));
            }
        },
    }
}

/// Parsing serialized array elements followed by a closing bracket yields
/// exactly those elements.
proof fn lemma_parse_items_of_ser(items: Seq<JsonV>, ctx: Seq<char>, i: int)
    requires
        wf_v_list(items),
        items.len() >= 1,
        0 <= i,
        i + ser_list(items).len() < ctx.len(),
        ctx.subrange(i, i + ser_list(items).len()) == ser_list(items),
        ctx[i + ser_list(items).len()] == ']',
    ensures
        parse_items(ctx, i) == Some((items, i + ser_list(items).len() + 1)),
    decreases items, 0int,
{
    let lst = ser_list(items);
    let ll = lst.len() as int;
    let first = items.first();
    let sf = ser(first);
    let fl = sf.len() as int;
    lemma_subrange_index(ctx, i, lst);
    assert(wf_v(first));
    lemma_ser_head(first);
    if items.len() == 1 {
        assert(lst == sf);
        lemma_parse_of_ser(first, ctx, i);
        assert(parse_value(ctx, i) == Some((first, i + fl)));
        assert(ctx[i + fl] == ']');
        assert(!is_ws(']'));
        assert(skip_ws(ctx, i + fl) == i + fl);
        assert(parse_items(ctx, i) == Some((seq![first], i + fl + 1)));
        assert(seq![first] =~= items);
    } else {
        let rest = items.drop_first();
        let lr = ser_list(rest);
        assert(lst == sf + seq![','] + lr);
        assert(ctx[i + fl] == lst[fl]);
        assert(lst[fl] == ',');
        lemma_subrange_sub(ctx, i, lst, 0, fl);
        assert(lst.subrange(0, fl) =~= sf);
        lemma_parse_of_ser(first, ctx, i);
        assert(parse_value(ctx, i) == Some((first, i + fl)));
        assert(!is_ws(','));
        assert(skip_ws(ctx, i + fl) == i + fl);
        lemma_subrange_sub(ctx, i, lst, fl + 1, ll);
        assert(lst.subrange(fl + 1, ll) =~= lr);
        assert(wf_v_list(rest));
        lemma_parse_items_of_ser(rest, ctx, i + fl + 1);
        assert(parse_items(ctx, i + fl + 1) == Some((rest, i + ll + 1)));
        assert(parse_items(ctx, i) == Some((seq![first] + rest, i + ll + 1)));
        assert(seq![first] + rest =~= items);
    }
}

/// Parsing serialized object members followed by a closing brace yields
/// exactly those members.
#[verifier::rlimit(60)]
proof fn lemma_parse_members_of_ser(members: Seq<(Seq<char>, JsonV)>, ctx: Seq<char>, i: int)
    requires
        wf_v_members(members),
        members.len() >= 1,
        0 <= i,
        i + ser_members(members).len() < ctx.len(),
        ctx.subrange(i, i + ser_members(members).len()) == ser_members(members),
        ctx[i + ser_members(members).len()] == '}',
    ensures
        parse_members(ctx, i) == Some((members, i + ser_members(members).len() + 1)),
    decreases members, 0int,
{
    let lst = ser_members(members);
    let ll = lst.len() as int;
    let key = members.first().0;
    let first = members.first().1;
    let sk = ser_string(key);
    let sv = ser(first);
    let sf = sk + seq![':'] + sv;
    let fl = sf.len() as int;
    lemma_subrange_index(ctx, i, lst);
    assert(wf_v(first));
    lemma_ser_head(first);
    if members.len() == 1 {
        assert(lst == sf);
    } else {
        assert(lst == sf + seq![','] + ser_members(members.drop_first()));
    }
    // the key string
    assert(ctx[i] == lst[0]);
    assert(lst[0] == sf[0]);
    assert(sf[0] == '"');
    assert(!is_ws('"'));
    assert(skip_ws(ctx, i) == i);
    let body = ser_str_body(key);
    let bl = body.len() as int;
    let skl = sk.len() as int;
    assert(sk == seq!['"'] + body + seq!['"']);
    lemma_subrange_sub(ctx, i, lst, 0, fl);
    assert(lst.subrange(0, fl) =~= sf);
    lemma_subrange_sub(ctx, i, lst, 1, 1 + bl);
    assert(lst.subrange(1, 1 + bl) =~= body);
    assert(ctx[i + 1 + bl] == lst[1 + bl]);
    assert(lst[1 + bl] == '"');
    lemma_scan_of_ser(key, ctx, i + 1);
    let kk = i + skl;
    assert(scan_string(ctx, i + 1) == Some((key, kk)));
    // the colon
    assert(ctx[kk] == lst[skl]);
    assert(lst[skl] == ':');
    assert(!is_ws(':'));
    assert(skip_ws(ctx, kk) == kk);
    // the value
    lemma_subrange_sub(ctx, i, lst, skl + 1, fl);
    assert(lst.subrange(skl + 1, fl) =~= sv);
    let vend = i + fl;
    if members.len() == 1 {
        assert(fl == ll);
        assert(ctx[vend] == '}');
    } else {
        assert((sf + seq![','] + ser_members(members.drop_first()))[fl] == ',');
        assert(ctx[vend] == lst[fl]);
        assert(ctx[vend] == ',');
    }
    lemma_parse_of_ser(first, ctx, kk + 1);
    assert(parse_value(ctx, kk + 1) == Some((first, vend)));
    assert(!is_ws(ctx[vend]));
    assert(skip_ws(ctx, vend) == vend);
    if members.len() == 1 {
        assert(ctx[vend] == '}');
        assert(parse_members(ctx, i) == Some((seq![(key, first)], vend + 1)));
        assert(seq![(key, first)] =~= members);
    } else {
        let rest = members.drop_first();
        let lr = ser_members(rest);
        assert(ctx[vend] == ',');
        lemma_subrange_sub(ctx, i, lst, fl + 1, ll);
        assert(lst.subrange(fl + 1, ll) =~= lr);
        assert(wf_v_members(rest));
        lemma_parse_members_of_ser(rest, ctx, vend + 1);
        assert(parse_members(ctx, vend + 1) == Some((rest, i + ll + 1)));
        assert(parse_members(ctx, i) == Some((seq![(key, first)] + rest, i + ll + 1)));
        assert(seq![(key, first)] + rest =~= members);
    }
}

/// The round-trip law: the serialized text of a well-formed value parses
/// back to exactly that value.
pub proof fn lemma_text_round_trip(v: JsonV)
    requires
        wf_v(v),
    ensures
        parse_text(ser(v)) == Some(v),
{
    let s = ser(v);
    assert(s.subrange(0, s.len() as int) =~= s);
    lemma_parse_of_ser(v, s, 0);
    assert(parse_value(s, 0) == Some((v, s.len() as int)));
    assert(skip_ws(s, s.len() as int) == s.len());
}

} // verus!
