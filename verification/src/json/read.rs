//! The executable JSON reader.  Each function mirrors one of the grammar
//! functions in `parse` and is proved to return exactly what that grammar
//! function denotes.

use vstd::prelude::*;

use crate::json::parse::char_of;
use crate::json::parse::false_lit;
use crate::json::parse::has_at;
use crate::json::parse::hex4_val;
use crate::json::parse::hex_val;
use crate::json::parse::is_hex4;
use crate::json::parse::is_hex_digit;
use crate::json::parse::is_scalar16;
use crate::json::parse::is_ws;
use crate::json::parse::null_lit;
use crate::json::parse::num_end;
use crate::json::parse::parse_arr;
use crate::json::parse::parse_items;
use crate::json::parse::parse_members;
use crate::json::parse::parse_obj;
use crate::json::parse::parse_text;
use crate::json::parse::parse_value;
use crate::json::parse::scan_string;
use crate::json::parse::skip_ws;
use crate::json::parse::true_lit;
use crate::json::parse::unesc;
use crate::json::value::chars_to_string;
use crate::json::value::is_num_char;
use crate::json::value::jv_list;
use crate::json::value::jv_members;
use crate::json::value::lemma_jv_list_index;
use crate::json::value::lemma_jv_members_index;
use crate::json::value::str_to_chars;
use crate::json::value::JsonV;
use crate::json::value::JsonValue;
use crate::json::value::Number;

verus! {

/// Casting to the scalar value determines the character.
pub proof fn lemma_char_of_cast(c: char)
    ensures
        char_of(c as u32) == c,
{
    let n = c as u32;
    assert((char_of(n) as u32) == n) by {
        assert((c as u32) == n);
    }
}

/// Relies on `char::from_u32`: yields the character with scalar value `n`,
/// and `None` exactly when `n` is a surrogate value or above 0x10FFFF.
#[verifier::external_body]
fn char_from_u32(n: u32) -> (r: Option<char>)
    ensures
        (r is Some) == (n < 0xD800 || (0xE000 <= n && n <= 0x10FFFF)),
        r matches Some(c) ==> (c as u32) == n,
{
    char::from_u32(n)
}

fn is_ws_x(c: char) -> (r: bool)
    ensures
        r == is_ws(c),
{
    c == ' ' || c == '\t' || c == '\n' || c == '\r'
}

fn is_num_char_x(c: char) -> (r: bool)
    ensures
        r == is_num_char(c),
{
    ('0' <= c && c <= '9') || c == '-' || c == '+' || c == '.' || c == 'e' || c == 'E'
}

#[verifier::loop_isolation(false)]
fn skip_ws_x(s: &Vec<char>, i: usize) -> (r: usize)
    requires
        i <= s@.len(),
    ensures
        r as int == skip_ws(s@, i as int),
        i <= r <= s@.len(),
        r < s@.len() ==> !is_ws(s@[r as int]),
{
    let mut k = i;
    while k < s.len() && is_ws_x(s[k])
        invariant
            i <= k <= s@.len(),
            skip_ws(s@, i as int) == skip_ws(s@, k as int),
        decreases s@.len() - k,
    {
        proof {
            assert(skip_ws(s@, k as int) == skip_ws(s@, k as int + 1));
        }
        k += 1;
    }
    proof {
        assert(skip_ws(s@, k as int) == k as int);
    }
    k
}

#[verifier::loop_isolation(false)]
fn num_end_x(s: &Vec<char>, i: usize) -> (r: usize)
    requires
        i <= s@.len(),
    ensures
        r as int == num_end(s@, i as int),
        i <= r <= s@.len(),
{
    let mut k = i;
    while k < s.len() && is_num_char_x(s[k])
        invariant
            i <= k <= s@.len(),
            num_end(s@, i as int) == num_end(s@, k as int),
        decreases s@.len() - k,
    {
        proof {
            assert(num_end(s@, k as int) == num_end(s@, k as int + 1));
        }
        k += 1;
    }
    proof {
        assert(num_end(s@, k as int) == k as int);
    }
    k
}

/// Copies `s[from..to]` into a fresh vector.
#[verifier::loop_isolation(false)]
fn copy_range(s: &Vec<char>, from: usize, to: usize) -> (v: Vec<char>)
    requires
        from <= to <= s@.len(),
    ensures
        v@ == s@.subrange(from as int, to as int),
{
    let mut v: Vec<char> = Vec::new();
    let mut k = from;
    while k < to
        invariant
            from <= k <= to,
            v@ == s@.subrange(from as int, k as int),
        decreases to - k,
    {
        v.push(s[k]);
        proof {
            assert(s@.subrange(from as int, k as int).push(s@[k as int]) =~= s@.subrange(
                from as int,
                k as int + 1,
            ));
        }
        k += 1;
    }
    v
}

fn unesc_x(e: char) -> (r: Option<char>)
    ensures
        r == unesc(e),
{
    if e == '"' {
        Some('"')
    } else if e == '\\' {
        Some('\\')
    } else if e == '/' {
        Some('/')
    } else if e == 'b' {
        Some('\u{8}')
    } else if e == 'f' {
        Some('\u{c}')
    } else if e == 'n' {
        Some('\n')
    } else if e == 'r' {
        Some('\r')
    } else if e == 't' {
        Some('\t')
    } else {
        None
    }
}

fn is_hex_digit_x(c: char) -> (r: bool)
    ensures
        r == is_hex_digit(c),
{
    ('0' <= c && c <= '9') || ('a' <= c && c <= 'f') || ('A' <= c && c <= 'F')
}

fn hex_val_x(c: char) -> (r: u32)
    requires
        is_hex_digit(c),
    ensures
        r as int == hex_val(c),
        r < 16,
{
    let n = c as u32;
    if '0' <= c && c <= '9' {
        n - ('0' as u32)
    } else if 'a' <= c && c <= 'f' {
        n - ('a' as u32) + 10
    } else {
        n - ('A' as u32) + 10
    }
}

/// Scans a string body starting right after the opening quote.
fn scan_str_x(s: &Vec<char>, i: usize) -> (r: Option<(Vec<char>, usize)>)
    requires
        i <= s@.len(),
    ensures
        (r is Some) == (scan_string(s@, i as int) is Some),
        r matches Some((t, k)) ==> scan_string(s@, i as int) == Some((t@, k as int)) && i < k
            <= s@.len(),
    decreases s@.len() - i,
{
    if i >= s.len() {
        return None;
    }
    let c = s[i];
    if c == '"' {
        let t: Vec<char> = Vec::new();
        proof {
            assert(t@ =~= Seq::<char>::empty());
        }
        Some((t, i + 1))
    } else if c == '\\' {
        if i + 1 >= s.len() {
            return None;
        }
        let e = s[i + 1];
        if e == 'u' {
            if s.len() - i < 6 {
                proof {
                    assert(!is_hex4(s@, i as int + 2));
                }
                return None;
            }
            if !(is_hex_digit_x(s[i + 2]) && is_hex_digit_x(s[i + 3]) && is_hex_digit_x(
                s[i + 4],
            ) && is_hex_digit_x(s[i + 5])) {
                proof {
                    assert(!is_hex4(s@, i as int + 2));
                }
                return None;
            }
            let code: u32 = hex_val_x(s[i + 2]) * 4096 + hex_val_x(s[i + 3]) * 256 + hex_val_x(
                s[i + 4],
            ) * 16 + hex_val_x(s[i + 5]);
            proof {
                assert(code as int == hex4_val(s@, i as int + 2));
            }
            if 0xD800 <= code && code < 0xE000 {
                proof {
                    assert(!is_scalar16(code as int));
                }
                return None;
            }
            let u = match char_from_u32(code) {
                Some(u) => u,
                None => {
                    proof {
                        assert(false);
                    }
                    return None;
                },
            };
            match scan_str_x(s, i + 6) {
                None => None,
                Some((t, k)) => {
                    let mut t = t;
                    t.insert(0, u);
                    proof {
                        lemma_char_of_cast(u);
                        assert(u == char_of(code));
                        assert(t@ =~= seq![char_of(code)] + t@.drop_first());
                    }
                    Some((t, k))
                },
            }
        } else {
            match unesc_x(e) {
                None => None,
                Some(u) => {
                    match scan_str_x(s, i + 2) {
                        None => None,
                        Some((t, k)) => {
                            let mut t = t;
                            t.insert(0, u);
                            proof {
                                assert(t@ =~= seq![u] + t@.drop_first());
                            }
                            Some((t, k))
                        },
                    }
                },
            }
        }
    } else {
        match scan_str_x(s, i + 1) {
            None => None,
            Some((t, k)) => {
                let mut t = t;
                t.insert(0, c);
                proof {
                    assert(t@ =~= seq![c] + t@.drop_first());
                }
                Some((t, k))
            },
        }
    }
}

fn has_null_at(s: &Vec<char>, j: usize) -> (r: bool)
    requires
        j < s@.len(),
    ensures
        r == has_at(s@, j as int, null_lit()),
{
    let r = s.len() - j >= 4 && s[j] == 'n' && s[j + 1] == 'u' && s[j + 2] == 'l' && s[j + 3]
        == 'l';
    proof {
        if r {
            assert(s@.subrange(j as int, j as int + 4) =~= null_lit());
        } else if j + 4 <= s@.len() {
            if s@.subrange(j as int, j as int + 4) == null_lit() {
                assert(s@[j as int] == null_lit()[0]);
                assert(s@[j as int + 1] == null_lit()[1]);
                assert(s@[j as int + 2] == null_lit()[2]);
                assert(s@[j as int + 3] == null_lit()[3]);
            }
        }
    }
    r
}

fn has_true_at(s: &Vec<char>, j: usize) -> (r: bool)
    requires
        j < s@.len(),
    ensures
        r == has_at(s@, j as int, true_lit()),
{
    let r = s.len() - j >= 4 && s[j] == 't' && s[j + 1] == 'r' && s[j + 2] == 'u' && s[j + 3]
        == 'e';
    proof {
        if r {
            assert(s@.subrange(j as int, j as int + 4) =~= true_lit());
        } else if j + 4 <= s@.len() {
            if s@.subrange(j as int, j as int + 4) == true_lit() {
                assert(s@[j as int] == true_lit()[0]);
                assert(s@[j as int + 1] == true_lit()[1]);
                assert(s@[j as int + 2] == true_lit()[2]);
                assert(s@[j as int + 3] == true_lit()[3]);
            }
        }
    }
    r
}

fn has_false_at(s: &Vec<char>, j: usize) -> (r: bool)
    requires
        j < s@.len(),
    ensures
        r == has_at(s@, j as int, false_lit()),
{
    let r = s.len() - j >= 5 && s[j] == 'f' && s[j + 1] == 'a' && s[j + 2] == 'l' && s[j + 3]
        == 's' && s[j + 4] == 'e';
    proof {
        if r {
            assert(s@.subrange(j as int, j as int + 5) =~= false_lit());
        } else if j + 5 <= s@.len() {
            if s@.subrange(j as int, j as int + 5) == false_lit() {
                assert(s@[j as int] == false_lit()[0]);
                assert(s@[j as int + 1] == false_lit()[1]);
                assert(s@[j as int + 2] == false_lit()[2]);
                assert(s@[j as int + 3] == false_lit()[3]);
                assert(s@[j as int + 4] == false_lit()[4]);
            }
        }
    }
    r
}

/// Reads one JSON value starting at `i`.
fn p_value(s: &Vec<char>, i: usize) -> (r: Option<(JsonValue, usize)>)
    requires
        i <= s@.len(),
    ensures
        (r is Some) == (parse_value(s@, i as int) is Some),
        r matches Some((j, k)) ==> parse_value(s@, i as int) == Some((j@, k as int)) && i < k
            <= s@.len(),
    decreases s@.len() - i, 0int,
{
    let j = skip_ws_x(s, i);
    if j >= s.len() {
        return None;
    }
    let c = s[j];
    if c == 'n' {
        if has_null_at(s, j) {
            Some((JsonValue::Null, j + 4))
        } else {
            None
        }
    } else if c == 't' {
        if has_true_at(s, j) {
            Some((JsonValue::Bool(true), j + 4))
        } else {
            None
        }
    } else if c == 'f' {
        if has_false_at(s, j) {
            Some((JsonValue::Bool(false), j + 5))
        } else {
            None
        }
    } else if c == '"' {
        match scan_str_x(s, j + 1) {
            None => None,
            Some((t, k)) => Some((JsonValue::Str(chars_to_string(&t)), k)),
        }
    } else if c == '-' || ('0' <= c && c <= '9') {
        let e = num_end_x(s, j);
        proof {
            assert(num_end(s@, j as int) == num_end(s@, j as int + 1));
            crate::json::parse::lemma_num_end(s@, j as int + 1);
        }
        let t = copy_range(s, j, e);
        Some((JsonValue::Num(Number { text: chars_to_string(&t) }), e))
    } else if c == '[' {
        p_arr(s, j + 1)
    } else if c == '{' {
        p_obj(s, j + 1)
    } else {
        None
    }
}

/// Reads the rest of an array, starting right after the opening bracket.
fn p_arr(s: &Vec<char>, i: usize) -> (r: Option<(JsonValue, usize)>)
    requires
        i <= s@.len(),
    ensures
        (r is Some) == (parse_arr(s@, i as int) is Some),
        r matches Some((j, k)) ==> parse_arr(s@, i as int) == Some((j@, k as int)) && i < k
            <= s@.len(),
    decreases s@.len() - i, 2int,
{
    let j = skip_ws_x(s, i);
    if j < s.len() && s[j] == ']' {
        let items: Vec<JsonValue> = Vec::new();
        proof {
            assert(jv_list(items@) =~= Seq::<JsonV>::empty());
        }
        return Some((JsonValue::Arr(items), j + 1));
    }
    match p_items(s, i) {
        None => None,
        Some((items, k)) => Some((JsonValue::Arr(items), k)),
    }
}

/// Reads one or more comma-separated array elements and the closing
/// bracket.
fn p_items(s: &Vec<char>, i: usize) -> (r: Option<(Vec<JsonValue>, usize)>)
    requires
        i <= s@.len(),
    ensures
        (r is Some) == (parse_items(s@, i as int) is Some),
        r matches Some((v, k)) ==> parse_items(s@, i as int) == Some((jv_list(v@), k as int))
            && i < k <= s@.len(),
    decreases s@.len() - i, 1int,
{
    match p_value(s, i) {
        None => None,
        Some((v, j)) => {
            let k = skip_ws_x(s, j);
            if k < s.len() && s[k] == ',' {
                match p_items(s, k + 1) {
                    None => None,
                    Some((items, m)) => {
                        let ghost rest = items@;
                        let mut items = items;
                        items.insert(0, v);
                        proof {
                            lemma_jv_list_index(items@);
                            lemma_jv_list_index(rest);
                            assert(jv_list(items@) =~= seq![v@] + jv_list(rest));
                        }
                        Some((items, m))
                    },
                }
            } else if k < s.len() && s[k] == ']' {
                let mut items: Vec<JsonValue> = Vec::new();
                items.push(v);
                proof {
                    lemma_jv_list_index(items@);
                    assert(jv_list(items@) =~= seq![v@]);
                }
                Some((items, k + 1))
            } else {
                None
            }
        },
    }
}

/// Reads the rest of an object, starting right after the opening brace.
fn p_obj(s: &Vec<char>, i: usize) -> (r: Option<(JsonValue, usize)>)
    requires
        i <= s@.len(),
    ensures
        (r is Some) == (parse_obj(s@, i as int) is Some),
        r matches Some((j, k)) ==> parse_obj(s@, i as int) == Some((j@, k as int)) && i < k
            <= s@.len(),
    decreases s@.len() - i, 2int,
{
    let j = skip_ws_x(s, i);
    if j < s.len() && s[j] == '}' {
        let members: Vec<(String, JsonValue)> = Vec::new();
        proof {
            assert(jv_members(members@) =~= Seq::<(Seq<char>, JsonV)>::empty());
        }
        return Some((JsonValue::Obj(members), j + 1));
    }
    match p_members(s, i) {
        None => None,
        Some((members, k)) => Some((JsonValue::Obj(members), k)),
    }
}

/// Reads one or more comma-separated object members and the closing brace.
fn p_members(s: &Vec<char>, i: usize) -> (r: Option<(Vec<(String, JsonValue)>, usize)>)
    requires
        i <= s@.len(),
    ensures
        (r is Some) == (parse_members(s@, i as int) is Some),
        r matches Some((v, k)) ==> parse_members(s@, i as int) == Some(
            (jv_members(v@), k as int),
        ) && i < k <= s@.len(),
    decreases s@.len() - i, 1int,
{
    let j = skip_ws_x(s, i);
    if !(j < s.len() && s[j] == '"') {
        return None;
    }
    match scan_str_x(s, j + 1) {
        None => None,
        Some((keyv, k)) => {
            let key = chars_to_string(&keyv);
            let m = skip_ws_x(s, k);
            if !(m < s.len() && s[m] == ':') {
                return None;
            }
            match p_value(s, m + 1) {
                None => None,
                Some((v, p)) => {
                    let q = skip_ws_x(s, p);
                    if q < s.len() && s[q] == ',' {
                        match p_members(s, q + 1) {
                            None => None,
                            Some((members, z)) => {
                                let ghost rest = members@;
                                let mut members = members;
                                members.insert(0, (key, v));
                                proof {
                                    lemma_jv_members_index(members@);
                                    lemma_jv_members_index(rest);
                                    assert(jv_members(members@) =~= seq![(keyv@, v@)]
                                        + jv_members(rest));
                                }
                                Some((members, z))
                            },
                        }
                    } else if q < s.len() && s[q] == '}' {
                        let mut members: Vec<(String, JsonValue)> = Vec::new();
                        members.push((key, v));
                        proof {
                            lemma_jv_members_index(members@);
                            assert(jv_members(members@) =~= seq![(keyv@, v@)]);
                        }
                        Some((members, q + 1))
                    } else {
                        None
                    }
                },
            }
        },
    }
}

/// A structural copy of a JSON value.
#[verifier::loop_isolation(false)]
pub fn clone_json(j: &JsonValue) -> (r: JsonValue)
    ensures
        r@ == j@,
    decreases j,
{
    match j {
        JsonValue::Null => JsonValue::Null,
        JsonValue::Bool(b) => JsonValue::Bool(*b),
        JsonValue::Num(n) => JsonValue::Num(Number { text: n.text.clone() }),
        JsonValue::Str(s) => JsonValue::Str(s.clone()),
        JsonValue::Arr(items) => {
            let mut out: Vec<JsonValue> = Vec::new();
            let n = items.len();
            let mut i: usize = 0;
            while i < n
                invariant
                    0 <= i <= n,
                    n == items@.len(),
                    out@.len() == i,
                    forall|q: int| 0 <= q < i ==> out@[q]@ == items@[q]@,
                decreases n - i,
            {
                out.push(clone_json(&items[i]));
                i += 1;
            }
            proof {
                lemma_jv_list_index(out@);
                lemma_jv_list_index(items@);
                assert(jv_list(out@) =~= jv_list(items@));
            }
            JsonValue::Arr(out)
        },
        JsonValue::Obj(members) => {
            let mut out: Vec<(String, JsonValue)> = Vec::new();
            let n = members.len();
            let mut i: usize = 0;
            while i < n
                invariant
                    0 <= i <= n,
                    n == members@.len(),
                    out@.len() == i,
                    forall|q: int|
                        0 <= q < i ==> out@[q].0@ == members@[q].0@ && out@[q].1@
                            == members@[q].1@,
                decreases n - i,
            {
                out.push((members[i].0.clone(), clone_json(&members[i].1)));
                i += 1;
            }
            proof {
                lemma_jv_members_index(out@);
                lemma_jv_members_index(members@);
                assert(jv_members(out@) =~= jv_members(members@));
            }
            JsonValue::Obj(out)
        },
    }
}

/// Reads a complete JSON document.
pub fn parse_json(s: &str) -> (r: Option<JsonValue>)
    ensures
        (r is Some) == (parse_text(s@) is Some),
        r matches Some(j) ==> parse_text(s@) == Some(j@),
{
    let cs = str_to_chars(s);
    match p_value(&cs, 0) {
        None => None,
        Some((j, k)) => {
            let e = skip_ws_x(&cs, k);
            if e == cs.len() {
                Some(j)
            } else {
                None
            }
        },
    }
}

} // verus!
