//! Reading JSON text back into a value.  The grammar accepted here is the
//! one the serializer writes, plus insignificant whitespace between tokens
//! and the full set of string escapes (`\" \\ \/ \b \f \n \r \t` and
//! `\uXXXX` for characters outside the surrogate range).  Number tokens are
//! taken as maximal runs of number characters starting with a digit or a
//! minus sign; what a number token denotes is decided where it is read.

use vstd::prelude::*;

use crate::json::value::is_digit;
use crate::json::value::is_num_char;
use crate::json::value::JsonV;

verus! {

pub open spec fn is_ws(c: char) -> bool {
    c == ' ' || c == '\t' || c == '\n' || c == '\r'
}

/// The first position at or after `i` holding a non-whitespace character.
pub open spec fn skip_ws(s: Seq<char>, i: int) -> int
    decreases s.len() - i,
{
    if 0 <= i < s.len() && is_ws(s[i]) {
        skip_ws(s, i + 1)
    } else {
        i
    }
}

pub proof fn lemma_skip_ws(s: Seq<char>, i: int)
    requires
        0 <= i <= s.len(),
    ensures
        i <= skip_ws(s, i) <= s.len(),
        skip_ws(s, i) < s.len() ==> !is_ws(s[skip_ws(s, i)]),
    decreases s.len() - i,
{
    if 0 <= i < s.len() && is_ws(s[i]) {
        lemma_skip_ws(s, i + 1);
    }
}

/// The character with scalar value `n`.
pub open spec fn char_of(n: u32) -> char {
    choose|c: char| (#[trigger] (c as u32)) == n
}

pub open spec fn is_hex_digit(c: char) -> bool {
    is_digit(c) || ('a' <= c && c <= 'f') || ('A' <= c && c <= 'F')
}

pub open spec fn hex_val(c: char) -> int {
    if is_digit(c) {
        (c as u32) - ('0' as u32)
    } else if 'a' <= c && c <= 'f' {
        (c as u32) - ('a' as u32) + 10
    } else {
        (c as u32) - ('A' as u32) + 10
    }
}

/// Four hexadecimal digits at `i`, most significant first.
pub open spec fn is_hex4(s: Seq<char>, i: int) -> bool {
    &&& 0 <= i
    &&& i + 4 <= s.len()
    &&& is_hex_digit(s[i])
    &&& is_hex_digit(s[i + 1])
    &&& is_hex_digit(s[i + 2])
    &&& is_hex_digit(s[i + 3])
}

pub open spec fn hex4_val(s: Seq<char>, i: int) -> int {
    hex_val(s[i]) * 4096 + hex_val(s[i + 1]) * 256 + hex_val(s[i + 2]) * 16 + hex_val(
        s[i + 3],
    )
}

/// Scalar values below 0x10000 that are not surrogates.
pub open spec fn is_scalar16(n: int) -> bool {
    0 <= n < 0x10000 && !(0xD800 <= n < 0xE000)
}

/// What a single-character escape stands for.
pub open spec fn unesc(e: char) -> Option<char> {
    if e == '"' {
        Some('"')
    } else if e == '\\' {
        Some('\\')
    } else if e == '/' {
        Some('/')
    } else if e == 'b' {
        Some('\u{8}')
    } else if e == 'f' {
        Some('\u{c}')
    } else if e == 'n' {
        Some('\n')
    } else if e == 'r' {
        Some('\r')
    } else if e == 't' {
        Some('\t')
    } else {
        None
    }
}

/// Scans a string body starting right after the opening quote; yields the
/// unescaped characters and the position right after the closing quote.
pub open spec fn scan_string(s: Seq<char>, i: int) -> Option<(Seq<char>, int)>
    decreases s.len() - i,
{
    if !(0 <= i < s.len()) {
        None
    } else {
        let c = s[i];
        if c == '"' {
            Some((Seq::empty(), i + 1))
        } else if c == '\\' {
            if i + 1 < s.len() {
                let e = s[i + 1];
                if e == 'u' {
                    if is_hex4(s, i + 2) {
                        let code = hex4_val(s, i + 2);
                        if is_scalar16(code) {
                            match scan_string(s, i + 6) {
                                Some((t, j)) => Some((seq![char_of(code as u32)] + t, j)),
                                None => None,
                            }
                        } else {
                            None
                        }
                    } else {
                        None
                    }
                } else {
                    match unesc(e) {
                        Some(u) => match scan_string(s, i + 2) {
                            Some((t, j)) => Some((seq![u] + t, j)),
                            None => None,
                        },
                        None => None,
                    }
                }
            } else {
                None
            }
        } else {
            match scan_string(s, i + 1) {
                Some((t, j)) => Some((seq![c] + t, j)),
                None => None,
            }
        }
    }
}

pub proof fn lemma_scan_string_bounds(s: Seq<char>, i: int)
    requires
        0 <= i <= s.len(),
    ensures
        scan_string(s, i) matches Some((t, j)) ==> i < j <= s.len(),
    decreases s.len() - i,
{
    if 0 <= i < s.len() {
        let c = s[i];
        if c == '"' {
        } else if c == '\\' {
            if i + 1 < s.len() {
                if s[i + 1] == 'u' {
                    if is_hex4(s, i + 2) {
                        lemma_scan_string_bounds(s, i + 6);
                    }
                } else {
                    lemma_scan_string_bounds(s, i + 2);
                }
            }
        } else {
            lemma_scan_string_bounds(s, i + 1);
        }
    }
}

/// The first position at or after `i` holding no number character.
pub open spec fn num_end(s: Seq<char>, i: int) -> int
    decreases s.len() - i,
{
    if 0 <= i < s.len() && is_num_char(s[i]) {
        num_end(s, i + 1)
    } else {
        i
    }
}

pub proof fn lemma_num_end(s: Seq<char>, i: int)
    requires
        0 <= i <= s.len(),
    ensures
        i <= num_end(s, i) <= s.len(),
        num_end(s, i) < s.len() ==> !is_num_char(s[num_end(s, i)]),
        forall|q: int| i <= q < num_end(s, i) ==> is_num_char(#[trigger] s[q]),
    decreases s.len() - i,
{
    if 0 <= i < s.len() && is_num_char(s[i]) {
        lemma_num_end(s, i + 1);
    }
}

/// The literal token of each keyword.
pub open spec fn null_lit() -> Seq<char> {
    seq!['n', 'u', 'l', 'l']
}

pub open spec fn true_lit() -> Seq<char> {
    seq!['t', 'r', 'u', 'e']
}

pub open spec fn false_lit() -> Seq<char> {
    seq!['f', 'a', 'l', 's', 'e']
}

/// Whether `lit` occurs in `s` at position `i`.
pub open spec fn has_at(s: Seq<char>, i: int, lit: Seq<char>) -> bool {
    0 <= i && i + lit.len() <= s.len() && s.subrange(i, i + lit.len() as int) == lit
}

/// Parses one JSON value starting at `i` (leading whitespace allowed);
/// yields the value and the position right after it.
pub open spec fn parse_value(s: Seq<char>, i: int) -> Option<(JsonV, int)>
    decreases s.len() - i, 0int,
    via parse_value_dec
{
    if !(0 <= i <= s.len()) {
        None
    } else {
        let j = skip_ws(s, i);
        if !(j < s.len()) {
            None
        } else {
            let c = s[j];
            if c == 'n' {
                if has_at(s, j, null_lit()) {
                    Some((JsonV::Null, j + 4))
                } else {
                    None
                }
            } else if c == 't' {
                if has_at(s, j, true_lit()) {
                    Some((JsonV::Bool(true), j + 4))
                } else {
                    None
                }
            } else if c == 'f' {
                if has_at(s, j, false_lit()) {
                    Some((JsonV::Bool(false), j + 5))
                } else {
                    None
                }
            } else if c == '"' {
                match scan_string(s, j + 1) {
                    Some((t, k)) => Some((JsonV::Str(t), k)),
                    None => None,
                }
            } else if c == '-' || is_digit(c) {
                let e = num_end(s, j);
                Some((JsonV::Num(s.subrange(j, e)), e))
            } else if c == '[' {
                parse_arr(s, j + 1)
            } else if c == '{' {
                parse_obj(s, j + 1)
            } else {
                None
            }
        }
    }
}

#[via_fn]
proof fn parse_value_dec(s: Seq<char>, i: int) {
    if 0 <= i <= s.len() {
        lemma_skip_ws(s, i);
    }
}

/// Parses the rest of an array, starting right after the opening bracket.
pub open spec fn parse_arr(s: Seq<char>, i: int) -> Option<(JsonV, int)>
    decreases s.len() - i, 2int,
    via parse_arr_dec
{
    if !(0 <= i <= s.len()) {
        None
    } else {
        let j = skip_ws(s, i);
        if j < s.len() && s[j] == ']' {
            Some((JsonV::Arr(Seq::empty()), j + 1))
        } else {
            match parse_items(s, i) {
                Some((items, k)) => Some((JsonV::Arr(items), k)),
                None => None,
            }
        }
    }
}

#[via_fn]
proof fn parse_arr_dec(s: Seq<char>, i: int) {
}

/// Parses one or more comma-separated array elements and the closing
/// bracket.
pub open spec fn parse_items(s: Seq<char>, i: int) -> Option<(Seq<JsonV>, int)>
    decreases s.len() - i, 1int,
    via parse_items_dec
{
    if !(0 <= i <= s.len()) {
        None
    } else {
        match parse_value(s, i) {
            None => None,
            Some((v, j)) => {
                if !(i < j <= s.len()) {
                    None
                } else {
                    let k = skip_ws(s, j);
                    if k < s.len() && s[k] == ',' {
                        match parse_items(s, k + 1) {
                            Some((items, m)) => Some((seq![v] + items, m)),
                            None => None,
                        }
                    } else if k < s.len() && s[k] == ']' {
                        Some((seq![v], k + 1))
                    } else {
                        None
                    }
                }
            },
        }
    }
}

#[via_fn]
proof fn parse_items_dec(s: Seq<char>, i: int) {
    assert forall|j: int| 0 <= j <= s.len() implies j <= #[trigger] skip_ws(s, j) by {
        lemma_skip_ws(s, j);
    }
}

/// Parses the rest of an object, starting right after the opening brace.
pub open spec fn parse_obj(s: Seq<char>, i: int) -> Option<(JsonV, int)>
    decreases s.len() - i, 2int,
    via parse_obj_dec
{
    if !(0 <= i <= s.len()) {
        None
    } else {
        let j = skip_ws(s, i);
        if j < s.len() && s[j] == '}' {
            Some((JsonV::Obj(Seq::empty()), j + 1))
        } else {
            match parse_members(s, i) {
                Some((members, k)) => Some((JsonV::Obj(members), k)),
                None => None,
            }
        }
    }
}

#[via_fn]
proof fn parse_obj_dec(s: Seq<char>, i: int) {
}

/// Parses one or more comma-separated object members and the closing
/// brace.
pub open spec fn parse_members(s: Seq<char>, i: int) -> Option<
    (Seq<(Seq<char>, JsonV)>, int),
>
    decreases s.len() - i, 1int,
    via parse_members_dec
{
    if !(0 <= i <= s.len()) {
        None
    } else {
        let j = skip_ws(s, i);
        if !(j < s.len() && s[j] == '"') {
            None
        } else {
            match scan_string(s, j + 1) {
                None => None,
                Some((key, k)) => {
                    if !(i < k <= s.len()) {
                        None
                    } else {
                        let m = skip_ws(s, k);
                        if !(m < s.len() && s[m] == ':') {
                            None
                        } else {
                            match parse_value(s, m + 1) {
                                None => None,
                                Some((v, p)) => {
                                    if !(m < p <= s.len()) {
                                        None
                                    } else {
                                        let q = skip_ws(s, p);
                                        if q < s.len() && s[q] == ',' {
                                            match parse_members(s, q + 1) {
                                                Some((members, z)) => Some(
                                                    (seq![(key, v)] + members, z),
                                                ),
                                                None => None,
                                            }
                                        } else if q < s.len() && s[q] == '}' {
                                            Some((seq![(key, v)], q + 1))
                                        } else {
                                            None
                                        }
                                    }
                                },
                            }
                        }
                    }
                },
            }
        }
    }
}

#[via_fn]
proof fn parse_members_dec(s: Seq<char>, i: int) {
    assert forall|j: int| 0 <= j <= s.len() implies j <= #[trigger] skip_ws(s, j) by {
        lemma_skip_ws(s, j);
    }
}

/// Parses a complete JSON document: one value, possibly surrounded by
/// whitespace, covering the whole text.
pub open spec fn parse_text(s: Seq<char>) -> Option<JsonV> {
    match parse_value(s, 0) {
        None => None,
        Some((v, j)) => if 0 <= j <= s.len() && skip_ws(s, j) == s.len() {
            Some(v)
        } else {
            None
        },
    }
}

} // verus!

