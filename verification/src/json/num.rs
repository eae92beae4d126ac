//! Decimal number tokens: printing unsigned integers as digit strings,
//! reading digit strings back, and the law that the two agree.

use vstd::prelude::*;

use crate::json::value::is_digit;
use crate::json::value::is_num_char;
use crate::json::value::is_num_lex;
use crate::json::value::Number;

verus! {

/// The decimal digit character for `d` in 0..10.
pub open spec fn digit_char(d: int) -> char {
    if d == 0 {
        '0'
    } else if d == 1 {
        '1'
    } else if d == 2 {
        '2'
    } else if d == 3 {
        '3'
    } else if d == 4 {
        '4'
    } else if d == 5 {
        '5'
    } else if d == 6 {
        '6'
    } else if d == 7 {
        '7'
    } else if d == 8 {
        '8'
    } else {
        '9'
    }
}

pub open spec fn digit_val(c: char) -> int {
    (c as u32) - ('0' as u32)
}

pub open spec fn is_digits(s: Seq<char>) -> bool {
    forall|i: int| 0 <= i < s.len() ==> is_digit(#[trigger] s[i])
}

/// The value of a digit string, most significant digit first.
pub open spec fn digits_val(s: Seq<char>) -> int
    decreases s.len(),
{
    if s.len() == 0 {
        0
    } else {
        digits_val(s.drop_last()) * 10 + digit_val(s.last())
    }
}

/// The canonical decimal representation of `n`, without leading zeros.
pub open spec fn dec_digits(n: nat) -> Seq<char>
    decreases n,
{
    if n < 10 {
        seq![digit_char(n as int)]
    } else {
        dec_digits(n / 10).push(digit_char((n % 10) as int))
    }
}

/// Reading a digit string as a `u64`: `None` when the string is empty,
/// holds a non-digit, or denotes a value above `u64::MAX`.
pub open spec fn digits_to_u64(s: Seq<char>) -> Option<u64> {
    if s.len() == 0 || !is_digits(s) {
        None
    } else if digits_val(s) > u64::MAX {
        None
    } else {
        Some(digits_val(s) as u64)
    }
}

pub proof fn lemma_digit_char_val(d: int)
    requires
        0 <= d < 10,
    ensures
        digit_val(digit_char(d)) == d,
        is_digit(digit_char(d)),
{
}

pub proof fn lemma_digits_val_nonneg(s: Seq<char>)
    requires
        is_digits(s),
    ensures
        digits_val(s) >= 0,
    decreases s.len(),
{
    if s.len() > 0 {
        assert(is_digits(s.drop_last()));
        lemma_digits_val_nonneg(s.drop_last());
    }
}

pub proof fn lemma_digits_val_step(s: Seq<char>, i: int)
    requires
        0 <= i < s.len(),
    ensures
        digits_val(s.take(i + 1)) == digits_val(s.take(i)) * 10 + digit_val(s[i]),
{
    assert(s.take(i + 1).drop_last() =~= s.take(i));
    assert(s.take(i + 1).last() == s[i]);
}

/// A prefix of a digit string never denotes more than the whole string.
pub proof fn lemma_digits_val_take_le(s: Seq<char>, k: int)
    requires
        is_digits(s),
        0 <= k <= s.len(),
    ensures
        digits_val(s.take(k)) <= digits_val(s),
    decreases s.len() - k,
{
    if k == s.len() {
        assert(s.take(k) =~= s);
    } else {
        lemma_digits_val_step(s, k);
        assert(is_digits(s.take(k)));
        lemma_digits_val_nonneg(s.take(k));
        lemma_digits_val_take_le(s, k + 1);
    }
}

/// Printing then reading is the identity: the canonical representation of
/// `n` is a digit string denoting `n`.
pub proof fn lemma_dec_digits_val(n: nat)
    ensures
        dec_digits(n).len() >= 1,
        is_digits(dec_digits(n)),
        digits_val(dec_digits(n)) == n,
    decreases n,
{
    if n < 10 {
        lemma_digit_char_val(n as int);
        assert(dec_digits(n) =~= seq![digit_char(n as int)]);
        assert(dec_digits(n).drop_last() =~= Seq::<char>::empty());
        assert(digits_val(Seq::<char>::empty()) == 0);
        assert(digits_val(dec_digits(n)) == 0 * 10 + digit_val(digit_char(n as int)));
    } else {
        lemma_dec_digits_val(n / 10);
        lemma_digit_char_val((n % 10) as int);
        let s = dec_digits(n / 10);
        let c = digit_char((n % 10) as int);
        assert(s.push(c).drop_last() =~= s);
        assert(s.push(c).last() == c);
        assert(forall|i: int|
            0 <= i < s.push(c).len() ==> is_digit(#[trigger] s.push(c)[i]));
        assert(digits_val(s.push(c)) == digits_val(s) * 10 + digit_val(c));
        assert(digits_val(s.push(c)) == (n / 10) * 10 + (n % 10));
    }
}

/// A canonical digit string is a well-formed number token.
pub proof fn lemma_dec_digits_num_lex(n: nat)
    ensures
        is_num_lex(dec_digits(n)),
    decreases n,
{
    lemma_dec_digits_val(n);
    let s = dec_digits(n);
    assert(is_digit(s[0]));
    assert(forall|i: int| 0 <= i < s.len() ==> is_num_char(#[trigger] s[i]));
}

/// And it reads back as exactly `n`.
pub proof fn lemma_dec_digits_round_trip(n: u64)
    ensures
        digits_to_u64(dec_digits(n as nat)) == Some(n),
{
    lemma_dec_digits_val(n as nat);
}

fn digit_char_of(d: u64) -> (c: char)
    requires
        d < 10,
    ensures
        c == digit_char(d as int),
{
    match d {
        0 => '0',
        1 => '1',
        2 => '2',
        3 => '3',
        4 => '4',
        5 => '5',
        6 => '6',
        7 => '7',
        8 => '8',
        _ => '9',
    }
}

/// Prints `n` in decimal, most significant digit first.
pub fn u64_digits(n: u64) -> (v: Vec<char>)
    ensures
        v@ == dec_digits(n as nat),
    decreases n,
{
    if n < 10 {
        let c = digit_char_of(n);
        let mut v: Vec<char> = Vec::new();
        v.push(c);
        proof {
            assert(v@ =~= dec_digits(n as nat));
        }
        v
    } else {
        let mut v = u64_digits(n / 10);
        v.push(digit_char_of(n % 10));
        proof {
            assert(v@ =~= dec_digits(n as nat));
        }
        v
    }
}

/// Reads a decimal digit string as a `u64`.
#[verifier::loop_isolation(false)]
pub fn str_to_u64(s: &str) -> (r: Option<u64>)
    ensures
        r == digits_to_u64(s@),
{
    let n = s.unicode_len();
    if n == 0 {
        return None;
    }
    let mut acc: u128 = 0;
    let mut i: usize = 0;
    while i < n
        invariant
            0 <= i <= n,
            n == s@.len(),
            is_digits(s@.take(i as int)),
            acc == digits_val(s@.take(i as int)),
            acc <= u64::MAX,
        decreases n - i,
    {
        let c = s.get_char(i);
        if c < '0' || c > '9' {
            assert(!is_digits(s@));
            return None;
        }
        let d: u128 = ((c as u32) - ('0' as u32)) as u128;
        acc = acc * 10 + d;
        proof {
            lemma_digits_val_step(s@, i as int);
        }
        i += 1;
        if acc > u64::MAX as u128 {
            proof {
                assert(s@.take(i as int).len() > 0);
                if is_digits(s@) {
                    lemma_digits_val_take_le(s@, i as int);
                }
            }
            return None;
        }
    }
    proof {
        assert(s@.take(n as int) =~= s@);
    }
    Some(acc as u64)
}

impl Number {
    /// The canonical decimal token for `n`.
    pub fn from_u64(n: u64) -> (r: Number)
        ensures
            r.text@ == dec_digits(n as nat),
            is_num_lex(r.text@),
    {
        let v = u64_digits(n);
        proof {
            lemma_dec_digits_num_lex(n as nat);
        }
        Number { text: crate::json::value::chars_to_string(&v) }
    }

    /// Accepts `s` as a number token when it is well formed.
    #[verifier::loop_isolation(false)]
    pub fn from_lexeme(s: &str) -> (r: Option<Number>)
        ensures
            (r is Some) == is_num_lex(s@),
            r matches Some(x) ==> x.text@ == s@,
    {
        let n = s.unicode_len();
        if n == 0 {
            return None;
        }
        let c0 = s.get_char(0);
        if !(c0 == '-' || ('0' <= c0 && c0 <= '9')) {
            return None;
        }
        let mut i: usize = 0;
        while i < n
            invariant
                0 <= i <= n,
                n == s@.len(),
                forall|q: int| 0 <= q < i ==> is_num_char(#[trigger] s@[q]),
            decreases n - i,
        {
            let c = s.get_char(i);
            if !(('0' <= c && c <= '9') || c == '-' || c == '+' || c == '.' || c == 'e' || c
                == 'E') {
                return None;
            }
            i += 1;
        }
        Some(Number { text: s.to_owned() })
    }

    /// The token's value as a `u64`, when it is a plain digit string whose
    /// value fits.
    pub fn as_u64(&self) -> (r: Option<u64>)
        ensures
            r == digits_to_u64(self.text@),
    {
        str_to_u64(self.text.as_str())
    }
}

} // verus!
