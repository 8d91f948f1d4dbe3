//! Decimal text of unsigned integers and booleans, read and written the way
//! `str::parse` and `to_string` do it for `u8`, `u64` and `bool`.
use vstd::prelude::*;

verus! {

pub open spec fn is_digit(c: char) -> bool {
    '0' <= c && c <= '9'
}

pub open spec fn digit_value(c: char) -> nat {
    (c as int - '0' as int) as nat
}

pub open spec fn all_digits(s: Seq<char>) -> bool {
    forall|i: int| 0 <= i < s.len() ==> is_digit(#[trigger] s[i])
}

/// The number that a string of decimal digits denotes.
pub open spec fn digits_value(s: Seq<char>) -> nat
    decreases s.len(),
{
    if s.len() == 0 {
        0
    } else {
        digits_value(s.drop_last()) * 10 + digit_value(s.last())
    }
}

/// The digits that `str::parse` reads for an unsigned integer: an optional leading `+`
/// is dropped.
pub open spec fn unsigned_digits(s: Seq<char>) -> Seq<char> {
    if s.len() > 0 && s[0] == '+' {
        s.drop_first()
    } else {
        s
    }
}

/// What `str::parse` gives for an unsigned integer type whose largest value is `max`:
/// a value when the text is an optional `+` and at least one decimal digit, and the
/// number fits; nothing otherwise.
pub open spec fn parse_unsigned(s: Seq<char>, max: nat) -> Option<nat> {
    let d = unsigned_digits(s);
    if d.len() > 0 && all_digits(d) && digits_value(d) <= max {
        Some(digits_value(d))
    } else {
        None
    }
}

/// What `str::parse::<bool>` gives: `true` and `false` are the only accepted texts.
pub open spec fn parse_bool(s: Seq<char>) -> Option<bool> {
    if s == seq!['t', 'r', 'u', 'e'] {
        Some(true)
    } else if s == seq!['f', 'a', 'l', 's', 'e'] {
        Some(false)
    } else {
        None
    }
}

/// The text that `to_string` gives for a boolean.
pub open spec fn bool_text(b: bool) -> Seq<char> {
    if b {
        seq!['t', 'r', 'u', 'e']
    } else {
        seq!['f', 'a', 'l', 's', 'e']
    }
}

pub open spec fn digit_char(d: nat) -> char {
    if d == 0 {
        '0'
    } else if d == 1 {
        '1'
    } else if d == 2 {
        '2'
    } else if d == 3 {
        '3'
    } else if d == 4 {
        '4'
    } else if d == 5 {
        '5'
    } else if d == 6 {
        '6'
    } else if d == 7 {
        '7'
    } else if d == 8 {
        '8'
    } else {
        '9'
    }
}

/// The decimal text of `n` without leading zeros, as `to_string` writes it.
pub open spec fn decimal(n: nat) -> Seq<char>
    decreases n,
{
    if n < 10 {
        seq![digit_char(n)]
    } else {
        decimal(n / 10).push(digit_char(n % 10))
    }
}

proof fn lemma_digit_char(d: nat)
    requires
        d < 10,
    ensures
        is_digit(digit_char(d)),
        digit_value(digit_char(d)) == d,
        digit_char(d) != '+',
        digit_char(d) != '-',
{
}

/// The decimal text of a number is a non-empty string of digits that denotes it.
pub proof fn lemma_decimal(n: nat)
    ensures
        decimal(n).len() > 0,
        all_digits(decimal(n)),
        digits_value(decimal(n)) == n,
        decimal(n)[0] != '+',
        decimal(n)[0] != '-',
    decreases n,
{
    if n < 10 {
        lemma_digit_char(n);
        let s = decimal(n);
        assert(s == seq![digit_char(n)]);
        assert(s.drop_last() =~= Seq::<char>::empty());
        assert(s.last() == digit_char(n));
        assert(digits_value(s) == digits_value(s.drop_last()) * 10 + digit_value(s.last()));
        assert(digits_value(Seq::<char>::empty()) == 0);
    } else {
        lemma_decimal(n / 10);
        lemma_digit_char(n % 10);
        let s = decimal(n);
        assert(s.drop_last() =~= decimal(n / 10));
        assert(s.last() == digit_char(n % 10));
        assert(digits_value(s) == digits_value(decimal(n / 10)) * 10 + digit_value(s.last()));
        assert(n == (n / 10) * 10 + n % 10);
        assert(s[0] == decimal(n / 10)[0]);
        assert forall|i: int| 0 <= i < s.len() implies is_digit(#[trigger] s[i]) by {
            if i < s.len() - 1 {
                assert(s[i] == decimal(n / 10)[i]);
            }
        }
    }
}

/// Reading back the decimal text of a number that fits gives the number.
pub proof fn lemma_parse_decimal(n: nat, max: nat)
    requires
        n <= max,
    ensures
        parse_unsigned(decimal(n), max) == Some(n),
{
    lemma_decimal(n);
}

proof fn lemma_digits_prefix(s: Seq<char>, k: int)
    requires
        0 <= k <= s.len(),
    ensures
        digits_value(s.take(k)) <= digits_value(s),
    decreases s.len() - k,
{
    if k < s.len() {
        lemma_digits_prefix(s, k + 1);
        assert(s.take(k + 1).drop_last() =~= s.take(k));
    } else {
        assert(s.take(k) =~= s);
    }
}

/// Reads an unsigned decimal number no larger than `max`, as `str::parse` does.
pub fn parse_unsigned_exec(s: &Vec<char>, max: u64) -> (r: Option<u64>)
    ensures
        match parse_unsigned(s@, max as nat) {
            Some(v) => r == Some(v as u64),
            None => r is None,
        },
{
    let start: usize = if s.len() > 0 && s[0] == '+' {
        1
    } else {
        0
    };
    let ghost d = unsigned_digits(s@);
    assert(d =~= s@.skip(start as int));
    if start >= s.len() {
        assert(d.len() == 0);
        return None;
    }
    let mut v: u128 = 0;
    let mut i: usize = start;
    while i < s.len()
        invariant
            start <= i <= s.len(),
            d =~= s@.skip(start as int),
            d == unsigned_digits(s@),
            v == digits_value(d.take(i - start)),
            v <= max,
            all_digits(d.take(i - start)),
        decreases s.len() - i,
    {
        let c = s[i];
        let ghost t = d.take(i - start + 1);
        assert(t.drop_last() =~= d.take(i - start));
        assert(t.last() == c);
        if c < '0' || c > '9' {
            assert(d[i - start] == c);
            assert(!all_digits(d));
            assert(parse_unsigned(s@, max as nat) is None);
            return None;
        }
        let dv: u128 = (c as u32 - '0' as u32) as u128;
        v = v * 10 + dv;
        assert forall|j: int| 0 <= j < t.len() implies is_digit(#[trigger] t[j]) by {
            if j < t.len() - 1 {
                assert(t[j] == d.take(i - start)[j]);
            }
        }
        if v > max as u128 {
            proof {
                lemma_digits_prefix(d, i - start + 1);
                assert(digits_value(t) == v);
                assert(digits_value(d) > max);
                assert(parse_unsigned(s@, max as nat) is None);
            }
            return None;
        }
        i = i + 1;
    }
    assert(d.take(i - start) =~= d);
    Some(v as u64)
}

/// Reads a `u8` as `str::parse::<u8>` does.
pub fn parse_u8(s: &Vec<char>) -> (r: Option<u8>)
    ensures
        match parse_unsigned(s@, 255) {
            Some(v) => r == Some(v as u8),
            None => r is None,
        },
{
    match parse_unsigned_exec(s, 255) {
        Some(v) => Some(v as u8),
        None => None,
    }
}

/// Reads a `u64` as `str::parse::<u64>` does.
pub fn parse_u64(s: &Vec<char>) -> (r: Option<u64>)
    ensures
        match parse_unsigned(s@, u64::MAX as nat) {
            Some(v) => r == Some(v as u64),
            None => r is None,
        },
{
    parse_unsigned_exec(s, u64::MAX)
}

/// Reads a boolean as `str::parse::<bool>` does.
pub fn parse_bool_exec(s: &Vec<char>) -> (r: Option<bool>)
    ensures
        r == parse_bool(s@),
{
    if s.len() == 4 && s[0] == 't' && s[1] == 'r' && s[2] == 'u' && s[3] == 'e' {
        assert(s@ =~= seq!['t', 'r', 'u', 'e']);
        Some(true)
    } else if s.len() == 5 && s[0] == 'f' && s[1] == 'a' && s[2] == 'l' && s[3] == 's' && s[4]
        == 'e' {
        assert(s@ =~= seq!['f', 'a', 'l', 's', 'e']);
        Some(false)
    } else {
        proof {
            if s@ == seq!['t', 'r', 'u', 'e'] {
                assert(s@.len() == 4);
                assert(s@[0] == 't' && s@[1] == 'r' && s@[2] == 'u' && s@[3] == 'e');
            }
            if s@ == seq!['f', 'a', 'l', 's', 'e'] {
                assert(s@.len() == 5);
                assert(s@[0] == 'f' && s@[1] == 'a' && s@[2] == 'l' && s@[3] == 's' && s@[4]
                    == 'e');
            }
        }
        None
    }
}

fn digit_char_exec(d: u64) -> (c: char)
    requires
        d < 10,
    ensures
        c == digit_char(d as nat),
{
    if d == 0 {
        '0'
    } else if d == 1 {
        '1'
    } else if d == 2 {
        '2'
    } else if d == 3 {
        '3'
    } else if d == 4 {
        '4'
    } else if d == 5 {
        '5'
    } else if d == 6 {
        '6'
    } else if d == 7 {
        '7'
    } else if d == 8 {
        '8'
    } else {
        '9'
    }
}

/// The decimal text of `n`, as `to_string` writes it.
pub fn decimal_exec(n: u64) -> (s: Vec<char>)
    ensures
        s@ == decimal(n as nat),
    decreases n,
{
    if n < 10 {
        let mut s = Vec::new();
        s.push(digit_char_exec(n));
        s
    } else {
        let mut s = decimal_exec(n / 10);
        s.push(digit_char_exec(n % 10));
        s
    }
}

/// The text that `to_string` gives for a boolean.
pub fn bool_text_exec(b: bool) -> (s: Vec<char>)
    ensures
        s@ == bool_text(b),
{
    let mut s = Vec::new();
    if b {
        s.push('t');
        s.push('r');
        s.push('u');
        s.push('e');
        assert(s@ =~= seq!['t', 'r', 'u', 'e']);
    } else {
        s.push('f');
        s.push('a');
        s.push('l');
        s.push('s');
        s.push('e');
        assert(s@ =~= seq!['f', 'a', 'l', 's', 'e']);
    }
    s
}

} // verus!
