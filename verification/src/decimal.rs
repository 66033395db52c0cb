//! Decimal rendering and parsing of integers.
use vstd::prelude::*;
use crate::text::string_from_chars;

verus! {

/// The character of a decimal digit.
pub open spec fn digit_char(d: int) -> char {
    ((d + 48) as u32) as char
}

/// The decimal digits of `n`, most significant first, without leading zeros.
pub open spec fn dec_nat(n: nat) -> Seq<char>
    decreases n,
{
    if n < 10 {
        seq![digit_char(n as int)]
    } else {
        dec_nat(n / 10).push(digit_char((n % 10) as int))
    }
}

/// The decimal rendering of an integer (`to_string`), with a minus sign for
/// negative values.
pub open spec fn dec_int(v: int) -> Seq<char> {
    if v < 0 {
        seq!['-'] + dec_nat((-v) as nat)
    } else {
        dec_nat(v as nat)
    }
}

fn digit_exec(d: u128) -> (c: char)
    requires
        d < 10,
    ensures
        c == digit_char(d as int),
{
    if d == 0 {
        '0'
    } else if d == 1 {
        '1'
    } else if d == 2 {
        '2'
    } else if d == 3 {
        '3'
    } else if d == 4 {
        '4'
    } else if d == 5 {
        '5'
    } else if d == 6 {
        '6'
    } else if d == 7 {
        '7'
    } else if d == 8 {
        '8'
    } else {
        '9'
    }
}

fn push_dec(out: &mut Vec<char>, n: u128)
    ensures
        final(out)@ == old(out)@ + dec_nat(n as nat),
    decreases n,
{
    if n >= 10 {
        push_dec(out, n / 10);
    }
    let c = digit_exec(n % 10);
    out.push(c);
    proof {
        if n >= 10 {
            assert(dec_nat(n as nat) == dec_nat((n / 10) as nat).push(digit_char((n % 10) as int)));
        }
    }
}

/// `u128::to_string`.
pub fn u128_to_string(n: u128) -> (s: String)
    ensures
        s@ == dec_nat(n as nat),
{
    let mut v: Vec<char> = Vec::new();
    push_dec(&mut v, n);
    assert(v@ =~= dec_nat(n as nat));
    string_from_chars(v.as_slice())
}

/// `usize::to_string`.
pub fn usize_to_string(n: usize) -> (s: String)
    ensures
        s@ == dec_nat(n as nat),
{
    u128_to_string(n as u128)
}

/// `i64::to_string`.
pub fn i64_to_string(v: i64) -> (s: String)
    ensures
        s@ == dec_int(v as int),
{
    let mut out: Vec<char> = Vec::new();
    if v < 0 {
        out.push('-');
        let m: i128 = -(v as i128);
        push_dec(&mut out, m as u128);
        assert(out@ =~= seq!['-'] + dec_nat((-v) as nat));
    } else {
        push_dec(&mut out, v as u128);
        assert(out@ =~= dec_nat(v as nat));
    }
    string_from_chars(out.as_slice())
}

/// `u32::to_string`.
pub fn u32_to_string(n: u32) -> (s: String)
    ensures
        s@ == dec_nat(n as nat),
{
    u128_to_string(n as u128)
}

/// Whether `c` is an ASCII digit.
pub open spec fn is_digit(c: char) -> bool {
    '0' <= c && c <= '9'
}

/// The value of a string of decimal digits.
pub open spec fn digits_value(s: Seq<char>) -> int
    decreases s.len(),
{
    if s.len() == 0 {
        0
    } else {
        digits_value(s.drop_last()) * 10 + (s.last() as int - 48)
    }
}

/// Whether all characters are ASCII digits.
pub open spec fn all_digits(s: Seq<char>) -> bool {
    forall|i: int| 0 <= i < s.len() ==> is_digit(#[trigger] s[i])
}

/// The integer a string denotes in Rust's integer syntax (`str::parse`):
/// an optional sign (`-` only where `signed`), then one or more digits.
pub open spec fn parsed_int(s: Seq<char>, signed: bool) -> Option<int> {
    let neg = signed && s.len() > 0 && s[0] == '-';
    let body = if s.len() > 0 && (s[0] == '+' || neg) {
        s.skip(1)
    } else {
        s
    };
    if body.len() == 0 || !all_digits(body) {
        None
    } else if neg {
        Some(-digits_value(body))
    } else {
        Some(digits_value(body))
    }
}

/// `str::parse::<i64>`: `Some` exactly when the text is an integer within range.
pub open spec fn parse_i64_spec(s: Seq<char>) -> Option<int> {
    match parsed_int(s, true) {
        Some(v) => if i64::MIN <= v <= i64::MAX {
            Some(v)
        } else {
            None
        },
        None => None,
    }
}

/// `str::parse::<u32>`: `Some` exactly when the text is a non-negative
/// integer within range.
pub open spec fn parse_u32_spec(s: Seq<char>) -> Option<int> {
    match parsed_int(s, false) {
        Some(v) => if 0 <= v <= u32::MAX {
            Some(v)
        } else {
            None
        },
        None => None,
    }
}

proof fn lemma_digits_value_nonneg(s: Seq<char>)
    requires
        all_digits(s),
    ensures
        digits_value(s) >= 0,
    decreases s.len(),
{
    if s.len() > 0 {
        assert(all_digits(s.drop_last())) by {
            assert forall|i: int| 0 <= i < s.drop_last().len() implies is_digit(#[trigger] s.drop_last()[i]) by {
                assert(s.drop_last()[i] == s[i]);
            }
        }
        lemma_digits_value_nonneg(s.drop_last());
        assert(is_digit(s[s.len() - 1]));
    }
}

/// Parses the digits of `s` from `start`, saturating at `cap`.
fn digits_capped(s: &Vec<char>, start: usize, cap: u128) -> (r: Option<u128>)
    requires
        start <= s@.len(),
        cap <= u64::MAX as u128 * 2,
    ensures
        r is Some <==> all_digits(s@.skip(start as int)),
        r matches Some(v) ==> v == if digits_value(s@.skip(start as int)) < cap {
            digits_value(s@.skip(start as int))
        } else {
            cap as int
        },
{
    let mut acc: u128 = 0;
    let mut i: usize = start;
    while i < s.len()
        invariant
            start <= i <= s@.len(),
            cap <= u64::MAX as u128 * 2,
            all_digits(s@.subrange(start as int, i as int)),
            digits_value(s@.subrange(start as int, i as int)) >= 0,
            acc == if digits_value(s@.subrange(start as int, i as int)) < cap {
                digits_value(s@.subrange(start as int, i as int))
            } else {
                cap as int
            },
        decreases s@.len() - i,
    {
        let c = s[i];
        let ghost pre = s@.subrange(start as int, i as int);
        let ghost nxt = s@.subrange(start as int, i + 1);
        assert(nxt.drop_last() =~= pre);
        if !('0' <= c && c <= '9') {
            proof {
                assert(s@.skip(start as int)[i - start] == c);
            }
            return None;
        }
        let d: u128 = (c as u32 - 48) as u128;
        proof {
            assert(all_digits(nxt)) by {
                assert forall|k: int| 0 <= k < nxt.len() implies is_digit(#[trigger] nxt[k]) by {
                    if k < pre.len() {
                        assert(nxt[k] == pre[k]);
                    }
                }
            }
            assert(digits_value(nxt) == digits_value(pre) * 10 + d);
        }
        if acc >= cap {
            acc = cap;
        } else {
            let nv = acc * 10 + d;
            acc = if nv < cap { nv } else { cap };
        }
        i = i + 1;
    }
    assert(s@.subrange(start as int, s@.len() as int) =~= s@.skip(start as int));
    Some(acc)
}

/// `str::parse::<i64>` on characters.
pub fn parse_i64(s: &Vec<char>) -> (r: Option<i64>)
    ensures
        match (r, parse_i64_spec(s@)) {
            (Some(a), Some(b)) => a == b,
            (None, None) => true,
            _ => false,
        },
{
    let neg = s.len() > 0 && s[0] == '-';
    let start: usize = if s.len() > 0 && (s[0] == '+' || neg) { 1 } else { 0 };
    if start == s.len() {
        assert(s@.skip(start as int).len() == 0);
        return None;
    }
    let cap: u128 = 9_223_372_036_854_775_809;
    let ghost body = s@.skip(start as int);
    assert(start == 0 ==> body =~= s@);
    match digits_capped(s, start, cap) {
        None => None,
        Some(v) => {
            proof {
                lemma_digits_value_nonneg(body);
            }
            if neg {
                if v <= 9_223_372_036_854_775_808 {
                    let m: i128 = -(v as i128);
                    Some(m as i64)
                } else {
                    None
                }
            } else {
                if v <= 9_223_372_036_854_775_807 {
                    Some(v as i64)
                } else {
                    None
                }
            }
        },
    }
}

/// `str::parse::<u32>` on characters.
pub fn parse_u32(s: &Vec<char>) -> (r: Option<u32>)
    ensures
        match (r, parse_u32_spec(s@)) {
            (Some(a), Some(b)) => a == b,
            (None, None) => true,
            _ => false,
        },
{
    let start: usize = if s.len() > 0 && s[0] == '+' { 1 } else { 0 };
    if start == s.len() {
        assert(s@.skip(start as int).len() == 0);
        return None;
    }
    let cap: u128 = 4_294_967_296;
    let ghost body = s@.skip(start as int);
    assert(start == 0 ==> body =~= s@);
    match digits_capped(s, start, cap) {
        None => None,
        Some(v) => {
            proof {
                lemma_digits_value_nonneg(body);
            }
            if v <= 4_294_967_295 {
                Some(v as u32)
            } else {
                None
            }
        },
    }
}

} // verus!
