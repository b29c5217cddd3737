//! Integers written in decimal: rendering, as in a query string, and reading,
//! as a JSON number denotes them.
use vstd::prelude::*;

verus! {

/// The character of a decimal digit.
pub open spec fn digit_char(d: nat) -> char {
    if d == 0 { '0' }
    else if d == 1 { '1' }
    else if d == 2 { '2' }
    else if d == 3 { '3' }
    else if d == 4 { '4' }
    else if d == 5 { '5' }
    else if d == 6 { '6' }
    else if d == 7 { '7' }
    else if d == 8 { '8' }
    else { '9' }
}

/// The value of a decimal digit character.
pub open spec fn digit_value(c: char) -> nat {
    (c as nat - '0' as nat) as nat
}

pub open spec fn is_digit(c: char) -> bool {
    '0' <= c && c <= '9'
}

/// The decimal digits of `n`, most significant first, without leading zeros.
pub open spec fn digits(n: nat) -> Seq<char>
    decreases n,
{
    if n < 10 {
        seq![digit_char(n)]
    } else {
        digits(n / 10).push(digit_char(n % 10))
    }
}

/// `n` in decimal: a minus sign before the digits of a negative number, no
/// padding.
pub open spec fn decimal(n: int) -> Seq<char> {
    if n < 0 {
        seq!['-'] + digits((-n) as nat)
    } else {
        digits(n as nat)
    }
}

/// The number that a non-empty run of digits denotes.
pub open spec fn digits_value(s: Seq<char>) -> nat
    decreases s.len(),
{
    if s.len() == 0 {
        0
    } else {
        digits_value(s.drop_last()) * 10 + digit_value(s.last())
    }
}

pub open spec fn all_digits(s: Seq<char>) -> bool {
    s.len() > 0 && forall|i: int| 0 <= i < s.len() ==> is_digit(#[trigger] s[i])
}

/// The integer that a text denotes: digits, with a leading minus sign for a
/// negative number; `None` for any other text.
pub open spec fn integer_text(s: Seq<char>) -> Option<int> {
    if s.len() > 0 && s[0] == '-' && all_digits(s.drop_first()) {
        Some(-(digits_value(s.drop_first()) as int))
    } else if all_digits(s) {
        Some(digits_value(s) as int)
    } else {
        None
    }
}

fn digit_text(d: u32) -> (r: &'static str)
    requires
        d < 10,
    ensures
        r@ == seq![digit_char(d as nat)],
{
    proof {
        reveal_strlit("0");
        reveal_strlit("1");
        reveal_strlit("2");
        reveal_strlit("3");
        reveal_strlit("4");
        reveal_strlit("5");
        reveal_strlit("6");
        reveal_strlit("7");
        reveal_strlit("8");
        reveal_strlit("9");
    }
    match d {
        0 => "0",
        1 => "1",
        2 => "2",
        3 => "3",
        4 => "4",
        5 => "5",
        6 => "6",
        7 => "7",
        8 => "8",
        _ => "9",
    }
}

fn push_digits(out: &mut String, n: u32)
    ensures
        final(out)@ == old(out)@ + digits(n as nat),
    decreases n,
{
    if n >= 10 {
        push_digits(out, n / 10);
    }
    out.append(digit_text(n % 10));
    assert(digits(n as nat) == if n < 10 {
        seq![digit_char(n as nat)]
    } else {
        digits((n / 10) as nat).push(digit_char((n % 10) as nat))
    });
}

/// Appends `n` in decimal to `out`.
pub fn push_decimal(out: &mut String, n: i32)
    ensures
        final(out)@ == old(out)@ + decimal(n as int),
{
    if n < 0 {
        proof {
            reveal_strlit("-");
        }
        out.append("-");
        let magnitude: u32 = (-(n as i64)) as u32;
        push_digits(out, magnitude);
        assert(final(out)@ =~= old(out)@ + decimal(n as int));
    } else {
        push_digits(out, n as u32);
    }
}

/// Reads a run of digits, unless its value exceeds `cap`.
fn read_digits(s: &str, from: usize, cap: u64) -> (r: Option<u64>)
    requires
        from < s@.len(),
        cap <= u32::MAX,
    ensures
        match r {
            Some(v) => all_digits(s@.subrange(from as int, s@.len() as int))
                && v == digits_value(s@.subrange(from as int, s@.len() as int)) && v <= cap,
            None => !all_digits(s@.subrange(from as int, s@.len() as int))
                || digits_value(s@.subrange(from as int, s@.len() as int)) > cap,
        },
{
    let n = s.unicode_len();
    let ghost run = s@.subrange(from as int, s@.len() as int);
    let mut value: u64 = 0;
    let mut i: usize = from;
    let mut over: bool = false;
    while i < n
        invariant
            from <= i <= n,
            n == s@.len(),
            run == s@.subrange(from as int, n as int),
            cap <= u32::MAX,
            forall|k: int| from <= k < i ==> is_digit(#[trigger] s@[k]),
            over ==> digits_value(run.subrange(0, i - from)) > cap,
            !over ==> value == digits_value(run.subrange(0, i - from)) && value <= cap,
        decreases n - i,
    {
        let c = s.get_char(i);
        if !('0' <= c && c <= '9') {
            assert(!is_digit(run[i - from]));
            return None;
        }
        let ghost before = run.subrange(0, i - from);
        let ghost after = run.subrange(0, i - from + 1);
        assert(after.drop_last() =~= before);
        assert(after.last() == c);
        if !over {
            let next: u64 = value * 10 + (c as u64 - '0' as u64);
            if next > cap {
                over = true;
            } else {
                value = next;
            }
        } else {
            assert(digits_value(after) > cap) by (nonlinear_arith)
                requires
                    digits_value(after) == digits_value(before) * 10 + digit_value(c),
                    digits_value(before) > cap,
            ;
        }
        i = i + 1;
    }
    assert(run.subrange(0, n - from) =~= run);
    if over {
        None
    } else {
        Some(value)
    }
}

/// Reads the integer that `s` denotes, where it fits in an `i32`.
pub fn parse_i32(s: &str) -> (r: Option<i32>)
    ensures
        match r {
            Some(v) => integer_text(s@) == Some(v as int),
            None => match integer_text(s@) {
                Some(v) => !(i32::MIN <= v <= i32::MAX),
                None => true,
            },
        },
{
    let n = s.unicode_len();
    if n == 0 {
        return None;
    }
    if s.get_char(0) == '-' {
        if n == 1 {
            return None;
        }
        assert(s@.drop_first() =~= s@.subrange(1, s@.len() as int));
        match read_digits(s, 1, 2147483648) {
            Some(v) => Some((-(v as i64)) as i32),
            None => None,
        }
    } else {
        assert(s@ =~= s@.subrange(0, s@.len() as int));
        match read_digits(s, 0, 2147483647) {
            Some(v) => Some(v as i32),
            None => None,
        }
    }
}

} // verus!
