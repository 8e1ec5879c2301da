//! Decimal amounts: parsing command-line integers and rendering balances.
//!
//! Amount arguments must be non-negative integers, so both directions are
//! specified against a single mathematical model: `dec_val` reads a digit
//! sequence as a number and `dec_chars` writes a number as its shortest
//! decimal digit sequence.

use vstd::prelude::*;

verus! {

/// The ten decimal digit characters, by value.
pub open spec fn digit_char(d: nat) -> char {
    if d == 0 {
        '0'
    } else if d == 1 {
        '1'
    } else if d == 2 {
        '2'
    } else if d == 3 {
        '3'
    } else if d == 4 {
        '4'
    } else if d == 5 {
        '5'
    } else if d == 6 {
        '6'
    } else if d == 7 {
        '7'
    } else if d == 8 {
        '8'
    } else {
        '9'
    }
}

pub open spec fn is_digit_char(c: char) -> bool {
    c == '0' || c == '1' || c == '2' || c == '3' || c == '4' || c == '5' || c == '6' || c == '7'
        || c == '8' || c == '9'
}

/// The value of one digit character; unconstrained elsewhere.
pub open spec fn digit_of(c: char) -> nat {
    if c == '0' {
        0
    } else if c == '1' {
        1
    } else if c == '2' {
        2
    } else if c == '3' {
        3
    } else if c == '4' {
        4
    } else if c == '5' {
        5
    } else if c == '6' {
        6
    } else if c == '7' {
        7
    } else if c == '8' {
        8
    } else if c == '9' {
        9
    } else {
        0
    }
}

pub open spec fn all_digits(s: Seq<char>) -> bool {
    forall|i: int| 0 <= i < s.len() ==> is_digit_char(s[i])
}

/// The number denoted by a digit sequence, most significant digit first.
pub open spec fn dec_val(s: Seq<char>) -> nat
    decreases s.len(),
{
    if s.len() == 0 {
        0
    } else {
        dec_val(s.drop_last()) * 10 + digit_of(s.last())
    }
}

/// The shortest decimal rendering of a number.
pub open spec fn dec_chars(n: nat) -> Seq<char>
    decreases n,
{
    if n < 10 {
        seq![digit_char(n)]
    } else {
        dec_chars(n / 10).push(digit_char(n % 10))
    }
}

/// The digits of an amount token: an optional leading plus sign belongs to
/// the integer syntax and carries no value.
pub open spec fn amount_digits(s: Seq<char>) -> Seq<char> {
    if s.len() > 0 && s[0] == '+' {
        s.drop_first()
    } else {
        s
    }
}

/// A string is accepted as an amount when, after an optional leading plus
/// sign, it is a non-empty, all-digit sequence whose value fits in 64 bits.
pub open spec fn parses_u64(s: Seq<char>) -> bool {
    let d = amount_digits(s);
    d.len() > 0 && all_digits(d) && dec_val(d) <= u64::MAX
}

/// The value of an accepted amount token.
pub open spec fn amount_value(s: Seq<char>) -> nat {
    dec_val(amount_digits(s))
}

/// The value of a prefix never exceeds the value of the whole sequence.
proof fn lemma_dec_val_prefix_le(s: Seq<char>, i: int)
    requires
        0 <= i <= s.len(),
    ensures
        dec_val(s.subrange(0, i)) <= dec_val(s),
    decreases s.len() - i,
{
    if i < s.len() {
        let shorter = s.subrange(0, i);
        let longer = s.subrange(0, i + 1);
        assert(longer.drop_last() =~= shorter);
        assert(dec_val(longer) == dec_val(shorter) * 10 + digit_of(longer.last()));
        lemma_dec_val_prefix_le(s, i + 1);
    } else {
        assert(s.subrange(0, i) =~= s);
    }
}

fn char_digit(c: char) -> (r: Option<u64>)
    ensures
        match r {
            Some(d) => is_digit_char(c) && d == digit_of(c) && d < 10,
            None => !is_digit_char(c),
        },
{
    match c {
        '0' => Some(0),
        '1' => Some(1),
        '2' => Some(2),
        '3' => Some(3),
        '4' => Some(4),
        '5' => Some(5),
        '6' => Some(6),
        '7' => Some(7),
        '8' => Some(8),
        '9' => Some(9),
        _ => None,
    }
}

/// Reads a whole string as a non-negative 64-bit integer, most significant
/// digit first; an optional leading plus sign is allowed, anything else but
/// a representable all-digit string is refused.
pub fn parse_u64(s: &str) -> (r: Option<u64>)
    ensures
        match r {
            Some(v) => parses_u64(s@) && v == amount_value(s@),
            None => !parses_u64(s@),
        },
{
    let n = s.unicode_len();
    let start: usize = if n > 0 && s.get_char(0) == '+' {
        1
    } else {
        0
    };
    let ghost d = amount_digits(s@);
    proof {
        assert(d =~= s@.subrange(start as int, n as int));
    }
    if start == n {
        return None;
    }
    let mut i: usize = start;
    let mut acc: u64 = 0;
    while i < n
        invariant
            start <= i <= n,
            n == s@.len(),
            d == amount_digits(s@),
            d == s@.subrange(start as int, n as int),
            forall|j: int| 0 <= j < i - start ==> is_digit_char(d[j]),
            acc == dec_val(d.subrange(0, i - start)),
        decreases n - i,
    {
        let c = s.get_char(i);
        proof {
            assert(d[i - start] == s@[i as int]);
        }
        let dig = match char_digit(c) {
            Some(dig) => dig,
            None => {
                assert(!is_digit_char(d[i - start]));
                return None;
            },
        };
        let next = match acc.checked_mul(10) {
            Some(m) => m.checked_add(dig),
            None => None,
        };
        match next {
            Some(v) => {
                proof {
                    let longer = d.subrange(0, i + 1 - start);
                    assert(longer.drop_last() =~= d.subrange(0, i - start));
                    assert(longer.last() == d[i - start]);
                }
                acc = v;
                i = i + 1;
            },
            None => {
                proof {
                    let longer = d.subrange(0, i + 1 - start);
                    assert(longer.drop_last() =~= d.subrange(0, i - start));
                    assert(longer.last() == d[i - start]);
                    assert(dec_val(longer) == acc * 10 + dig);
                    assert(dec_val(longer) > u64::MAX);
                    lemma_dec_val_prefix_le(d, i + 1 - start);
                }
                return None;
            },
        }
    }
    proof {
        assert(d.subrange(0, n - start) =~= d);
    }
    Some(acc)
}

fn digit_str(d: u128) -> (r: &'static str)
    requires
        d < 10,
    ensures
        r@ =~= seq![digit_char(d as nat)],
{
    proof {
        reveal_strlit("0");
        reveal_strlit("1");
        reveal_strlit("2");
        reveal_strlit("3");
        reveal_strlit("4");
        reveal_strlit("5");
        reveal_strlit("6");
        reveal_strlit("7");
        reveal_strlit("8");
        reveal_strlit("9");
    }
    match d {
        0 => "0",
        1 => "1",
        2 => "2",
        3 => "3",
        4 => "4",
        5 => "5",
        6 => "6",
        7 => "7",
        8 => "8",
        _ => "9",
    }
}

/// Renders a number in decimal, without padding or separators. Channel
/// identifiers are 128 bits wide, so the widest case is covered once here.
pub fn format_u128(n: u128) -> (r: String)
    ensures
        r@ == dec_chars(n as nat),
    decreases n,
{
    if n < 10 {
        String::from_str(digit_str(n))
    } else {
        proof {
            assert(n / 10 < n) by (nonlinear_arith)
                requires
                    n >= 10,
            ;
        }
        let mut prefix = format_u128(n / 10);
        prefix.append(digit_str(n % 10));
        proof {
            assert(prefix@ =~= dec_chars((n / 10) as nat).push(digit_char((n % 10) as nat)));
        }
        prefix
    }
}

/// Renders a 64-bit amount in decimal.
pub fn format_u64(n: u64) -> (r: String)
    ensures
        r@ == dec_chars(n as nat),
{
    format_u128(n as u128)
}

} // verus!
