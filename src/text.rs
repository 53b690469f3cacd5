//! Decimal and hexadecimal renderings of integers.
use vstd::prelude::*;

verus! {

/// The character of a digit below sixteen: `0`-`9`, then `a`-`f`.
pub open spec fn digit_char(d: nat) -> char {
    if d < 10 {
        (48 + d) as char
    } else {
        (87 + d) as char
    }
}

/// The digits of `n` in base sixteen when `hex_base` holds, else in base
/// ten, most significant first, without leading zeros (`0` is one digit).
pub open spec fn digits(n: nat, hex_base: bool) -> Seq<char>
    decreases n,
{
    if hex_base {
        if n < 16 {
            seq![digit_char(n)]
        } else {
            digits(n / 16, hex_base).push(digit_char(n % 16))
        }
    } else {
        if n < 10 {
            seq![digit_char(n)]
        } else {
            digits(n / 10, hex_base).push(digit_char(n % 10))
        }
    }
}

/// `n` in decimal.
pub open spec fn decimal(n: nat) -> Seq<char> {
    digits(n, false)
}

/// `n` in lower-case hexadecimal.
pub open spec fn hex(n: nat) -> Seq<char> {
    digits(n, true)
}

/// `n`, below a hundred, as exactly two decimal digits.
pub open spec fn two_digits(n: nat) -> Seq<char> {
    seq![digit_char(n / 10), digit_char(n % 10)]
}

/// The one-character text of a digit below sixteen.
pub fn digit_text(d: u64) -> (r: &'static str)
    requires
        d < 16,
    ensures
        r@ == seq![digit_char(d as nat)],
{
    match d {
        0 => {
            proof { reveal_strlit("0"); }
            "0"
        },
        1 => {
            proof { reveal_strlit("1"); }
            "1"
        },
        2 => {
            proof { reveal_strlit("2"); }
            "2"
        },
        3 => {
            proof { reveal_strlit("3"); }
            "3"
        },
        4 => {
            proof { reveal_strlit("4"); }
            "4"
        },
        5 => {
            proof { reveal_strlit("5"); }
            "5"
        },
        6 => {
            proof { reveal_strlit("6"); }
            "6"
        },
        7 => {
            proof { reveal_strlit("7"); }
            "7"
        },
        8 => {
            proof { reveal_strlit("8"); }
            "8"
        },
        9 => {
            proof { reveal_strlit("9"); }
            "9"
        },
        10 => {
            proof { reveal_strlit("a"); }
            "a"
        },
        11 => {
            proof { reveal_strlit("b"); }
            "b"
        },
        12 => {
            proof { reveal_strlit("c"); }
            "c"
        },
        13 => {
            proof { reveal_strlit("d"); }
            "d"
        },
        14 => {
            proof { reveal_strlit("e"); }
            "e"
        },
        _ => {
            proof { reveal_strlit("f"); }
            "f"
        },
    }
}

/// Renders `n` in base sixteen when `hex_base` holds, else in base ten.
pub fn digits_text(n: u64, hex_base: bool) -> (r: String)
    ensures
        r@ == digits(n as nat, hex_base),
    decreases n,
{
    let base: u64 = if hex_base {
        16
    } else {
        10
    };
    if n < base {
        String::from_str(digit_text(n))
    } else {
        let mut s = digits_text(n / base, hex_base);
        s.append(digit_text(n % base));
        s
    }
}

/// Renders `n` in decimal.
pub fn decimal_text(n: u64) -> (r: String)
    ensures
        r@ == decimal(n as nat),
{
    digits_text(n, false)
}

/// Renders `n` in lower-case hexadecimal.
pub fn hex_text(n: u64) -> (r: String)
    ensures
        r@ == hex(n as nat),
{
    digits_text(n, true)
}

/// Appends `n`, below a hundred, as two decimal digits.
pub fn append_two_digits(s: &mut String, n: u64)
    requires
        n < 100,
    ensures
        final(s)@ == old(s)@ + two_digits(n as nat),
{
    s.append(digit_text(n / 10));
    s.append(digit_text(n % 10));
    assert(final(s)@ =~= old(s)@ + two_digits(n as nat));
}

} // verus!
