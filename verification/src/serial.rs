//! Fixed-width decimal rendering of issuance serial numbers.
//!
//! Session tokens carry a fixed-width decimal serial number as a prefix, so
//! that a token issued later can never equal a live token issued earlier.
//! This module defines the rendering, proves it injective for values below
//! `10^width`, and provides the executable rendering function.

use vstd::prelude::*;
use vstd::arithmetic::div_mod::lemma_fundamental_div_mod;

verus! {

/// `10^e`.
pub open spec fn pow10(e: nat) -> int
    decreases e,
{
    if e == 0 {
        1
    } else {
        10 * pow10((e - 1) as nat)
    }
}

/// The character for the decimal digit `d` (digits other than 0 through 9
/// are rendered as '9', but callers always pass a single digit).
pub open spec fn digit_char(d: int) -> char {
    if d == 0 {
        '0'
    } else if d == 1 {
        '1'
    } else if d == 2 {
        '2'
    } else if d == 3 {
        '3'
    } else if d == 4 {
        '4'
    } else if d == 5 {
        '5'
    } else if d == 6 {
        '6'
    } else if d == 7 {
        '7'
    } else if d == 8 {
        '8'
    } else {
        '9'
    }
}

/// `n` rendered as exactly `width` decimal digits, most significant first:
/// the low `width` digits of `n`, zero-padded on the left.
pub open spec fn pad_digits(n: int, width: nat) -> Seq<char>
    decreases width,
{
    if width == 0 {
        Seq::empty()
    } else {
        pad_digits(n / 10, (width - 1) as nat).push(digit_char(n % 10))
    }
}

pub proof fn lemma_pad_digits_len(n: int, width: nat)
    ensures
        pad_digits(n, width).len() == width,
    decreases width,
{
    if width > 0 {
        lemma_pad_digits_len(n / 10, (width - 1) as nat);
    }
}

/// Distinct values below `10^width` render as distinct digit sequences.
pub proof fn lemma_pad_digits_injective(m: int, n: int, width: nat)
    requires
        0 <= m < pow10(width),
        0 <= n < pow10(width),
        pad_digits(m, width) == pad_digits(n, width),
    ensures
        m == n,
    decreases width,
{
    if width == 0 {
        assert(pow10(0) == 1);
    } else {
        let w1 = (width - 1) as nat;
        lemma_pad_digits_len(m / 10, w1);
        lemma_pad_digits_len(n / 10, w1);
        assert(pad_digits(m, width) == pad_digits(m / 10, w1).push(digit_char(m % 10)));
        assert(pad_digits(n, width) == pad_digits(n / 10, w1).push(digit_char(n % 10)));
        assert(pad_digits(m, width)[w1 as int] == digit_char(m % 10));
        assert(pad_digits(n, width)[w1 as int] == digit_char(n % 10));
        assert(digit_char(m % 10) == digit_char(n % 10));
        assert(m % 10 == n % 10);
        assert(pad_digits(m, width).drop_last() =~= pad_digits(m / 10, w1));
        assert(pad_digits(n, width).drop_last() =~= pad_digits(n / 10, w1));
        assert(pow10(width) == 10 * pow10(w1));
        assert(m / 10 < pow10(w1)) by (nonlinear_arith)
            requires
                0 <= m,
                m < 10 * pow10(w1),
        ;
        assert(n / 10 < pow10(w1)) by (nonlinear_arith)
            requires
                0 <= n,
                n < 10 * pow10(w1),
        ;
        lemma_pad_digits_injective(m / 10, n / 10, w1);
        lemma_fundamental_div_mod(m, 10);
        lemma_fundamental_div_mod(n, 10);
    }
}

/// Every `u64` value is below `10^20`, so twenty digits render it injectively.
pub proof fn lemma_u64_below_pow10_20(n: u64)
    ensures
        0 <= n < pow10(20),
{
    reveal_with_fuel(pow10, 21);
    assert(pow10(20) == 100000000000000000000int);
}

/// One decimal digit as a string slice.
fn digit_str(d: u64) -> (s: &'static str)
    requires
        d < 10,
    ensures
        s@ =~= seq![digit_char(d as int)],
{
    if d == 0 {
        let s = "0";
        proof {
            reveal_strlit("0");
            assert(s@ =~= seq![digit_char(d as int)]);
        }
        s
    } else if d == 1 {
        let s = "1";
        proof {
            reveal_strlit("1");
            assert(s@ =~= seq![digit_char(d as int)]);
        }
        s
    } else if d == 2 {
        let s = "2";
        proof {
            reveal_strlit("2");
            assert(s@ =~= seq![digit_char(d as int)]);
        }
        s
    } else if d == 3 {
        let s = "3";
        proof {
            reveal_strlit("3");
            assert(s@ =~= seq![digit_char(d as int)]);
        }
        s
    } else if d == 4 {
        let s = "4";
        proof {
            reveal_strlit("4");
            assert(s@ =~= seq![digit_char(d as int)]);
        }
        s
    } else if d == 5 {
        let s = "5";
        proof {
            reveal_strlit("5");
            assert(s@ =~= seq![digit_char(d as int)]);
        }
        s
    } else if d == 6 {
        let s = "6";
        proof {
            reveal_strlit("6");
            assert(s@ =~= seq![digit_char(d as int)]);
        }
        s
    } else if d == 7 {
        let s = "7";
        proof {
            reveal_strlit("7");
            assert(s@ =~= seq![digit_char(d as int)]);
        }
        s
    } else if d == 8 {
        let s = "8";
        proof {
            reveal_strlit("8");
            assert(s@ =~= seq![digit_char(d as int)]);
        }
        s
    } else {
        let s = "9";
        proof {
            reveal_strlit("9");
            assert(s@ =~= seq![digit_char(d as int)]);
        }
        s
    }
}

fn serial_digits_rec(n: u64, width: u8) -> (s: String)
    ensures
        s@ == pad_digits(n as int, width as nat),
    decreases width,
{
    if width == 0 {
        String::new()
    } else {
        let rest = serial_digits_rec(n / 10, width - 1);
        let d = digit_str(n % 10);
        let s = rest.concat(d);
        proof {
            assert(s@ =~= pad_digits(n as int, width as nat));
        }
        s
    }
}

/// `n` as its twenty-digit zero-padded decimal rendering.
pub fn serial_prefix(n: u64) -> (s: String)
    ensures
        s@ == pad_digits(n as int, 20),
        s@.len() == 20,
{
    let s = serial_digits_rec(n, 20);
    proof {
        lemma_pad_digits_len(n as int, 20);
    }
    s
}

} // verus!
