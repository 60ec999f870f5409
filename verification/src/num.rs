use vstd::prelude::*;

verus! {

/// The decimal digit character for `d`.
pub open spec fn dec_digit(d: int) -> char {
    if d == 0 {
        '0'
    } else if d == 1 {
        '1'
    } else if d == 2 {
        '2'
    } else if d == 3 {
        '3'
    } else if d == 4 {
        '4'
    } else if d == 5 {
        '5'
    } else if d == 6 {
        '6'
    } else if d == 7 {
        '7'
    } else if d == 8 {
        '8'
    } else {
        '9'
    }
}

/// The decimal representation of `n`, without leading zeros (just "0" for 0).
pub open spec fn dec_seq(n: nat) -> Seq<char>
    decreases n,
{
    if n < 10 {
        seq![dec_digit(n as int)]
    } else {
        dec_seq(n / 10) + seq![dec_digit((n % 10) as int)]
    }
}

/// The decimal representation of `n`, zero-padded on the left to at least
/// two digits.
pub open spec fn pad2_seq(n: nat) -> Seq<char> {
    if n < 10 {
        seq!['0'] + dec_seq(n)
    } else {
        dec_seq(n)
    }
}

/// A quantity of tenths, written with one decimal place ("17.3").
pub open spec fn fixed1_seq(tenths: nat) -> Seq<char> {
    dec_seq(tenths / 10) + seq!['.'] + seq![dec_digit((tenths % 10) as int)]
}

/// A possibly negative quantity of tenths, written with one decimal place.
pub open spec fn fixed1_signed_seq(tenths: int) -> Seq<char> {
    if tenths < 0 {
        seq!['-'] + fixed1_seq((-tenths) as nat)
    } else {
        fixed1_seq(tenths as nat)
    }
}

/// A quantity of hundredths, written with two decimal places ("3.07").
pub open spec fn fixed2_seq(hundredths: nat) -> Seq<char> {
    dec_seq(hundredths / 100) + seq!['.'] + pad2_seq(hundredths % 100)
}

fn digit_char(d: u64) -> (c: char)
    requires
        d < 10,
    ensures
        c == dec_digit(d as int),
{
    if d == 0 {
        '0'
    } else if d == 1 {
        '1'
    } else if d == 2 {
        '2'
    } else if d == 3 {
        '3'
    } else if d == 4 {
        '4'
    } else if d == 5 {
        '5'
    } else if d == 6 {
        '6'
    } else if d == 7 {
        '7'
    } else if d == 8 {
        '8'
    } else {
        '9'
    }
}

/// The decimal representation of `n`.
pub fn dec_of(n: u64) -> (r: Vec<char>)
    ensures
        r@ == dec_seq(n as nat),
    decreases n,
{
    if n < 10 {
        let mut r: Vec<char> = Vec::new();
        r.push(digit_char(n));
        assert(r@ =~= dec_seq(n as nat));
        r
    } else {
        let mut r = dec_of(n / 10);
        r.push(digit_char(n % 10));
        assert(r@ =~= dec_seq(n as nat));
        r
    }
}

/// The decimal representation of `n`, zero-padded to at least two digits.
pub fn pad2_of(n: u64) -> (r: Vec<char>)
    ensures
        r@ == pad2_seq(n as nat),
{
    if n < 10 {
        let mut r: Vec<char> = Vec::new();
        r.push('0');
        r.push(digit_char(n));
        assert(r@ =~= pad2_seq(n as nat));
        r
    } else {
        dec_of(n)
    }
}

/// `tenths` written with one decimal place.
pub fn fixed1_of(tenths: u64) -> (r: Vec<char>)
    ensures
        r@ == fixed1_seq(tenths as nat),
{
    let mut r = dec_of(tenths / 10);
    r.push('.');
    r.push(digit_char(tenths % 10));
    assert(r@ =~= fixed1_seq(tenths as nat));
    r
}

/// A possibly negative quantity of tenths, written with one decimal place.
pub fn fixed1_signed_of(tenths: i64) -> (r: Vec<char>)
    requires
        tenths > i64::MIN,
    ensures
        r@ == fixed1_signed_seq(tenths as int),
{
    if tenths < 0 {
        let mut r: Vec<char> = Vec::new();
        r.push('-');
        let rest = fixed1_of((-tenths) as u64);
        crate::text::push_all(&mut r, &rest);
        assert(r@ =~= fixed1_signed_seq(tenths as int));
        r
    } else {
        let r = fixed1_of(tenths as u64);
        r
    }
}

/// `hundredths` written with two decimal places.
pub fn fixed2_of(hundredths: u64) -> (r: Vec<char>)
    ensures
        r@ == fixed2_seq(hundredths as nat),
{
    let mut r = dec_of(hundredths / 100);
    r.push('.');
    let frac = pad2_of(hundredths % 100);
    crate::text::push_all(&mut r, &frac);
    assert(r@ =~= fixed2_seq(hundredths as nat));
    r
}

/// Division truncating toward zero, as the machine division does.
pub open spec fn div_trunc(a: int, b: int) -> int {
    if a >= 0 {
        a / b
    } else {
        -((-a) / b)
    }
}

/// `n / d` rounded half away from zero.
pub open spec fn round_half_mag(n: int, d: int) -> int {
    if n >= 0 {
        (n + d / 2) / d
    } else {
        -(((-n) + d / 2) / d)
    }
}

/// `a * m / b`, rounded half up.
pub fn mul_round_div(a: u64, m: u64, b: u64) -> (r: u64)
    requires
        b > 0,
        (a as int * m as int + b as int / 2) / (b as int) <= u64::MAX,
    ensures
        r == (a as int * m as int + b as int / 2) / (b as int),
{
    proof {
        assert((a as int) * (m as int) <= (u64::MAX as int) * (u64::MAX as int)) by (
        nonlinear_arith)
            requires
                0 <= a <= u64::MAX && 0 <= m <= u64::MAX,
        ;
        assert((u64::MAX as int) * (u64::MAX as int) + u64::MAX <= u128::MAX);
    }
    let wide: u128 = ((a as u128) * (m as u128) + (b as u128) / 2) / (b as u128);
    proof {
        assert(a as int * m as int >= 0) by (nonlinear_arith)
            requires
                a >= 0,
                m >= 0,
        ;
        assert((a as int * m as int + b as int / 2) / (b as int) >= 0);
    }
    wide as u64
}

/// `a / b`, rounded half up.
pub fn round_div(a: u64, b: u64) -> (r: u64)
    requires
        b > 0,
    ensures
        r == (a + b / 2) as int / b as int,
{
    let wide: u128 = (a as u128 + (b as u128) / 2) / (b as u128);
    proof {
        assert(b / 2 <= b - 1);
        assert(a as int + b as int / 2 <= a as int * b as int + (b as int - 1)) by (nonlinear_arith)
            requires
                b >= 1,
                a >= 0,
        ;
        assert((a as int + b as int / 2) / (b as int) <= a as int) by (nonlinear_arith)
            requires
                b >= 1,
                a >= 0,
                a as int + b as int / 2 <= a as int * b as int + (b as int - 1),
        ;
    }
    wide as u64
}

} // verus!
