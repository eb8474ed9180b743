//! Exact fixed-point fractions and decimal formatting of integers.
use vstd::prelude::*;

use crate::text::string_push;

verus! {

/// The decimal digit character for `d < 10`.
pub open spec fn digit_char(d: nat) -> char {
    if d == 0 {
        '0'
    } else if d == 1 {
        '1'
    } else if d == 2 {
        '2'
    } else if d == 3 {
        '3'
    } else if d == 4 {
        '4'
    } else if d == 5 {
        '5'
    } else if d == 6 {
        '6'
    } else if d == 7 {
        '7'
    } else if d == 8 {
        '8'
    } else {
        '9'
    }
}

/// The decimal notation of `n` (as `{}` formats an unsigned integer).
pub open spec fn decimal_text(n: nat) -> Seq<char>
    decreases n,
{
    if n < 10 {
        seq![digit_char(n)]
    } else {
        decimal_text(n / 10).push(digit_char(n % 10))
    }
}

fn digit(d: u64) -> (c: char)
    requires
        d < 10,
    ensures
        c == digit_char(d as nat),
{
    if d == 0 {
        '0'
    } else if d == 1 {
        '1'
    } else if d == 2 {
        '2'
    } else if d == 3 {
        '3'
    } else if d == 4 {
        '4'
    } else if d == 5 {
        '5'
    } else if d == 6 {
        '6'
    } else if d == 7 {
        '7'
    } else if d == 8 {
        '8'
    } else {
        '9'
    }
}

/// Appends the decimal notation of `n` to `s`.
pub fn push_decimal(s: &mut String, n: u64)
    ensures
        final(s)@ == old(s)@ + decimal_text(n as nat),
    decreases n,
{
    if n < 10 {
        string_push(s, digit(n));
        assert(decimal_text(n as nat) == seq![digit_char(n as nat)]);
    } else {
        push_decimal(s, n / 10);
        string_push(s, digit(n % 10));
        assert(old(s)@ + decimal_text((n / 10) as nat) + seq![digit_char((n % 10) as nat)] =~= old(
            s,
        )@ + decimal_text(n as nat));
    }
}

/// A value in thousandths rounded to hundredths (the same as to whole percent), as
/// float formatting with two decimals, or a percentage with none, shows it. The
/// nearest hundredth is taken. A value exactly halfway that a binary float holds
/// exactly (`pm` ≡ 125 modulo 250, such as 0.125) goes to the even hundredth; any
/// other half goes up, since a value in thousandths stands for a float rounded down
/// to the thousandth, which lies above such a half.
pub open spec fn hundredths(pm: nat) -> nat {
    let q = pm / 10;
    if pm % 10 < 5 {
        q
    } else if pm % 10 > 5 {
        q + 1
    } else if pm % 250 == 125 {
        q + q % 2
    } else {
        q + 1
    }
}

/// Rounds a value in thousandths to hundredths (see `hundredths`).
pub fn to_hundredths(pm: u64) -> (r: u64)
    ensures
        r == hundredths(pm as nat),
{
    let q = pm / 10;
    let d = pm % 10;
    if d < 5 {
        q
    } else if d > 5 {
        q + 1
    } else if pm % 250 == 125 {
        q + q % 2
    } else {
        q + 1
    }
}

/// One binary step of the long division of `k·a` by `b`.
proof fn lemma_div_step(a: int, b: int, kp: int, q: int, r: int, bit: int)
    requires
        0 <= a <= b,
        b > 0,
        0 <= r < b,
        kp * a == q * b + r,
        bit == 0 || bit == 1,
    ensures
        (2 * kp + bit) * a == (2 * q) * b + (2 * r + bit * a),
        0 <= 2 * r + bit * a < 3 * b,
{
    assert((2 * kp + bit) * a == 2 * (kp * a) + bit * a) by (nonlinear_arith);
    assert((2 * q) * b == 2 * (q * b)) by (nonlinear_arith);
    assert(bit * a <= b) by (nonlinear_arith)
        requires
            bit == 0 || bit == 1,
            0 <= a <= b,
    ;
    assert(bit * a >= 0) by (nonlinear_arith)
        requires
            bit == 0 || bit == 1,
            0 <= a,
    ;
}

fn div_step(a: u128, b: u128, q: u32, r: u128, bit: bool, Ghost(kp): Ghost<int>) -> (res: (u32, u128))
    requires
        a <= b,
        0 < b < 0x8000_0000_0000_0000_0000_0000_0000_0000,
        r < b,
        q < 1024,
        kp * a == q * b + r,
    ensures
        res.1 < b,
        res.0 <= 2 * q + 2,
        (2 * kp + (if bit {
            1int
        } else {
            0int
        })) * a == res.0 * b + res.1,
{
    let ghost bi: int = if bit {
        1
    } else {
        0
    };
    proof {
        lemma_div_step(a as int, b as int, kp, q as int, r as int, bi);
    }
    let mut q2: u32 = 2 * q;
    let mut r2: u128 = 2 * r;
    if r2 >= b {
        r2 = r2 - b;
        q2 = q2 + 1;
        assert((q2 - 1) * b + b == q2 * b) by (nonlinear_arith);
    }
    assert(q2 * b + r2 + bi * a == (2 * q) * b + (2 * r + bi * a));
    if bit {
        r2 = r2 + a;
        if r2 >= b {
            r2 = r2 - b;
            q2 = q2 + 1;
            assert((q2 - 1) * b + b == q2 * b) by (nonlinear_arith);
        }
    }
    (q2, r2)
}

/// `⌊1000·a / b⌋` for `a ≤ b`: the fraction `a / b` in thousandths, rounded down.
/// Exact for every `b` below `2^127`.
pub fn permille(a: u128, b: u128) -> (r: u32)
    requires
        a <= b,
        0 < b < 0x8000_0000_0000_0000_0000_0000_0000_0000,
    ensures
        r as int == (1000 * (a as int)) / (b as int),
        r <= 1000,
{
    // 1000 = 0b11_1110_1000, processed from the highest bit.
    let ghost mut kp: int = 0;
    let mut q: u32 = 0;
    let mut r: u128 = 0;
    assert(kp * a == q * b + r);
    let (q1, r1) = div_step(a, b, q, r, true, Ghost(kp));
    proof { kp = 1; }
    let (q2, r2) = div_step(a, b, q1, r1, true, Ghost(kp));
    proof { kp = 3; }
    let (q3, r3) = div_step(a, b, q2, r2, true, Ghost(kp));
    proof { kp = 7; }
    let (q4, r4) = div_step(a, b, q3, r3, true, Ghost(kp));
    proof { kp = 15; }
    let (q5, r5) = div_step(a, b, q4, r4, true, Ghost(kp));
    proof { kp = 31; }
    let (q6, r6) = div_step(a, b, q5, r5, false, Ghost(kp));
    proof { kp = 62; }
    let (q7, r7) = div_step(a, b, q6, r6, true, Ghost(kp));
    proof { kp = 125; }
    let (q8, r8) = div_step(a, b, q7, r7, false, Ghost(kp));
    proof { kp = 250; }
    let (q9, r9) = div_step(a, b, q8, r8, false, Ghost(kp));
    proof { kp = 500; }
    let (q10, r10) = div_step(a, b, q9, r9, false, Ghost(kp));
    proof {
        kp = 1000;
        assert(1000 * a == q10 * b + r10);
        vstd::arithmetic::div_mod::lemma_fundamental_div_mod_converse(
            (1000 * a) as int,
            b as int,
            q10 as int,
            r10 as int,
        );
        assert(q10 * b <= 1000 * b) by (nonlinear_arith)
            requires
                q10 * b <= 1000 * a,
                a <= b,
        ;
        assert(q10 <= 1000) by (nonlinear_arith)
            requires
                q10 * b <= 1000 * b,
                b > 0,
        ;
    }
    q10
}

} // verus!
