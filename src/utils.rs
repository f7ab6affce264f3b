//! Human-readable sizes and transfer rates in base-1024 units.

use vstd::prelude::*;
use vstd::string::*;
use vstd::arithmetic::div_mod::{
    lemma_fundamental_div_mod, lemma_mod_pos_bound, lemma_div_is_ordered_by_denominator,
};
use crate::text::{
    decimal, digit_char, digit_value, all_digits, read_decimal, parsed_unsigned,
    lemma_read_decimal, lemma_decimal_digits, push_decimal, decimal_string, parse_unsigned,
};

verus! {

/// `1024` to the power `k`.
pub open spec fn pow1024(k: nat) -> nat
    decreases k,
{
    if k == 0 {
        1
    } else {
        1024 * pow1024((k - 1) as nat)
    }
}

/// The unit a size of `b` bytes is shown in: the largest `k <= top` with
/// `1024^k <= b`, and `0` (plain bytes) below 1024.
pub open spec fn unit_exp(b: nat, top: nat) -> nat
    decreases top,
{
    if top == 0 {
        0
    } else if pow1024(top) <= b {
        top
    } else {
        unit_exp(b, (top - 1) as nat)
    }
}

/// `n / d` rounded to the nearest natural, halves to the even neighbour.
pub open spec fn rounded_div(n: nat, d: nat) -> nat {
    let q = n / d;
    let r = n % d;
    if 2 * r > d || (2 * r == d && q % 2 == 1) {
        q + 1
    } else {
        q
    }
}

/// A count of tenths written with one decimal place, as `12.3`.
pub open spec fn tenths_text(t: nat) -> Seq<char> {
    decimal(t / 10).push('.').push(digit_char(t % 10))
}

/// The name of unit `k`: `KB`, `MB`, `GB`, `TB`.
pub open spec fn unit_name(k: nat) -> Seq<char> {
    if k == 1 {
        seq!['K', 'B']
    } else if k == 2 {
        seq!['M', 'B']
    } else if k == 3 {
        seq!['G', 'B']
    } else {
        seq!['T', 'B']
    }
}

/// `b` bytes in unit `k`, with one decimal place and the unit's name.
pub open spec fn scaled_text(b: nat, k: nat) -> Seq<char> {
    tenths_text(rounded_div(10 * b, pow1024(k))) + seq![' '] + unit_name(k)
}

/// What `format_bytes` renders: the bare number below 1024, else one decimal
/// place in the largest unit up to `TB` that the size reaches.
pub open spec fn bytes_text(b: nat) -> Seq<char> {
    let k = unit_exp(b, 4);
    if k == 0 {
        decimal(b)
    } else {
        scaled_text(b, k)
    }
}

/// What `format_speed` renders for the rate text `s`.
pub open spec fn speed_text(s: Seq<char>) -> Seq<char> {
    match parsed_unsigned(s, u64::MAX as nat) {
        Some(b) => if b == 0 {
            seq!['0', 'B', '/', 's']
        } else if unit_exp(b, 4) == 0 {
            bytes_text(b) + seq!['B', '/', 's']
        } else {
            bytes_text(b) + seq!['/', 's']
        },
        None => s + seq!['B', '/', 's'],
    }
}

/// The unit that a two-letter suffix names, `0` for none.
pub open spec fn unit_of(u: Seq<char>) -> nat {
    if u.len() == 2 && u[1] == 'B' {
        if u[0] == 'K' {
            1
        } else if u[0] == 'M' {
            2
        } else if u[0] == 'G' {
            3
        } else if u[0] == 'T' {
            4
        } else {
            0
        }
    } else {
        0
    }
}

/// The count of tenths that a number written as `12.3` denotes.
pub open spec fn read_tenths(x: Seq<char>) -> nat {
    read_decimal(x.drop_last().drop_last()) * 10 + digit_value(x.last())
}

/// The distance between two integers.
pub open spec fn dist(a: int, b: int) -> int {
    if a >= b {
        a - b
    } else {
        b - a
    }
}

proof fn lemma_pow1024_values()
    ensures
        pow1024(1) == 1024,
        pow1024(2) == 1048576,
        pow1024(3) == 1073741824,
        pow1024(4) == 1099511627776,
        pow1024(5) == 1125899906842624,
{
    reveal_with_fuel(pow1024, 6);
}

/// The chosen unit is reached by `b`, and the next one up is not.
pub proof fn lemma_unit_exp_bounds(b: nat, top: nat)
    requires
        1 <= top <= 4,
    ensures
        unit_exp(b, top) <= top,
        pow1024(unit_exp(b, top)) <= b || unit_exp(b, top) == 0,
        unit_exp(b, top) < top ==> b < pow1024(unit_exp(b, top) + 1),
{
    lemma_pow1024_values();
    reveal_with_fuel(unit_exp, 5);
}

/// The rounded quotient lies within half a step of the exact one.
pub proof fn lemma_rounded_div_bound(n: nat, d: nat)
    requires
        d > 0,
    ensures
        2 * dist(n as int, (rounded_div(n, d) * d) as int) <= d,
        rounded_div(n, d) <= n / d + 1,
{
    lemma_fundamental_div_mod(n as int, d as int);
    lemma_mod_pos_bound(n as int, d as int);
    let q = n / d;
    let r = n % d;
    assert(n == d * q + r);
    if 2 * r > d || (2 * r == d && q % 2 == 1) {
        assert((q + 1) * d == d * q + d) by (nonlinear_arith);
    } else {
        assert(q * d == d * q) by (nonlinear_arith);
    }
}

/// Reading a one-decimal number back gives its count of tenths.
pub proof fn lemma_read_tenths(t: nat)
    ensures
        read_tenths(tenths_text(t)) == t,
{
    let x = tenths_text(t);
    assert(x.drop_last().drop_last() =~= decimal(t / 10));
    lemma_read_decimal(t / 10);
    assert(digit_value(digit_char(t % 10)) == t % 10);
}

/// Formatting `b` bytes and reading the result back: below 1024 the digits
/// give `b` exactly; otherwise the two-letter suffix names the unit `k` with
/// `1024^k <= b < 1024^(k+1)` (or `k` is the top unit), and the number before
/// it, read with its one decimal place, lies within half a tenth of
/// `b / 1024^k`.
pub proof fn lemma_format_bytes_reads_back(b: u64)
    ensures
        ({
            let s = bytes_text(b as nat);
            let k = unit_exp(b as nat, 4);
            &&& k == 0 ==> b < 1024 && all_digits(s) && read_decimal(s) == b
            &&& k > 0 ==> {
                let u = unit_of(s.subrange(s.len() - 2, s.len() as int));
                let t = read_tenths(s.subrange(0, s.len() - 3));
                &&& u == k
                &&& pow1024(u) <= b
                &&& (u < 4 ==> b < pow1024(u + 1))
                &&& 2 * dist(10 * b, (t * pow1024(u)) as int) <= pow1024(u)
            }
        }),
{
    let s = bytes_text(b as nat);
    let k = unit_exp(b as nat, 4);
    lemma_unit_exp_bounds(b as nat, 4);
    lemma_pow1024_values();
    if k == 0 {
        reveal_with_fuel(unit_exp, 5);
        lemma_decimal_digits(b as nat);
        lemma_read_decimal(b as nat);
    } else {
        let t = rounded_div(10 * b as nat, pow1024(k));
        let num = tenths_text(t);
        assert(s == num + seq![' '] + unit_name(k));
        assert(s.subrange(s.len() - 2, s.len() as int) =~= unit_name(k));
        assert(s.subrange(0, s.len() - 3) =~= num);
        lemma_read_tenths(t);
        lemma_rounded_div_bound(10 * b as nat, pow1024(k));
    }
}

/// `n / d` rounded to the nearest natural, halves to even.
pub(crate) fn rounded_quotient(n: u128, d: u128) -> (t: u128)
    requires
        d > 0,
        n / d < u128::MAX,
    ensures
        t == rounded_div(n as nat, d as nat),
{
    let q: u128 = n / d;
    let rem: u128 = n % d;
    if rem > d - rem || (rem == d - rem && q % 2 == 1) {
        q + 1
    } else {
        q
    }
}

/// `10 * b / d` rounded to the nearest natural, halves to even.
fn rounded_tenths(b: u64, d: u128) -> (t: u128)
    requires
        1024 <= d <= 1099511627776,
    ensures
        t == rounded_div(10 * b as nat, d as nat),
{
    let n: u128 = 10 * (b as u128);
    proof {
        lemma_div_is_ordered_by_denominator(n as int, 1024, d as int);
    }
    rounded_quotient(n, d)
}

/// The text of a count of tenths, as `12.3`.
pub(crate) fn tenths_string(t: u128) -> (r: String)
    ensures
        r@ == tenths_text(t as nat),
{
    let mut out = String::new();
    push_decimal(&mut out, t / 10);
    let digits = "0123456789";
    proof {
        reveal_strlit("0123456789");
        reveal_strlit(".");
    }
    out.append(".");
    let last: usize = (t % 10) as usize;
    out.append(digits.substring_char(last, last + 1));
    assert(out@ =~= tenths_text(t as nat));
    out
}

/// `b` bytes in unit `k`, with one decimal place and the unit's name.
pub(crate) fn scaled_string(b: u64, k: u64) -> (r: String)
    requires
        1 <= k <= 4,
    ensures
        r@ == scaled_text(b as nat, k as nat),
{
    proof {
        lemma_pow1024_values();
        reveal_strlit(" ");
        reveal_strlit("KB");
        reveal_strlit("MB");
        reveal_strlit("GB");
        reveal_strlit("TB");
    }
    let d: u128 = if k == 1 {
        1024
    } else if k == 2 {
        1048576
    } else if k == 3 {
        1073741824
    } else {
        1099511627776
    };
    let mut out = tenths_string(rounded_tenths(b, d));
    out.append(" ");
    let unit = if k == 1 {
        "KB"
    } else if k == 2 {
        "MB"
    } else if k == 3 {
        "GB"
    } else {
        "TB"
    };
    out.append(unit);
    assert(out@ =~= scaled_text(b as nat, k as nat));
    out
}

/// The unit that `b` bytes are shown in, with units up to `top`.
pub(crate) fn unit_exponent(b: u64, top: u64) -> (k: u64)
    requires
        top == 3 || top == 4,
    ensures
        k == unit_exp(b as nat, top as nat),
        k <= top,
{
    proof {
        lemma_pow1024_values();
        reveal_with_fuel(unit_exp, 5);
    }
    if top >= 4 && b >= 1099511627776 {
        4
    } else if b >= 1073741824 {
        3
    } else if b >= 1048576 {
        2
    } else if b >= 1024 {
        1
    } else {
        0
    }
}

/// Formats a byte count: the bare number below 1024, else one decimal place
/// in `KB`, `MB`, `GB` or `TB`.
pub fn format_bytes(bytes: u64) -> (r: String)
    ensures
        r@ == bytes_text(bytes as nat),
{
    let k = unit_exponent(bytes, 4);
    if k == 0 {
        decimal_string(bytes)
    } else {
        scaled_string(bytes, k)
    }
}

/// Formats a transfer rate given as decimal text of bytes per second; text
/// that is no such number is shown as it stands.
pub fn format_speed(speed: &str) -> (r: String)
    ensures
        r@ == speed_text(speed@),
{
    proof {
        reveal_strlit("0B/s");
        reveal_strlit("B/s");
        reveal_strlit("/s");
    }
    match parse_unsigned(speed, u64::MAX) {
        Some(b) => {
            if b == 0 {
                String::from_str("0B/s")
            } else {
                let formatted = format_bytes(b);
                if unit_exponent(b, 4) == 0 {
                    formatted.concat("B/s")
                } else {
                    formatted.concat("/s")
                }
            }
        },
        None => String::from_str(speed).concat("B/s"),
    }
}

} // verus!
