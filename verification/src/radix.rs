//! Positional rendering of semantic values.
//!
//! The wrappers in this crate render as their semantic value, never as the
//! shifted raw encoding. The functions here do the digit work once, for every
//! width: a value is widened to sixty-four bits and rendered most significant
//! digit first, in any base from two to sixteen.

use vstd::prelude::*;

verus! {

/// The digit character for a value below sixteen.
pub open spec fn spec_digit(d: int, upper: bool) -> char {
    if d == 0 {
        '0'
    } else if d == 1 {
        '1'
    } else if d == 2 {
        '2'
    } else if d == 3 {
        '3'
    } else if d == 4 {
        '4'
    } else if d == 5 {
        '5'
    } else if d == 6 {
        '6'
    } else if d == 7 {
        '7'
    } else if d == 8 {
        '8'
    } else if d == 9 {
        '9'
    } else if d == 10 {
        if upper { 'A' } else { 'a' }
    } else if d == 11 {
        if upper { 'B' } else { 'b' }
    } else if d == 12 {
        if upper { 'C' } else { 'c' }
    } else if d == 13 {
        if upper { 'D' } else { 'd' }
    } else if d == 14 {
        if upper { 'E' } else { 'e' }
    } else {
        if upper { 'F' } else { 'f' }
    }
}

/// The positional representation of a value in a base: most significant digit
/// first, no leading zeros, a single zero digit for zero.
pub open spec fn spec_radix(n: nat, base: nat, upper: bool) -> Seq<char>
    recommends
        2 <= base <= 16,
    decreases n,
    via spec_radix_decreases
{
    if n < base || base < 2 {
        seq![spec_digit(n as int, upper)]
    } else {
        spec_radix(n / base, base, upper).push(spec_digit((n % base) as int, upper))
    }
}

#[via_fn]
proof fn spec_radix_decreases(n: nat, base: nat, upper: bool) {
    if !(n < base || base < 2) {
        vstd::arithmetic::div_mod::lemma_div_decreases(n as int, base as int);
    }
}

/// Returns the one-character text of a digit below sixteen.
fn digit_str(d: u64, upper: bool) -> (r: &'static str)
    requires
        d < 16,
    ensures
        r@ == seq![spec_digit(d as int, upper)],
{
    proof {
        reveal_strlit("0");
        reveal_strlit("1");
        reveal_strlit("2");
        reveal_strlit("3");
        reveal_strlit("4");
        reveal_strlit("5");
        reveal_strlit("6");
        reveal_strlit("7");
        reveal_strlit("8");
        reveal_strlit("9");
        reveal_strlit("A");
        reveal_strlit("a");
        reveal_strlit("B");
        reveal_strlit("b");
        reveal_strlit("C");
        reveal_strlit("c");
        reveal_strlit("D");
        reveal_strlit("d");
        reveal_strlit("E");
        reveal_strlit("e");
        reveal_strlit("F");
        reveal_strlit("f");
    }
    let r: &'static str = if d == 0 {
        "0"
    } else if d == 1 {
        "1"
    } else if d == 2 {
        "2"
    } else if d == 3 {
        "3"
    } else if d == 4 {
        "4"
    } else if d == 5 {
        "5"
    } else if d == 6 {
        "6"
    } else if d == 7 {
        "7"
    } else if d == 8 {
        "8"
    } else if d == 9 {
        "9"
    } else if d == 10 {
        if upper { "A" } else { "a" }
    } else if d == 11 {
        if upper { "B" } else { "b" }
    } else if d == 12 {
        if upper { "C" } else { "c" }
    } else if d == 13 {
        if upper { "D" } else { "d" }
    } else if d == 14 {
        if upper { "E" } else { "e" }
    } else {
        if upper { "F" } else { "f" }
    };
    proof {
        assert(r@ =~= seq![spec_digit(d as int, upper)]);
    }
    r
}

/// Renders a value in a base between two and sixteen, most significant digit
/// first.
pub fn format_radix(n: u64, base: u64, upper: bool) -> (r: String)
    requires
        2 <= base <= 16,
    ensures
        r@ == spec_radix(n as nat, base as nat, upper),
    decreases n,
{
    let d = n % base;
    let ds = digit_str(d, upper);
    if n < base {
        proof {
            assert(n % base == n) by (nonlinear_arith)
                requires 0 <= n < base;
        }
        let r = ds.to_owned();
        proof {
            assert(r@ =~= spec_radix(n as nat, base as nat, upper));
        }
        r
    } else {
        proof {
            vstd::arithmetic::div_mod::lemma_div_decreases(n as int, base as int);
        }
        let mut r = format_radix(n / base, base, upper);
        r.append(ds);
        proof {
            assert(r@ =~= spec_radix(n as nat, base as nat, upper));
        }
        r
    }
}

} // verus!
