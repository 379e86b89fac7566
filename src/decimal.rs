//! Decimal rendering of integers, as used in hints and score ranges.
use vstd::prelude::*;
use crate::string_ops::string_push;

verus! {

/// The ASCII digit for `d`.
pub open spec fn digit_char(d: int) -> char {
    seq!['0', '1', '2', '3', '4', '5', '6', '7', '8', '9'][d]
}

/// The decimal digits of `n`, most significant first, without leading zeros.
pub open spec fn digits_of(n: nat) -> Seq<char>
    decreases n,
{
    if n < 10 {
        seq![digit_char(n as int)]
    } else {
        digits_of(n / 10).push(digit_char((n % 10) as int))
    }
}

/// `n` written in decimal, with a leading `-` when it is negative.
pub open spec fn decimal(n: int) -> Seq<char> {
    if n < 0 {
        seq!['-'] + digits_of((-n) as nat)
    } else {
        digits_of(n as nat)
    }
}

fn digit(d: u64) -> (c: char)
    requires
        d < 10,
    ensures
        c == digit_char(d as int),
{
    match d {
        0 => '0',
        1 => '1',
        2 => '2',
        3 => '3',
        4 => '4',
        5 => '5',
        6 => '6',
        7 => '7',
        8 => '8',
        _ => '9',
    }
}

/// Appends `n`, written in decimal, to `s`.
pub fn push_decimal(s: &mut String, n: i32)
    ensures
        final(s)@ == old(s)@ + decimal(n as int),
{
    let mag: u64 = if n < 0 { (-(n as i64)) as u64 } else { n as u64 };
    let mut m: u64 = mag;
    let mut ds: Vec<char> = Vec::new();
    while m >= 10
        invariant
            digits_of(mag as nat) == digits_of(m as nat) + ds@,
        decreases m,
    {
        let d = digit(m % 10);
        proof {
            assert(digits_of(m as nat) == digits_of((m / 10) as nat).push(d));
            assert(digits_of(m as nat) + ds@ =~= digits_of((m / 10) as nat) + ds@.insert(0, d));
        }
        ds.insert(0, d);
        m = m / 10;
    }
    let d = digit(m);
    assert(digits_of(m as nat) + ds@ =~= ds@.insert(0, d));
    ds.insert(0, d);
    let ghost start = s@;
    if n < 0 {
        string_push(s, '-');
    }
    let ghost signed = s@;
    assert(signed == start + (if n < 0 { seq!['-'] } else { Seq::<char>::empty() }));
    for i in 0..ds.len()
        invariant
            s@ == signed + ds@.take(i as int),
    {
        string_push(s, ds[i]);
        assert(ds@.take(i + 1) =~= ds@.take(i as int).push(ds@[i as int]));
    }
    assert(ds@.take(ds.len() as int) =~= ds@);
    assert(s@ =~= start + decimal(n as int));
}

/// Ten to the power `k`.
pub open spec fn pow10(k: nat) -> nat
    decreases k,
{
    if k == 0 {
        1
    } else {
        10 * pow10((k - 1) as nat)
    }
}

proof fn lemma_digits_len_below(n: nat, k: nat)
    requires
        1 <= k,
        n < pow10(k),
    ensures
        digits_of(n).len() <= k,
    decreases k,
{
    if n >= 10 {
        let p = pow10((k - 1) as nat);
        assert(n / 10 < p) by (nonlinear_arith)
            requires
                n < 10 * p,
        ;
        if k == 1 {
            assert(pow10(0) == 1);
        } else {
            lemma_digits_len_below(n / 10, (k - 1) as nat);
        }
    }
}

/// A 64-bit number has at most twenty decimal digits.
proof fn lemma_u64_digits(n: u64)
    ensures
        1 <= digits_of(n as nat).len() <= 20,
{
    reveal_with_fuel(pow10, 21);
    assert(pow10(20) == 100000000000000000000nat);
    lemma_digits_len_below(n as nat, 20);
}

/// The number of decimal digits of `n`.
pub fn digit_count(n: u64) -> (w: usize)
    ensures
        w == digits_of(n as nat).len(),
{
    proof {
        lemma_u64_digits(n);
    }
    let mut m: u64 = n;
    let mut w: usize = 1;
    while m >= 10
        invariant
            w + digits_of(m as nat).len() == digits_of(n as nat).len() + 1,
            1 <= digits_of(m as nat).len(),
            digits_of(n as nat).len() <= 20,
        decreases m,
    {
        m = m / 10;
        w = w + 1;
    }
    w
}

/// The number of characters of `n` written in decimal.
pub fn decimal_width(n: i64) -> (w: usize)
    ensures
        w == decimal(n as int).len(),
{
    if n < 0 {
        let mag = (-(n as i128)) as u64;
        proof {
            lemma_u64_digits(mag);
        }
        digit_count(mag) + 1
    } else {
        digit_count(n as u64)
    }
}

} // verus!
