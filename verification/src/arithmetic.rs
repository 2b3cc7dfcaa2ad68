//! Checked arithmetic on sizes.

use vstd::prelude::*;

verus! {

/// The greatest common divisor.
pub open spec fn gcd(a: nat, b: nat) -> nat
    decreases b,
{
    if b == 0 {
        a
    } else {
        gcd(b, a % b)
    }
}

/// A power of two.
pub open spec fn power_of_two(n: nat) -> bool
    decreases n,
{
    n == 1 || (n > 1 && n % 2 == 0 && power_of_two(n / 2))
}

/// `init` times the factors of `s`, as long as every partial product fits.
pub open spec fn checked_product(init: nat, s: Seq<usize>) -> Option<nat>
    decreases s.len(),
{
    if s.len() == 0 {
        Some(init)
    } else {
        match checked_product(init, s.drop_last()) {
            Some(p) => if p * s.last() <= usize::MAX {
                Some((p * s.last()) as nat)
            } else {
                None
            },
            None => None,
        }
    }
}

/// Whether `d` divides `n`.
pub open spec fn divides(d: nat, n: nat) -> bool {
    exists|k: nat| n == #[trigger] (d * k)
}

/// The greatest common divisor divides both numbers.
pub proof fn lemma_gcd_divides(a: nat, b: nat)
    ensures
        divides(gcd(a, b), a),
        divides(gcd(a, b), b),
        (a > 0 || b > 0) ==> gcd(a, b) > 0,
    decreases b,
{
    if b == 0 {
        assert(a == a * 1) by (nonlinear_arith);
        assert(divides(a, a));
        assert(0 == a * 0) by (nonlinear_arith);
        assert(divides(a, 0));
    } else {
        lemma_gcd_divides(b, a % b);
        let g = gcd(b, a % b);
        let x = choose|k: nat| b == #[trigger] (g * k);
        let y = choose|k: nat| a % b == #[trigger] (g * k);
        let q = a / b;
        assert(a == g * (x * q + y)) by {
            vstd::arithmetic::div_mod::lemma_fundamental_div_mod(a as int, b as int);
            assert(a == b * q + a % b);
            assert((g * x) * q + g * y == g * (x * q + y)) by (nonlinear_arith);
        }
        assert(divides(g, a)) by {
            assert(a == g * ((x * q + y) as nat));
        }
    }
}

/// Every common divisor divides the greatest one.
pub proof fn lemma_gcd_greatest(a: nat, b: nat, d: nat)
    requires
        divides(d, a),
        divides(d, b),
    ensures
        divides(d, gcd(a, b)),
    decreases b,
{
    if b > 0 {
        let x = choose|k: nat| a == #[trigger] (d * k);
        let y = choose|k: nat| b == #[trigger] (d * k);
        let q = a / b;
        assert(d > 0) by {
            if d == 0 {
                assert(d * y == 0) by (nonlinear_arith)
                    requires
                        d == 0,
                ;
            }
        }
        vstd::arithmetic::div_mod::lemma_fundamental_div_mod(a as int, b as int);
        assert(a == b * q + a % b);
        let m = a % b;
        assert(m == d * (x - y * q)) by {
            assert((d * y) * q == d * (y * q)) by (nonlinear_arith);
            assert(d * x - d * (y * q) == d * (x - y * q)) by (nonlinear_arith);
        }
        assert(x - y * q >= 0) by (nonlinear_arith)
            requires
                m == d * (x - y * q),
                m >= 0,
                d > 0,
        ;
        assert(divides(d, a % b)) by {
            assert(a % b == d * ((x - y * q) as nat));
        }
        lemma_gcd_greatest(b, a % b, d);
    }
}

/// Euclid's algorithm.
pub fn greatest_common_divisor(left: usize, right: usize) -> (r: usize)
    ensures
        r == gcd(left as nat, right as nat),
        (left > 0 || right > 0) ==> r > 0,
{
    let mut a: usize = left;
    let mut b: usize = right;
    while b != 0
        invariant
            gcd(a as nat, b as nat) == gcd(left as nat, right as nat),
        decreases b,
    {
        let rest: usize = a % b;
        a = b;
        b = rest;
    }
    proof {
        lemma_gcd_divides(left as nat, right as nat);
    }
    a
}

/// The least common multiple, where it fits.
pub open spec fn lcm(left: nat, right: nat) -> Option<nat> {
    let multiple = left * (right / gcd(left, right));
    if multiple <= usize::MAX {
        Some(multiple)
    } else {
        None
    }
}

/// The least common multiple, or `None` where it does not fit.
pub fn least_common_multiple(left: usize, right: usize) -> (r: Option<usize>)
    requires
        left > 0 || right > 0,
    ensures
        r is Some == lcm(left as nat, right as nat) is Some,
        r is Some ==> r->0 == lcm(left as nat, right as nat)->0,
{
    left.checked_mul(right / greatest_common_divisor(left, right))
}

/// The least common multiple is a multiple of both numbers.
pub proof fn common_multiples_are_multiples(left: nat, right: nat)
    requires
        left > 0 || right > 0,
        lcm(left, right) is Some,
    ensures
        divides(left, lcm(left, right)->0),
        divides(right, lcm(left, right)->0),
{
    let g = gcd(left, right);
    lemma_gcd_divides(left, right);
    let x = choose|k: nat| left == #[trigger] (g * k);
    let y = choose|k: nat| right == #[trigger] (g * k);
    assert(right / g == y) by {
        vstd::arithmetic::div_mod::lemma_div_multiples_vanish(y as int, g as int);
    }
    assert(lcm(left, right)->0 == left * y);
    assert(left * y == right * x) by (nonlinear_arith)
        requires
            left == g * x,
            right == g * y,
    ;
    assert(divides(left, (left * y) as nat));
    assert(divides(right, (right * x) as nat));
}

/// Whether `n` is a power of two.
pub fn is_power_of_two(n: usize) -> (r: bool)
    ensures
        r == power_of_two(n as nat),
{
    if n == 0 {
        return false;
    }
    let mut rest: usize = n;
    while rest % 2 == 0
        invariant
            rest > 0,
            power_of_two(rest as nat) == power_of_two(n as nat),
        decreases rest,
    {
        rest = rest / 2;
    }
    rest == 1
}

/// The product of `init` and the factors, or `None` where a partial product does not fit.
pub fn product_from(init: usize, factors: &Vec<usize>) -> (r: Option<usize>)
    ensures
        r is Some == checked_product(init as nat, factors@) is Some,
        r is Some ==> r->0 == checked_product(init as nat, factors@)->0,
{
    let mut p: usize = init;
    let mut i: usize = 0;
    assert(factors@.take(0) =~= Seq::empty());
    while i < factors.len()
        invariant
            i <= factors.len(),
            checked_product(init as nat, factors@.take(i as int)) == Some(p as nat),
        decreases factors.len() - i,
    {
        assert(factors@.take(i + 1).drop_last() =~= factors@.take(i as int));
        match p.checked_mul(factors[i]) {
            Some(next) => {
                p = next;
            },
            None => {
                proof {
                    lemma_checked_product_none(init as nat, factors@, i + 1);
                }
                return None;
            },
        }
        i += 1;
    }
    assert(factors@.take(factors@.len() as int) =~= factors@);
    Some(p)
}

proof fn lemma_checked_product_none(init: nat, s: Seq<usize>, i: int)
    requires
        0 <= i <= s.len(),
        checked_product(init, s.take(i)) is None,
    ensures
        checked_product(init, s) is None,
    decreases s.len() - i,
{
    if i < s.len() {
        assert(s.take(i + 1).drop_last() =~= s.take(i));
        lemma_checked_product_none(init, s, i + 1);
    } else {
        assert(s.take(i) =~= s);
    }
}

/// The number of elements of a shape.
pub fn product(shape: &Vec<usize>) -> (r: Option<usize>)
    ensures
        r is Some == checked_product(1, shape@) is Some,
        r is Some ==> r->0 == checked_product(1, shape@)->0,
{
    product_from(1, shape)
}

/// `a / b`, rounded up.
pub open spec fn ceiling(a: nat, b: nat) -> nat {
    if a % b == 0 {
        a / b
    } else {
        a / b + 1
    }
}

/// `a / b`, rounded up.
pub fn ceiling_division(a: usize, b: usize) -> (r: usize)
    requires
        b > 0,
    ensures
        r == ceiling(a as nat, b as nat),
{
    let q: usize = a / b;
    if a % b == 0 {
        q
    } else {
        proof {
            if b == 1 {
                assert(a % 1 == 0);
            }
            assert(a / b < usize::MAX) by (nonlinear_arith)
                requires
                    b >= 2,
                    a <= usize::MAX,
            ;
        }
        q + 1
    }
}

/// The bytes of a word, the lowest first.
pub open spec fn low_first(x: u32) -> Seq<u8> {
    seq![
        (x % 256) as u8,
        (x / 256 % 256) as u8,
        (x / 65536 % 256) as u8,
        (x / 16777216) as u8,
    ]
}

/// The bytes of a word, the lowest first.
pub fn little_endian(x: u32) -> (r: Vec<u8>)
    ensures
        r@ == low_first(x),
{
    let r: Vec<u8> = vec![
        (x % 256) as u8,
        (x / 256 % 256) as u8,
        (x / 65536 % 256) as u8,
        (x / 16777216) as u8,
    ];
    assert(r@ =~= low_first(x));
    r
}

/// The bytes of a number, the highest first.
pub open spec fn high_first(x: u64) -> Seq<u8> {
    seq![
        ((x / 0x100000000000000) % 256) as u8,
        ((x / 0x1000000000000) % 256) as u8,
        ((x / 0x10000000000) % 256) as u8,
        ((x / 0x100000000) % 256) as u8,
        ((x / 0x1000000) % 256) as u8,
        ((x / 0x10000) % 256) as u8,
        ((x / 0x100) % 256) as u8,
        (x % 256) as u8,
    ]
}

/// The bytes of a number, the highest first.
pub fn big_endian(x: u64) -> (r: Vec<u8>)
    ensures
        r@ == high_first(x),
{
    let r: Vec<u8> = vec![
        ((x / 0x100000000000000) % 256) as u8,
        ((x / 0x1000000000000) % 256) as u8,
        ((x / 0x10000000000) % 256) as u8,
        ((x / 0x100000000) % 256) as u8,
        ((x / 0x1000000) % 256) as u8,
        ((x / 0x10000) % 256) as u8,
        ((x / 0x100) % 256) as u8,
        (x % 256) as u8,
    ];
    assert(r@ =~= high_first(x));
    r
}

/// Rounding up covers the whole, and no smaller number of parts does.
pub proof fn rounding_up_is_tight(a: nat, b: nat)
    requires
        b > 0,
    ensures
        ceiling(a, b) * b >= a,
        a > 0 ==> ceiling(a, b) > 0 && (ceiling(a, b) - 1) * b < a,
        a == 0 ==> ceiling(a, b) == 0,
{
    assert(a == (a / b) * b + a % b && 0 <= a % b < b) by (nonlinear_arith)
        requires
            b > 0,
    ;
    if a % b == 0 {
        assert((a / b - 1) * b == (a / b) * b - b) by (nonlinear_arith);
        if a > 0 {
            assert(a / b > 0) by (nonlinear_arith)
                requires
                    a == (a / b) * b,
                    a > 0,
            ;
        } else {
            assert(0nat / b == 0) by (nonlinear_arith)
                requires
                    b > 0,
            ;
        }
    } else {
        assert((a / b + 1) * b == (a / b) * b + b) by (nonlinear_arith);
    }
}

/// The bytes of a word give the word back: the first is the lowest.
pub proof fn low_bytes_come_first(x: u32)
    ensures
        low_first(x).len() == 4,
        low_first(x)[0] + 256 * low_first(x)[1] + 65536 * low_first(x)[2] + 16777216 * low_first(
            x,
        )[3] == x,
{
}

/// The bytes of a number give the number back: the first is the highest.
pub proof fn high_bytes_come_first(x: u64)
    ensures
        high_first(x).len() == 8,
        0x100000000000000 * high_first(x)[0] + 0x1000000000000 * high_first(x)[1] + 0x10000000000
            * high_first(x)[2] + 0x100000000 * high_first(x)[3] + 0x1000000 * high_first(x)[4]
            + 0x10000 * high_first(x)[5] + 0x100 * high_first(x)[6] + high_first(x)[7] == x,
{
    assert(x == 0x100 * (x / 0x100) + x % 256);
    assert(x / 0x100 == 0x100 * (x / 0x10000) + (x / 0x100) % 256);
    assert(x / 0x10000 == 0x100 * (x / 0x1000000) + (x / 0x10000) % 256);
    assert(x / 0x1000000 == 0x100 * (x / 0x100000000) + (x / 0x1000000) % 256);
    assert(x / 0x100000000 == 0x100 * (x / 0x10000000000) + (x / 0x100000000) % 256);
    assert(x / 0x10000000000 == 0x100 * (x / 0x1000000000000) + (x / 0x10000000000) % 256);
    assert(x / 0x1000000000000 == 0x100 * (x / 0x100000000000000) + (x / 0x1000000000000) % 256);
    assert((x / 0x100000000000000) % 256 == x / 0x100000000000000);
}

} // verus!
