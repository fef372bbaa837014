//! Field-element values as they appear to the bridge.
//!
//! The bridge never computes with field elements: it receives the canonical
//! non-negative integer representative of each element from the front-end
//! compiler, hands it through to the proving backend, and renders it as
//! decimal text.  The representation therefore carries that integer alone,
//! as four 64-bit little-endian limbs, wide enough for any element of the
//! backend's 254-bit fields.

use vstd::prelude::*;

verus! {

/// A 256-bit unsigned integer in four 64-bit little-endian limbs: the
/// canonical representative of a prime-field element.
#[derive(Clone, Copy, PartialEq, Eq, Structural, Debug)]
pub struct FieldElement {
    pub d0: u64,
    pub d1: u64,
    pub d2: u64,
    pub d3: u64,
}

impl FieldElement {
    /// The integer this element stands for.
    pub open spec fn value(self) -> nat {
        (self.d0 as nat) + (self.d1 as nat) * 0x10000000000000000
            + (self.d2 as nat) * 0x100000000000000000000000000000000
            + (self.d3 as nat) * 0x1000000000000000000000000000000000000000000000000
    }

    pub fn from_u64(v: u64) -> (r: FieldElement)
        ensures
            r.value() == v,
    {
        FieldElement { d0: v, d1: 0, d2: 0, d3: 0 }
    }

    pub fn from_limbs(d0: u64, d1: u64, d2: u64, d3: u64) -> (r: FieldElement)
        ensures
            r == (FieldElement { d0, d1, d2, d3 }),
    {
        FieldElement { d0, d1, d2, d3 }
    }

    pub fn zero() -> (r: FieldElement)
        ensures
            r.value() == 0,
    {
        FieldElement::from_u64(0)
    }

    pub fn one() -> (r: FieldElement)
        ensures
            r.value() == 1,
    {
        FieldElement::from_u64(1)
    }

    pub fn is_zero(&self) -> (b: bool)
        ensures
            b == (self.value() == 0),
    {
        self.d0 == 0 && self.d1 == 0 && self.d2 == 0 && self.d3 == 0
    }

    /// Long division of the 256-bit value by ten: quotient and remainder.
    pub fn div10(self) -> (res: (FieldElement, u64))
        ensures
            res.1 < 10,
            res.0.value() * 10 + res.1 == self.value(),
    {
        let b: u128 = 0x10000000000000000;
        let c3: u128 = self.d3 as u128;
        let m3: u128 = c3 % 10;
        let c2: u128 = m3 * b + (self.d2 as u128);
        let m2: u128 = c2 % 10;
        let c1: u128 = m2 * b + (self.d1 as u128);
        let m1: u128 = c1 % 10;
        let c0: u128 = m1 * b + (self.d0 as u128);
        let m0: u128 = c0 % 10;
        proof {
            assert(c3 == 10 * (c3 / 10) + c3 % 10);
            assert(c2 == 10 * (c2 / 10) + c2 % 10);
            assert(c1 == 10 * (c1 / 10) + c1 % 10);
            assert(c0 == 10 * (c0 / 10) + c0 % 10);
            assert(c3 / 10 < 0x10000000000000000);
            assert(c2 / 10 < 0x10000000000000000);
            assert(c1 / 10 < 0x10000000000000000);
            assert(c0 / 10 < 0x10000000000000000);
        }
        let q3: u64 = (c3 / 10) as u64;
        let q2: u64 = (c2 / 10) as u64;
        let q1: u64 = (c1 / 10) as u64;
        let q0: u64 = (c0 / 10) as u64;
        let q = FieldElement { d0: q0, d1: q1, d2: q2, d3: q3 };
        proof {
            assert(self.d3 == c3);
            assert(self.d2 == c2 - (m3 as int) * 0x10000000000000000);
            assert(self.d1 == c1 - (m2 as int) * 0x10000000000000000);
            assert(self.d0 == c0 - (m1 as int) * 0x10000000000000000);
            assert(q.value() * 10 + m0 == self.value());
        }
        (q, m0 as u64)
    }
}

/// The decimal digit character for `d`.
pub open spec fn digit_char(d: int) -> char {
    if d == 0 {
        '0'
    } else if d == 1 {
        '1'
    } else if d == 2 {
        '2'
    } else if d == 3 {
        '3'
    } else if d == 4 {
        '4'
    } else if d == 5 {
        '5'
    } else if d == 6 {
        '6'
    } else if d == 7 {
        '7'
    } else if d == 8 {
        '8'
    } else {
        '9'
    }
}

/// The canonical decimal rendering of `n`: most significant digit first,
/// no sign, and no leading zeros (`0` itself renders as `"0"`).
pub open spec fn dec_of(n: nat) -> Seq<char>
    decreases n,
{
    if n < 10 {
        seq![digit_char(n as int)]
    } else {
        dec_of(n / 10).push(digit_char((n % 10) as int))
    }
}

/// A rendering never starts with a superfluous zero: only the value zero
/// itself begins with the digit `0`.
pub proof fn lemma_dec_of_no_leading_zero(n: nat)
    ensures
        dec_of(n).len() > 0,
        n > 0 ==> dec_of(n)[0] != '0',
    decreases n,
{
    if n >= 10 {
        lemma_dec_of_no_leading_zero(n / 10);
    }
}

fn digit_char_exec(d: u64) -> (c: char)
    requires
        d < 10,
    ensures
        c == digit_char(d as int),
{
    match d {
        0 => '0',
        1 => '1',
        2 => '2',
        3 => '3',
        4 => '4',
        5 => '5',
        6 => '6',
        7 => '7',
        8 => '8',
        _ => '9',
    }
}

/// Relies on `String`'s `FromIterator<char>` implementation through
/// `Iterator::collect`: the resulting string holds exactly the characters
/// of `v`, in order.
#[verifier::external_body]
fn string_from_chars(v: &Vec<char>) -> (r: String)
    ensures
        r@ == v@,
{
    v.iter().collect()
}

impl FieldElement {
    /// Render the value as decimal text.
    pub fn to_decimal(&self) -> (r: String)
        ensures
            r@ == dec_of(self.value()),
    {
        if self.is_zero() {
            let mut only: Vec<char> = Vec::new();
            only.push('0');
            proof {
                assert(dec_of(0) =~= seq!['0']);
            }
            return string_from_chars(&only);
        }
        let mut digits: Vec<char> = Vec::new();
        let mut cur: FieldElement = *self;
        loop
            invariant_except_break
                self.value() > 0,
                cur.value() > 0,
                dec_of(self.value()) == dec_of(cur.value()) + digits@.reverse(),
            ensures
                dec_of(self.value()) == digits@.reverse(),
            decreases cur.value(),
        {
            let ghost prev: nat = cur.value();
            let ghost tail: Seq<char> = digits@.reverse();
            let (q, r) = cur.div10();
            proof {
                lemma_div10_shape(prev, q.value(), r as nat);
            }
            digits.push(digit_char_exec(r));
            proof {
                assert(digits@.reverse() =~= seq![digit_char(r as int)] + tail);
            }
            cur = q;
            if cur.is_zero() {
                proof {
                    assert(prev < 10);
                    assert(dec_of(prev) == seq![digit_char(r as int)]);
                }
                break;
            }
            proof {
                assert(dec_of(prev) == dec_of(cur.value()).push(digit_char(r as int)));
                assert(dec_of(cur.value()).push(digit_char(r as int))
                    =~= dec_of(cur.value()) + seq![digit_char(r as int)]);
                assert(dec_of(self.value()) == dec_of(cur.value()) + digits@.reverse());
            }
        }
        let ghost all: Seq<char> = digits@;
        let mut out: Vec<char> = Vec::new();
        let mut i: usize = digits.len();
        while i > 0
            invariant
                i <= digits@.len(),
                digits@ == all,
                out@ =~= all.subrange(i as int, all.len() as int).reverse(),
            decreases i,
        {
            i = i - 1;
            out.push(digits[i]);
            proof {
                assert(out@ =~= all.subrange(i as int, all.len() as int).reverse());
            }
        }
        proof {
            assert(all.subrange(0, all.len() as int) =~= all);
        }
        string_from_chars(&out)
    }
}

/// From `q * 10 + r == n` with `r < 10`, `q` and `r` are the division's
/// quotient and remainder.
proof fn lemma_div10_shape(n: nat, q: nat, r: nat)
    requires
        r < 10,
        q * 10 + r == n,
    ensures
        q == n / 10,
        r == n % 10,
        q < n || n < 10,
{
    assert(q == n / 10 && r == n % 10) by (nonlinear_arith)
        requires
            r < 10,
            q * 10 + r == n,
    ;
    assert(q < n || n < 10) by (nonlinear_arith)
        requires
            r < 10,
            q * 10 + r == n,
    ;
}

} // verus!
