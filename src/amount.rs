//! Token amounts: unsigned integers of 256 bits, held as two 128-bit halves,
//! with the checked addition, decimal reading and decimal writing the ledger
//! and the command reader use.

use vstd::prelude::*;
use vstd::arithmetic::div_mod::lemma_fundamental_div_mod_converse;
use crate::text::{all_digits, chars_of, decimal_of, digit_char, digit_value, digits_value,
    is_digit, parse_unsigned, unsigned_body};

verus! {

/// 2^128, the weight of the high half.
pub open spec fn half_base() -> nat {
    0x1_0000_0000_0000_0000_0000_0000_0000_0000nat
}

/// 2^256 − 1, the largest amount.
pub open spec fn max_amount() -> nat {
    (half_base() * half_base() - 1) as nat
}

/// An unsigned 256-bit integer: `hi · 2^128 + lo`.
#[derive(Clone, Copy, Debug, PartialEq, Eq, Structural)]
pub struct Uint256 {
    pub hi: u128,
    pub lo: u128,
}

impl Uint256 {
    /// The number this amount stands for.
    pub open spec fn value(&self) -> nat {
        (self.hi as nat) * half_base() + (self.lo as nat)
    }

    pub proof fn lemma_value_bounds(&self)
        ensures
            self.value() <= max_amount(),
    {
        assert(self.value() <= max_amount()) by (nonlinear_arith)
            requires
                self.hi as nat <= half_base() - 1,
                self.lo as nat <= half_base() - 1,
                self.value() == (self.hi as nat) * half_base() + (self.lo as nat),
                max_amount() == half_base() * half_base() - 1,
        ;
    }

    /// Two amounts of the same value are the same amount.
    pub proof fn lemma_value_injective(a: Uint256, b: Uint256)
        ensures
            a.value() == b.value() ==> a == b,
    {
    }

    pub fn zero() -> (r: Uint256)
        ensures
            r.value() == 0,
    {
        Uint256 { hi: 0, lo: 0 }
    }

    pub fn from_u128(n: u128) -> (r: Uint256)
        ensures
            r.value() == n as nat,
    {
        Uint256 { hi: 0, lo: n }
    }

    pub fn is_zero(&self) -> (r: bool)
        ensures
            r == (self.value() == 0),
    {
        self.hi == 0 && self.lo == 0
    }

    /// The sum, when it is no larger than 2^256 − 1.
    pub fn checked_add(self, other: Uint256) -> (r: Option<Uint256>)
        ensures
            r matches Some(s) ==> s.value() == self.value() + other.value(),
            r is None <==> self.value() + other.value() > max_amount(),
    {
        let (lo, carry) = if self.lo > u128::MAX - other.lo {
            (self.lo - (u128::MAX - other.lo) - 1, 1u128)
        } else {
            (self.lo + other.lo, 0u128)
        };
        assert(lo as nat + carry * half_base() == self.lo as nat + other.lo as nat);
        if self.hi > u128::MAX - other.hi || self.hi + other.hi > u128::MAX - carry {
            proof {
                assert(self.hi as nat + other.hi as nat + carry >= half_base());
                assert(self.value() + other.value() > max_amount()) by (nonlinear_arith)
                    requires
                        self.hi as nat + other.hi as nat + carry >= half_base(),
                        lo as nat + carry * half_base() == self.lo as nat + other.lo as nat,
                        self.value() == (self.hi as nat) * half_base() + (self.lo as nat),
                        other.value() == (other.hi as nat) * half_base() + (other.lo as nat),
                        max_amount() == half_base() * half_base() - 1,
                        lo >= 0,
                ;
            }
            return None;
        }
        let s = Uint256 { hi: self.hi + other.hi + carry, lo };
        proof {
            s.lemma_value_bounds();
        }
        Some(s)
    }

    /// `10 · self + d`, when it is no larger than 2^256 − 1.
    fn times_ten_plus(self, d: u128) -> (r: Option<Uint256>)
        requires
            d < 10,
        ensures
            r matches Some(s) ==> s.value() == self.value() * 10 + d,
            r is None <==> self.value() * 10 + d > max_amount(),
    {
        let x2 = match self.checked_add(self) {
            Some(v) => v,
            None => {
                return None;
            },
        };
        let x4 = match x2.checked_add(x2) {
            Some(v) => v,
            None => {
                return None;
            },
        };
        let x8 = match x4.checked_add(x4) {
            Some(v) => v,
            None => {
                return None;
            },
        };
        let x10 = match x8.checked_add(x2) {
            Some(v) => v,
            None => {
                return None;
            },
        };
        x10.checked_add(Uint256::from_u128(d))
    }

    /// The quotient and remainder of division by ten.
    fn div_rem_ten(self) -> (r: (Uint256, u128))
        ensures
            r.1 < 10,
            self.value() == r.0.value() * 10 + r.1,
    {
        let qh = self.hi / 10;
        let rh = self.hi % 10;
        let lo_h = self.lo / 0x1_0000_0000_0000_0000u128;
        let lo_l = self.lo % 0x1_0000_0000_0000_0000u128;
        let t1 = rh * 0x1_0000_0000_0000_0000u128 + lo_h;
        let q1 = t1 / 10;
        let r1 = t1 % 10;
        let t2 = r1 * 0x1_0000_0000_0000_0000u128 + lo_l;
        let q2 = t2 / 10;
        let r2 = t2 % 10;
        assert(q1 < 0x1_0000_0000_0000_0000u128);
        assert(q2 < 0x1_0000_0000_0000_0000u128);
        let q = Uint256 { hi: qh, lo: q1 * 0x1_0000_0000_0000_0000u128 + q2 };
        proof {
            assert(self.lo as nat == lo_h as nat * 0x1_0000_0000_0000_0000nat + lo_l as nat);
            assert(self.hi as nat == qh as nat * 10 + rh as nat);
            assert(t1 as nat == q1 as nat * 10 + r1 as nat);
            assert(t2 as nat == q2 as nat * 10 + r2 as nat);
            assert(self.value() == q.value() * 10 + r2) by (nonlinear_arith)
                requires
                    self.value() == (self.hi as nat) * half_base() + (self.lo as nat),
                    q.value() == (q.hi as nat) * half_base() + (q.lo as nat),
                    q.hi == qh,
                    q.lo as nat == q1 as nat * 0x1_0000_0000_0000_0000nat + q2 as nat,
                    half_base() == 0x1_0000_0000_0000_0000nat * 0x1_0000_0000_0000_0000nat,
                    self.lo as nat == lo_h as nat * 0x1_0000_0000_0000_0000nat + lo_l as nat,
                    self.hi as nat == qh as nat * 10 + rh as nat,
                    t1 as nat == rh as nat * 0x1_0000_0000_0000_0000nat + lo_h as nat,
                    t1 as nat == q1 as nat * 10 + r1 as nat,
                    t2 as nat == r1 as nat * 0x1_0000_0000_0000_0000nat + lo_l as nat,
                    t2 as nat == q2 as nat * 10 + r2 as nat,
            ;
        }
        (q, r2)
    }

    /// The decimal writing of this amount, as `to_string` gives it.
    pub fn to_decimal(&self) -> (r: String)
        ensures
            r@ == decimal_of(self.value()),
        decreases self.value(),
    {
        let (q, d) = self.div_rem_ten();
        proof {
            lemma_fundamental_div_mod_converse(self.value() as int, 10, q.value() as int, d as int);
        }
        if q.is_zero() {
            String::from_str(digit_text(d))
        } else {
            let mut s = q.to_decimal();
            s.append(digit_text(d));
            s
        }
    }

    /// Reads an amount as `Uint256::from_str` does: an optional `+`, then
    /// decimal digits; none for anything else or for a value above 2^256 − 1.
    pub fn parse(s: &str) -> (r: Option<Uint256>)
        ensures
            r matches Some(v) ==> parse_unsigned(s@, max_amount()) == Some(v.value()),
            r is None ==> parse_unsigned(s@, max_amount()) is None,
    {
        let chars = chars_of(s);
        let mut start: usize = 0;
        if chars.len() > 0 && chars[0] == '+' {
            start = 1;
        }
        let ghost body = unsigned_body(s@);
        assert(body =~= s@.subrange(start as int, s@.len() as int));
        if start >= chars.len() {
            return None;
        }
        let mut acc = Uint256::zero();
        let mut i: usize = start;
        while i < chars.len()
            invariant
                chars@ == s@,
                start <= i <= chars.len(),
                body == s@.subrange(start as int, s@.len() as int),
                body == unsigned_body(s@),
                all_digits(body.subrange(0, i - start)),
                acc.value() == digits_value(body.subrange(0, i - start)),
            decreases chars.len() - i,
        {
            let c = chars[i];
            let ghost pre = body.subrange(0, i - start);
            let ghost next = body.subrange(0, i + 1 - start);
            assert(next.drop_last() =~= pre);
            assert(next.last() == c);
            assert(body[i - start] == c);
            if !('0' <= c && c <= '9') {
                assert(!is_digit(body[i - start]));
                assert(!all_digits(body));
                return None;
            }
            let d = (c as u32 - '0' as u32) as u128;
            assert(d as nat == digit_value(c));
            acc = match acc.times_ten_plus(d) {
                Some(v) => v,
                None => {
                    proof {
                        crate::text::lemma_digits_value_monotone(body, i + 1 - start);
                        assert(body.subrange(0, (i + 1 - start) as int) == next);
                    }
                    return None;
                },
            };
            i = i + 1;
            assert(all_digits(next));
        }
        assert(body.subrange(0, body.len() as int) =~= body);
        proof {
            acc.lemma_value_bounds();
        }
        Some(acc)
    }
}

fn digit_text(d: u128) -> (r: &'static str)
    requires
        d < 10,
    ensures
        r@ == seq![digit_char(d as nat)],
{
    crate::text::digit_str(d)
}

impl From<u128> for Uint256 {
    fn from(n: u128) -> (r: Uint256) {
        Uint256 { hi: 0, lo: n }
    }
}

impl vstd::std_specs::convert::FromSpecImpl<u128> for Uint256 {
    open spec fn obeys_from_spec() -> bool {
        true
    }

    open spec fn from_spec(n: u128) -> Uint256 {
        Uint256 { hi: 0, lo: n }
    }
}

} // verus!
