//! Numbers as IEEE 754 binary64 bit patterns.
//!
//! A number is its 64 bits: a sign, eleven bits of exponent and fifty-two of
//! fraction. What can be read off the bits exactly is done here in integer
//! arithmetic: the sign, zero, the integer part, the 32-bit integer that the
//! bitwise operators work on, and the pattern of a given integer.

use vstd::arithmetic::div_mod::{
    lemma_basic_div, lemma_div_multiples_vanish, lemma_fundamental_div_mod,
    lemma_fundamental_div_mod_converse_div, lemma_fundamental_div_mod_converse_mod,
    lemma_mod_multiples_basic, lemma_mul_mod_noop_left, lemma_small_mod,
};
use vstd::arithmetic::mul::lemma_mul_is_commutative;
use vstd::arithmetic::power2::{
    lemma2_to64, lemma2_to64_rest, lemma_pow2_adds, lemma_pow2_pos, lemma_pow2_strictly_increases,
    pow2,
};
use vstd::bits::{lemma_u64_pow2_no_overflow, lemma_u64_shl_is_mul, lemma_u64_shr_is_div};
use vstd::prelude::*;

verus! {

/// The bit of the sign: 2^63.
pub const SIGN: u64 = 0x8000_0000_0000_0000;

/// The implicit leading bit of a normal significand: 2^52.
pub const HIDDEN: u64 = 0x10_0000_0000_0000;

/// The largest integer below which every integer is a number: 2^53 - 1.
pub const MAX_INDEX: i64 = 0x1f_ffff_ffff_ffff;

/// 2^32.
pub const WORD: u64 = 0x1_0000_0000;

#[derive(Clone, Copy, Debug, PartialEq, Eq)]
pub struct Number {
    pub bits: u64,
}

/// The bits of a positive integer `m` below 2^53, seen as `m * 2^(e - 1075)`:
/// the significand is doubled, and the exponent lowered, until the leading
/// bit is in place.
pub open spec fn encoded(m: int, e: int) -> int
    decreases 0x20_0000_0000_0000 - m,
{
    if 0 < m < HIDDEN {
        encoded(2 * m, e - 1)
    } else {
        e * HIDDEN + (m - HIDDEN)
    }
}

/// A 32-bit pattern read as a signed integer.
pub open spec fn signed32(u: int) -> int {
    if u >= 0x8000_0000 {
        u - WORD
    } else {
        u
    }
}

impl Number {
    pub open spec fn negative(self) -> bool {
        self.bits >= SIGN
    }

    /// The bits without the sign.
    pub open spec fn unsigned_bits(self) -> int {
        if self.negative() {
            self.bits - SIGN
        } else {
            self.bits as int
        }
    }

    /// The biased exponent, from 0 to 2047.
    pub open spec fn exponent(self) -> int {
        self.unsigned_bits() / (HIDDEN as int)
    }

    pub open spec fn fraction(self) -> int {
        self.unsigned_bits() % (HIDDEN as int)
    }

    pub open spec fn is_nan(self) -> bool {
        self.exponent() == 2047 && self.fraction() != 0
    }

    pub open spec fn is_finite(self) -> bool {
        self.exponent() < 2047
    }

    /// Plus or minus zero.
    pub open spec fn is_zero(self) -> bool {
        self.unsigned_bits() == 0
    }

    /// The significand as an integer: the value of a finite number is
    /// `significand * 2^scale`, with the sign.
    pub open spec fn significand(self) -> int {
        if self.exponent() == 0 {
            self.fraction()
        } else {
            self.fraction() + HIDDEN
        }
    }

    pub open spec fn scale(self) -> int {
        if self.exponent() == 0 {
            -1074
        } else {
            self.exponent() - 1075
        }
    }

    /// The integer part of the absolute value.
    pub open spec fn whole(self) -> int {
        if self.scale() >= 0 {
            self.significand() * pow2(self.scale() as nat)
        } else {
            self.significand() / (pow2((-self.scale()) as nat) as int)
        }
    }

    /// The value rounded towards zero.
    pub open spec fn truncated(self) -> int {
        if self.negative() {
            -self.whole()
        } else {
            self.whole()
        }
    }

    /// The value is a whole number.
    pub open spec fn is_integer(self) -> bool {
        self.is_finite() && (self.scale() >= 0 || self.significand() % (pow2(
            (-self.scale()) as nat,
        ) as int) == 0)
    }

    /// The number that is the integer `i`, for `i` of at most 53 bits.
    pub open spec fn of_int(i: int) -> Number {
        if i == 0 {
            Number { bits: 0 }
        } else if i > 0 {
            Number { bits: encoded(i, 1075) as u64 }
        } else {
            Number { bits: (SIGN + encoded(-i, 1075)) as u64 }
        }
    }

    /// The whole number that this is, where it is one of at most 53 bits.
    pub open spec fn whole_number(self) -> Option<int> {
        if self.is_integer() && -MAX_INDEX <= self.truncated() <= MAX_INDEX {
            Some(self.truncated())
        } else {
            None
        }
    }

    /// The integer part modulo 2^32; 0 for infinities and for what is not a
    /// number.
    pub open spec fn uint32(self) -> int {
        if self.is_finite() {
            self.truncated() % (WORD as int)
        } else {
            0
        }
    }

    /// The same 32 bits read as a signed integer.
    pub open spec fn int32(self) -> int {
        signed32(self.uint32())
    }

    /// The number with the other sign.
    pub open spec fn negated(self) -> Number {
        if self.negative() {
            Number { bits: (self.bits - SIGN) as u64 }
        } else {
            Number { bits: (self.bits + SIGN) as u64 }
        }
    }

    pub fn from_bits(bits: u64) -> (r: Number)
        ensures
            r.bits == bits,
    {
        Number { bits }
    }

    pub fn to_bits(&self) -> (r: u64)
        ensures
            r == self.bits,
    {
        self.bits
    }

    /// Sign, biased exponent and fraction.
    pub fn parts(&self) -> (r: (bool, u64, u64))
        ensures
            r.0 == self.negative(),
            r.1 == self.exponent(),
            r.2 == self.fraction(),
            r.1 <= 2047,
            r.2 < HIDDEN,
    {
        let negative = self.bits >= SIGN;
        let rest: u64 = if negative {
            self.bits - SIGN
        } else {
            self.bits
        };
        (negative, rest / HIDDEN, rest % HIDDEN)
    }

    pub fn is_zero_value(&self) -> (r: bool)
        ensures
            r == self.is_zero(),
    {
        self.bits == 0 || self.bits == SIGN
    }

    /// The number of the opposite value.
    pub fn negate(&self) -> (r: Number)
        ensures
            r == self.negated(),
            r.truncated() == -self.truncated(),
            r.is_nan() == self.is_nan(),
    {
        proof {
            lemma_negated(*self);
        }
        if self.bits >= SIGN {
            Number { bits: self.bits - SIGN }
        } else {
            Number { bits: self.bits + SIGN }
        }
    }

    /// The number that is a given integer.
    pub fn from_int(i: i64) -> (r: Number)
        requires
            -MAX_INDEX <= i <= MAX_INDEX,
        ensures
            r == Number::of_int(i as int),
    {
        if i == 0 {
            return Number { bits: 0 };
        }
        let negative = i < 0;
        let start: u64 = if negative {
            (-i) as u64
        } else {
            i as u64
        };
        let mut m: u64 = start;
        let mut e: u64 = 1075;
        proof {
            lemma2_to64();
        }
        while m < HIDDEN
            invariant
                0 < m <= MAX_INDEX,
                1023 <= e <= 1075,
                m >= pow2((1075 - e) as nat),
                encoded(m as int, e as int) == encoded(start as int, 1075),
            decreases 0x20_0000_0000_0000 - m,
        {
            proof {
                lemma_pow2_adds((1075 - e) as nat, 1);
                lemma2_to64();
                if e == 1023 {
                    lemma2_to64_rest();
                }
            }
            m = m * 2;
            e = e - 1;
        }
        let body: u64 = e * HIDDEN + (m - HIDDEN);
        if negative {
            Number { bits: SIGN + body }
        } else {
            Number { bits: body }
        }
    }
}

/// What `encoded` gives: an exponent in the normal range and the
/// significand shifted into place, after at most `k` doublings.
pub proof fn lemma_encoded(m: int, e: int, k: nat)
    requires
        0 < m <= MAX_INDEX,
        m * pow2(k) >= HIDDEN,
        1 <= e - k,
        e <= 2046,
    ensures
        ({
            let bits = encoded(m, e);
            let exp = bits / (HIDDEN as int);
            let frac = bits % (HIDDEN as int);
            &&& 0 < bits < SIGN
            &&& e - k <= exp <= e
            &&& frac + HIDDEN == m * pow2((e - exp) as nat)
        }),
    decreases k,
{
    lemma2_to64();
    assert(m * 1 == m);
    if m < HIDDEN {
        assert(k > 0) by {
            if k == 0 {
                assert(m * pow2(0) == m * 1);
            }
        }
        assert(pow2(k) == 2 * pow2((k - 1) as nat)) by {
            lemma_pow2_adds((k - 1) as nat, 1);
        }
        assert(2 * m * pow2((k - 1) as nat) == m * (2 * pow2((k - 1) as nat)))
            by (nonlinear_arith);
        lemma_encoded(2 * m, e - 1, (k - 1) as nat);
        let bits = encoded(m, e);
        let exp = bits / (HIDDEN as int);
        let j = (e - 1 - exp) as nat;
        assert(pow2(j + 1) == 2 * pow2(j)) by {
            lemma_pow2_adds(j, 1);
        }
        assert(2 * m * pow2(j) == m * (2 * pow2(j))) by (nonlinear_arith);
    } else {
        let bits = e * HIDDEN + (m - HIDDEN);
        assert(bits / (HIDDEN as int) == e && bits % (HIDDEN as int) == m - HIDDEN) by {
            lemma_fundamental_div_mod_converse_div(bits, HIDDEN as int, e, m - HIDDEN);
            lemma_fundamental_div_mod_converse_mod(bits, HIDDEN as int, e, m - HIDDEN);
        }
        assert(m * pow2(0) == m * 1);
        assert(e * HIDDEN + (m - HIDDEN) < SIGN) by (nonlinear_arith)
            requires
                1 <= e <= 2046,
                m <= MAX_INDEX,
                HIDDEN == 0x10_0000_0000_0000,
                SIGN == 0x8000_0000_0000_0000,
                MAX_INDEX == 0x1f_ffff_ffff_ffff,
        ;
    }
}

/// The number made for an integer is that integer: a whole number, with
/// the integer as its value.
pub proof fn lemma_of_int(i: int)
    requires
        -MAX_INDEX <= i <= MAX_INDEX,
    ensures
        Number::of_int(i).is_integer(),
        Number::of_int(i).truncated() == i,
        Number::of_int(i).negative() == (i < 0),
        Number::of_int(i).whole_number() == Some(i),
{
    let n = Number::of_int(i);
    lemma2_to64();
    lemma2_to64_rest();
    if i == 0 {
        assert(n.unsigned_bits() == 0);
        assert(n.exponent() == 0 && n.fraction() == 0);
        lemma_pow2_pos(1074);
        lemma_basic_div(0, pow2(1074) as int);
        assert(n.whole() == 0);
    } else {
        let m = if i > 0 {
            i
        } else {
            -i
        };
        assert(m * pow2(52) >= HIDDEN) by (nonlinear_arith)
            requires
                m >= 1,
                pow2(52) == 0x10_0000_0000_0000,
                HIDDEN == 0x10_0000_0000_0000,
        {
        }
        lemma_encoded(m, 1075, 52);
        let bits = encoded(m, 1075);
        assert(n.negative() == (i < 0));
        assert(n.unsigned_bits() == bits);
        let exp = n.exponent();
        assert(1023 <= exp <= 1075);
        let k = (1075 - exp) as nat;
        let p = pow2(k) as int;
        lemma_pow2_pos(k);
        assert(n.significand() == m * p);
        if exp == 1075 {
            assert(n.scale() == 0);
            assert(m * 1 * 1 == m);
            assert(n.whole() == m);
        } else {
            assert(n.scale() == -k);
            assert((m * p) / p == m && (m * p) % p == 0) by {
                lemma_mul_is_commutative(m, p);
                lemma_div_multiples_vanish(m, p);
                lemma_mod_multiples_basic(m, p);
            }
            assert(n.whole() == m);
        }
    }
}

/// The number with the other sign is the number of the opposite value: the
/// same size, the same kind, the other side of zero.
pub proof fn lemma_negated(n: Number)
    ensures
        n.negated().negative() == !n.negative(),
        n.negated().unsigned_bits() == n.unsigned_bits(),
        n.negated().truncated() == -n.truncated(),
        n.negated().is_nan() == n.is_nan(),
        n.negated().is_integer() == n.is_integer(),
        n.negated().negated() == n,
{
}

/// The operators that work on the 32-bit integer of a number.
#[derive(Clone, Copy, Debug, PartialEq, Eq)]
pub enum BitOp {
    And,
    Or,
    Xor,
    ShiftLeft,
    ShiftRight,
    ShiftRightZeroFill,
}

/// By how many places a number shifts: the low five bits of its integer.
pub open spec fn shift_count(b: Number) -> nat {
    (b.uint32() % 32) as nat
}

/// The integer that a bitwise operator gives for two numbers: both are cut
/// to 32 bits first, the left operand unsigned for the zero-filling shift.
pub open spec fn bit_result(op: BitOp, a: Number, b: Number) -> int {
    match op {
        BitOp::And => signed32(((a.uint32() as u32) & (b.uint32() as u32)) as int),
        BitOp::Or => signed32(((a.uint32() as u32) | (b.uint32() as u32)) as int),
        BitOp::Xor => signed32(((a.uint32() as u32) ^ (b.uint32() as u32)) as int),
        BitOp::ShiftLeft => signed32((a.uint32() * pow2(shift_count(b))) % (WORD as int)),
        BitOp::ShiftRight => a.int32() / (pow2(shift_count(b)) as int),
        BitOp::ShiftRightZeroFill => a.uint32() / (pow2(shift_count(b)) as int),
    }
}

/// A 32-bit pattern as the signed integer it stands for.
fn as_signed(u: u32) -> (r: i64)
    ensures
        r == signed32(u as int),
        -0x8000_0000 <= r < 0x8000_0000,
{
    if u >= 0x8000_0000 {
        u as i64 - 0x1_0000_0000
    } else {
        u as i64
    }
}

/// 2^k for a shift count.
fn power_of_two(k: u64) -> (r: u64)
    requires
        k < 32,
    ensures
        r == pow2(k as nat),
        0 < r < WORD,
{
    proof {
        lemma2_to64();
        lemma_u64_pow2_no_overflow(k as nat);
        lemma_u64_shl_is_mul(1, k);
        lemma_pow2_strictly_increases(k as nat, 32);
    }
    1u64 << k
}

impl Number {
    /// The integer part of the absolute value, modulo 2^32.
    fn whole_low(&self) -> (r: u64)
        requires
            self.is_finite(),
        ensures
            r == self.whole() % (WORD as int),
            r < WORD,
    {
        let (_, e, f) = self.parts();
        let sig: u64 = if e == 0 {
            f
        } else {
            f + HIDDEN
        };
        proof {
            lemma2_to64();
            lemma2_to64_rest();
        }
        if e >= 1075 {
            let k: u64 = e - 1075;
            if k >= 32 {
                proof {
                    let q = pow2((k - 32) as nat) as int;
                    lemma_pow2_adds(32, (k - 32) as nat);
                    assert(sig * (WORD * q) == (sig * q) * WORD) by (nonlinear_arith);
                    lemma_mod_multiples_basic(sig * q, WORD as int);
                }
                0
            } else {
                let p: u64 = power_of_two(k);
                let s: u64 = sig % WORD;
                assert(s * p < 0x1_0000_0000_0000_0000) by (nonlinear_arith)
                    requires
                        s < 0x1_0000_0000,
                        p < 0x1_0000_0000,
                ;
                proof {
                    lemma_mul_mod_noop_left(sig as int, p as int, WORD as int);
                }
                (s * p) % WORD
            }
        } else {
            let k: u64 = if e == 0 {
                1074
            } else {
                1075 - e
            };
            if k >= 53 {
                proof {
                    if k > 53 {
                        lemma_pow2_strictly_increases(53, k as nat);
                    }
                    lemma_basic_div(sig as int, pow2(k as nat) as int);
                }
                0
            } else {
                proof {
                    lemma_u64_shr_is_div(sig, k);
                }
                (sig >> k) % WORD
            }
        }
    }

    /// The integer part modulo 2^32.
    pub fn to_uint32(&self) -> (r: u32)
        ensures
            r == self.uint32(),
    {
        let (negative, e, _) = self.parts();
        if e == 2047 {
            return 0;
        }
        let low: u64 = self.whole_low();
        if negative && low != 0 {
            proof {
                let w = self.whole();
                let q = w / (WORD as int);
                lemma_fundamental_div_mod(w, WORD as int);
                assert(-w == (-q - 1) * WORD + (WORD - low)) by (nonlinear_arith)
                    requires
                        w == WORD * q + low,
                ;
                lemma_fundamental_div_mod_converse_mod(-w, WORD as int, -q - 1, WORD - low);
            }
            (WORD - low) as u32
        } else {
            proof {
                if negative {
                    let w = self.whole();
                    let q = w / (WORD as int);
                    lemma_fundamental_div_mod(w, WORD as int);
                    assert(-w == (-q) * WORD + 0) by (nonlinear_arith)
                        requires
                            w == WORD * q + 0,
                    ;
                    lemma_fundamental_div_mod_converse_mod(-w, WORD as int, -q, 0);
                }
            }
            low as u32
        }
    }

    /// The integer part modulo 2^32, read as a signed integer.
    pub fn to_int32(&self) -> (r: i32)
        ensures
            r == self.int32(),
    {
        as_signed(self.to_uint32()) as i32
    }

    /// The whole number that this is, where it is one of at most 53 bits.
    pub fn to_integer(&self) -> (r: Option<i64>)
        ensures
            r matches Some(i) ==> self.whole_number() == Some(i as int),
            r is None ==> self.whole_number() is None,
    {
        let (negative, e, f) = self.parts();
        if e == 2047 {
            return None;
        }
        let sig: u64 = if e == 0 {
            f
        } else {
            f + HIDDEN
        };
        proof {
            lemma2_to64();
            lemma2_to64_rest();
        }
        let whole: u64 = if e >= 1076 {
            proof {
                let k = (e - 1075) as nat;
                if k > 1 {
                    lemma_pow2_strictly_increases(1, k);
                }
                assert(sig * pow2(k) >= HIDDEN * 2) by (nonlinear_arith)
                    requires
                        sig >= HIDDEN,
                        pow2(k) >= 2,
                ;
            }
            return None;
        } else if e == 1075 {
            assert(sig * 1 == sig);
            sig
        } else {
            let k: u64 = if e == 0 {
                1074
            } else {
                1075 - e
            };
            if k >= 53 {
                proof {
                    if k > 53 {
                        lemma_pow2_strictly_increases(53, k as nat);
                    }
                    lemma_basic_div(sig as int, pow2(k as nat) as int);
                    lemma_small_mod(sig as nat, pow2(k as nat));
                }
                if sig != 0 {
                    return None;
                }
                0
            } else {
                proof {
                    lemma_u64_pow2_no_overflow(k as nat);
                    lemma_u64_shl_is_mul(1, k);
                    lemma_pow2_pos(k as nat);
                    let s = sig as int;
                    let p = pow2(k as nat) as int;
                    lemma_fundamental_div_mod(s, p);
                    assert(s / p <= s) by (nonlinear_arith)
                        requires
                            s >= 0,
                            p >= 1,
                            s == p * (s / p) + s % p,
                            s % p >= 0,
                    ;
                }
                let p: u64 = 1u64 << k;
                if sig % p != 0 {
                    return None;
                }
                sig / p
            }
        };
        if negative {
            Some(-(whole as i64))
        } else {
            Some(whole as i64)
        }
    }

    /// Applies a bitwise operator to the 32-bit integers of two numbers.
    pub fn bit_op(op: BitOp, a: Number, b: Number) -> (r: Number)
        ensures
            r == Number::of_int(bit_result(op, a, b)),
            -MAX_INDEX <= bit_result(op, a, b) <= MAX_INDEX,
    {
        let x: u32 = a.to_uint32();
        let y: u32 = b.to_uint32();
        let count: u64 = (y % 32) as u64;
        let value: i64 = match op {
            BitOp::And => as_signed(x & y),
            BitOp::Or => as_signed(x | y),
            BitOp::Xor => as_signed(x ^ y),
            BitOp::ShiftLeft => {
                let p: u64 = power_of_two(count);
                assert(x * p < 0x1_0000_0000_0000_0000) by (nonlinear_arith)
                    requires
                        x < 0x1_0000_0000,
                        p < 0x1_0000_0000,
                ;
                as_signed(((x as u64 * p) % WORD) as u32)
            },
            BitOp::ShiftRight => {
                let p: u64 = power_of_two(count);
                let v: i64 = as_signed(x);
                if v >= 0 {
                    (v as u64 / p) as i64
                } else {
                    let under: u64 = (-v - 1) as u64;
                    proof {
                        let q = under as int / (p as int);
                        let rest = under as int % (p as int);
                        lemma_fundamental_div_mod(under as int, p as int);
                        assert(v == (-q - 1) * p + (p - rest - 1)) by (nonlinear_arith)
                            requires
                                v == -under - 1,
                                under == p * q + rest,
                        ;
                        lemma_fundamental_div_mod_converse_div(
                            v as int,
                            p as int,
                            -q - 1,
                            p - rest - 1,
                        );
                    }
                    -((under / p) as i64) - 1
                }
            },
            BitOp::ShiftRightZeroFill => {
                let p: u64 = power_of_two(count);
                (x as u64 / p) as i64
            },
        };
        Number::from_int(value)
    }
}

/// The character of a decimal digit.
pub open spec fn digit_char(d: int) -> char {
    if d == 0 {
        '0'
    } else if d == 1 {
        '1'
    } else if d == 2 {
        '2'
    } else if d == 3 {
        '3'
    } else if d == 4 {
        '4'
    } else if d == 5 {
        '5'
    } else if d == 6 {
        '6'
    } else if d == 7 {
        '7'
    } else if d == 8 {
        '8'
    } else {
        '9'
    }
}

/// The decimal digits of a natural number, without leading zeros.
pub open spec fn digits(n: nat) -> Seq<char>
    decreases n,
{
    if n < 10 {
        seq![digit_char(n as int)]
    } else {
        digits(n / 10).push(digit_char((n % 10) as int))
    }
}

/// An integer in decimal, with a minus sign where it is negative.
pub open spec fn decimal(i: int) -> Seq<char> {
    if i < 0 {
        seq!['-'] + digits((-i) as nat)
    } else {
        digits(i as nat)
    }
}

fn digit_text(d: u64) -> (r: &'static str)
    requires
        d < 10,
    ensures
        r@ == seq![digit_char(d as int)],
{
    proof {
        reveal_strlit("0");
        reveal_strlit("1");
        reveal_strlit("2");
        reveal_strlit("3");
        reveal_strlit("4");
        reveal_strlit("5");
        reveal_strlit("6");
        reveal_strlit("7");
        reveal_strlit("8");
        reveal_strlit("9");
    }
    let r = if d == 0 {
        "0"
    } else if d == 1 {
        "1"
    } else if d == 2 {
        "2"
    } else if d == 3 {
        "3"
    } else if d == 4 {
        "4"
    } else if d == 5 {
        "5"
    } else if d == 6 {
        "6"
    } else if d == 7 {
        "7"
    } else if d == 8 {
        "8"
    } else {
        "9"
    };
    assert(r@ =~= seq![digit_char(d as int)]);
    r
}

fn write_digits(n: u64, out: &mut String)
    ensures
        final(out)@ == old(out)@ + digits(n as nat),
    decreases n,
{
    if n >= 10 {
        write_digits(n / 10, out);
    }
    let ghost before = out@;
    out.append(digit_text(n % 10));
    proof {
        if n >= 10 {
            assert(out@ =~= old(out)@ + digits((n / 10) as nat).push(digit_char((n % 10) as int)));
        } else {
            assert(out@ =~= old(out)@ + seq![digit_char(n as int)]);
        }
    }
}

/// An integer written in decimal.
pub fn integer_text(i: i64) -> (r: String)
    ensures
        r@ == decimal(i as int),
{
    let mut out = String::new();
    if i < 0 {
        proof {
            reveal_strlit("-");
        }
        out.append("-");
        assert(out@ =~= seq!['-']);
        let magnitude: u64 = (-(i + 1)) as u64 + 1;
        write_digits(magnitude, &mut out);
    } else {
        write_digits(i as u64, &mut out);
        assert(out@ =~= digits(i as nat));
    }
    out
}

} // verus!
