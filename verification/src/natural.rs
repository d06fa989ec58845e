//! Natural numbers of any size, held as decimal digits.

use vstd::prelude::*;
use crate::text::{decimal_text, digit_char};

verus! {

/// Ten to the power `n`.
pub open spec fn pow10(n: nat) -> nat
    decreases n,
{
    if n == 0 {
        1
    } else {
        10 * pow10((n - 1) as nat)
    }
}

/// Is every element a decimal digit?
pub open spec fn all_decimal(digits: Seq<u8>) -> bool {
    forall|i: int| 0 <= i < digits.len() ==> #[trigger] digits[i] < 10
}

/// The number that decimal digits denote, the lowest digit first.
pub open spec fn digits_value(digits: Seq<u8>) -> nat
    decreases digits.len(),
{
    if digits.len() == 0 {
        0
    } else {
        digits[0] as nat + 10 * digits_value(digits.drop_first())
    }
}

/// The digits as characters, the highest digit first.
pub open spec fn digits_text(digits: Seq<u8>) -> Seq<char> {
    Seq::new(digits.len(), |i: int| digit_char(digits[digits.len() - 1 - i] as nat))
}

/// One more digit at the high end adds that digit times the power of ten of
/// its place.
pub proof fn lemma_value_push(digits: Seq<u8>, d: u8)
    ensures
        digits_value(digits.push(d)) == digits_value(digits) + d * pow10(digits.len()),
    decreases digits.len(),
{
    if digits.len() == 0 {
        assert(digits.push(d).drop_first() =~= Seq::<u8>::empty());
        assert(digits.push(d)[0] == d);
        assert(digits_value(Seq::<u8>::empty()) == 0);
        assert(digits_value(digits.push(d)) == d + 10 * digits_value(digits.push(d).drop_first()));
        assert(d * pow10(0) == d) by (nonlinear_arith)
            requires
                pow10(0) == 1,
        ;
    } else {
        lemma_value_push(digits.drop_first(), d);
        assert(digits.push(d).drop_first() =~= digits.drop_first().push(d));
        assert(digits.push(d)[0] == digits[0]);
        assert(digits_value(digits.push(d)) == digits[0] + 10 * digits_value(
            digits.push(d).drop_first(),
        ));
        assert(digits_value(digits) == digits[0] + 10 * digits_value(digits.drop_first()));
        assert(10 * (d * pow10((digits.len() - 1) as nat)) == d * pow10(digits.len()))
            by (nonlinear_arith)
            requires
                pow10(digits.len()) == 10 * pow10((digits.len() - 1) as nat),
        ;
    }
}

/// Decimal digits denote a number below the power of ten of their count.
pub proof fn lemma_value_bound(digits: Seq<u8>)
    requires
        all_decimal(digits),
    ensures
        digits_value(digits) < pow10(digits.len()),
    decreases digits.len(),
{
    if digits.len() > 0 {
        let rest = digits.drop_first();
        assert forall|i: int| 0 <= i < rest.len() implies #[trigger] rest[i] < 10 by {
            assert(rest[i] == digits[i + 1]);
        }
        lemma_value_bound(rest);
    }
}

/// Digits whose highest one is not zero denote at least the power of ten of
/// the highest place.
pub proof fn lemma_value_at_least(digits: Seq<u8>)
    requires
        digits.len() > 0,
        digits.last() != 0,
    ensures
        digits_value(digits) >= pow10((digits.len() - 1) as nat),
{
    let low = digits.drop_last();
    assert(low.push(digits.last()) =~= digits);
    lemma_value_push(low, digits.last());
    assert(digits.last() * pow10(low.len()) >= pow10(low.len())) by (nonlinear_arith)
        requires
            digits.last() >= 1,
    ;
}

/// Every power of ten is positive.
pub proof fn lemma_pow10_positive(n: nat)
    ensures
        pow10(n) >= 1,
    decreases n,
{
    if n > 0 {
        lemma_pow10_positive((n - 1) as nat);
    }
}

/// The numeral of a number is its digits from the highest to the lowest,
/// where the highest digit is not zero.
pub proof fn lemma_numeral_of_digits(digits: Seq<u8>)
    requires
        all_decimal(digits),
        digits.len() > 0,
        digits.last() != 0,
    ensures
        decimal_text(digits_value(digits)) == digits_text(digits),
    decreases digits.len(),
{
    let rest = digits.drop_first();
    if digits.len() == 1 {
        assert(rest =~= Seq::<u8>::empty());
        assert(digits_text(digits) =~= seq![digit_char(digits[0] as nat)]);
    } else {
        assert forall|i: int| 0 <= i < rest.len() implies #[trigger] rest[i] < 10 by {
            assert(rest[i] == digits[i + 1]);
        }
        assert(rest.last() == digits.last());
        lemma_numeral_of_digits(rest);
        lemma_value_at_least(rest);
        lemma_pow10_positive((rest.len() - 1) as nat);
        let n = digits_value(digits);
        let v = digits_value(rest);
        assert(n / 10 == v && n % 10 == digits[0]) by (nonlinear_arith)
            requires
                n == digits[0] + 10 * v,
                digits[0] < 10,
        ;
        assert(digits_text(digits) =~= digits_text(rest).push(digit_char(digits[0] as nat)));
    }
}

/// The number that the `count` lowest digits denote, or all digits where
/// there are fewer.
pub open spec fn low_value(digits: Seq<u8>, count: int) -> nat {
    digits_value(
        digits.take(
            if count < digits.len() {
                count
            } else {
                digits.len() as int
            },
        ),
    )
}

/// The digit at the place `place`, which is zero beyond the highest digit.
pub open spec fn digit_at(digits: Seq<u8>, place: int) -> u8 {
    if 0 <= place < digits.len() {
        digits[place]
    } else {
        0
    }
}

/// One more place adds its digit times the power of ten of the place.
pub proof fn lemma_low_value_step(digits: Seq<u8>, count: int)
    requires
        0 <= count,
    ensures
        low_value(digits, count + 1) == low_value(digits, count) + digit_at(digits, count) * pow10(
            count as nat,
        ),
        count >= digits.len() ==> low_value(digits, count) == digits_value(digits),
{
    if count < digits.len() {
        assert(digits.take(count + 1) =~= digits.take(count).push(digits[count]));
        lemma_value_push(digits.take(count), digits[count]);
    } else {
        assert(digits.take(digits.len() as int) =~= digits);
        assert(digit_at(digits, count) * pow10(count as nat) == 0) by (nonlinear_arith)
            requires
                digit_at(digits, count) == 0,
        ;
    }
}

/// The digits from a place on denote no more than all digits.
pub proof fn lemma_high_value(digits: Seq<u8>, from: int)
    requires
        0 <= from <= digits.len(),
    ensures
        digits_value(digits.skip(from)) <= digits_value(digits),
    decreases from,
{
    if from > 0 {
        lemma_high_value(digits, from - 1);
        assert(digits.skip(from - 1).drop_first() =~= digits.skip(from));
    } else {
        assert(digits.skip(0) =~= digits);
    }
}

/// A natural number of any size.
#[derive(Debug, PartialEq, Eq)]
pub struct Natural {
    /// The decimal digits, the lowest first; the highest is not zero, and
    /// zero has no digits.
    digits: Vec<u8>,
}

impl View for Natural {
    type V = nat;

    closed spec fn view(&self) -> nat {
        digits_value(self.digits@)
    }
}

impl Clone for Natural {
    fn clone(&self) -> (r: Self)
        ensures
            r@ == self@,
    {
        proof {
            use_type_invariant(self);
        }
        let digits = self.digits.clone();
        assert(digits@ =~= self.digits@);
        Natural { digits }
    }
}

impl Natural {
    /// The type's invariant: decimal digits, and the highest one is not zero.
    #[verifier::type_invariant]
    closed spec fn canonical(&self) -> bool {
        &&& all_decimal(self.digits@)
        &&& self.digits@.len() > 0 ==> self.digits@.last() != 0
    }

    /// The number with the digits `digits`, the lowest first; zeros at the
    /// high end are dropped.
    fn from_digits(digits: Vec<u8>) -> (r: Self)
        requires
            all_decimal(digits@),
        ensures
            r@ == digits_value(digits@),
    {
        let mut digits = digits;
        let ghost given = digits@;
        while digits.len() > 0 && digits[digits.len() - 1] == 0
            invariant
                all_decimal(digits@),
                digits_value(digits@) == digits_value(given),
            decreases digits.len(),
        {
            proof {
                let low = digits@.drop_last();
                assert(low.push(0u8) =~= digits@);
                lemma_value_push(low, 0u8);
                assert forall|i: int| 0 <= i < low.len() implies #[trigger] low[i] < 10 by {
                    assert(low[i] == digits@[i]);
                }
            }
            digits.pop();
        }
        Natural { digits }
    }

    /// The number zero.
    pub fn zero() -> (r: Self)
        ensures
            r@ == 0,
    {
        Natural { digits: Vec::new() }
    }

    /// Is the number zero?
    pub fn is_zero(&self) -> (r: bool)
        ensures
            r == (self@ == 0),
    {
        proof {
            use_type_invariant(self);
            if self.digits@.len() > 0 {
                lemma_value_at_least(self.digits@);
                lemma_pow10_positive((self.digits@.len() - 1) as nat);
            }
        }
        self.digits.len() == 0
    }

    /// The number `n`.
    pub fn from_u128(n: u128) -> (r: Self)
        ensures
            r@ == n,
    {
        let mut digits: Vec<u8> = Vec::new();
        let mut rest: u128 = n;
        assert(rest * pow10(0) == n) by (nonlinear_arith)
            requires
                pow10(0) == 1,
                rest == n,
        ;
        while rest > 0
            invariant
                all_decimal(digits@),
                digits_value(digits@) + rest * pow10(digits@.len()) == n,
            decreases rest,
        {
            let d: u8 = (rest % 10) as u8;
            proof {
                lemma_value_push(digits@, d);
                let p = pow10(digits@.len());
                assert(d * p + (rest / 10) * (10 * p) == rest * p) by (nonlinear_arith)
                    requires
                        rest == 10 * (rest / 10) + d,
                ;
            }
            digits.push(d);
            rest = rest / 10;
        }
        Natural::from_digits(digits)
    }

    /// Ten times the number, plus the digit `d`.
    pub fn times_ten_plus(&self, d: u8) -> (r: Self)
        requires
            d < 10,
        ensures
            r@ == 10 * self@ + d,
    {
        proof {
            use_type_invariant(self);
        }
        let mut digits: Vec<u8> = Vec::new();
        digits.push(d);
        let mut i: usize = 0;
        while i < self.digits.len()
            invariant
                i <= self.digits.len(),
                digits@ == seq![d] + self.digits@.take(i as int),
            decreases self.digits.len() - i,
        {
            digits.push(self.digits[i]);
            proof {
                assert(digits@ =~= seq![d] + self.digits@.take(i + 1));
            }
            i = i + 1;
        }
        proof {
            assert(self.digits@.take(i as int) =~= self.digits@);
            assert(digits@.drop_first() =~= self.digits@);
        }
        Natural::from_digits(digits)
    }

    /// The sum of the two numbers.
    pub fn add(&self, other: &Natural) -> (r: Self)
        ensures
            r@ == self@ + other@,
    {
        proof {
            use_type_invariant(self);
            use_type_invariant(other);
        }
        let places = if self.digits.len() < other.digits.len() {
            other.digits.len()
        } else {
            self.digits.len()
        };
        let mut digits: Vec<u8> = Vec::new();
        let mut carry: u8 = 0;
        let mut i: usize = 0;
        proof {
            assert(self.digits@.take(0) =~= Seq::<u8>::empty());
            assert(other.digits@.take(0) =~= Seq::<u8>::empty());
            assert(carry * pow10(0) == 0) by (nonlinear_arith)
                requires
                    carry == 0,
            ;
        }
        while i < places
            invariant
                i <= places,
                places >= self.digits@.len(),
                places >= other.digits@.len(),
                carry <= 1,
                all_decimal(digits@),
                all_decimal(self.digits@),
                all_decimal(other.digits@),
                digits@.len() == i,
                digits_value(digits@) + carry * pow10(i as nat) == low_value(self.digits@, i as int)
                    + low_value(other.digits@, i as int),
            decreases places - i,
        {
            let a: u8 = if i < self.digits.len() {
                self.digits[i]
            } else {
                0
            };
            let b: u8 = if i < other.digits.len() {
                other.digits[i]
            } else {
                0
            };
            let sum: u8 = a + b + carry;
            let digit: u8 = sum % 10;
            let next: u8 = sum / 10;
            proof {
                lemma_value_push(digits@, digit);
                lemma_low_value_step(self.digits@, i as int);
                lemma_low_value_step(other.digits@, i as int);
                let p = pow10(i as nat);
                assert(pow10((i + 1) as nat) == 10 * p);
                assert(digit * p + next * (10 * p) == a * p + b * p + carry * p) by (nonlinear_arith)
                    requires
                        a + b + carry == 10 * next + digit,
                ;
            }
            digits.push(digit);
            carry = next;
            i = i + 1;
        }
        proof {
            lemma_low_value_step(self.digits@, i as int);
            lemma_low_value_step(other.digits@, i as int);
            lemma_value_push(digits@, carry);
        }
        digits.push(carry);
        Natural::from_digits(digits)
    }

    /// The difference of the two numbers, where the first is at least the
    /// second; `None` where it is smaller.
    pub fn checked_sub(&self, other: &Natural) -> (r: Option<Self>)
        ensures
            r is Some == (self@ >= other@),
            r matches Some(difference) ==> difference@ == self@ - other@,
    {
        proof {
            use_type_invariant(self);
            use_type_invariant(other);
        }
        let places = if self.digits.len() < other.digits.len() {
            other.digits.len()
        } else {
            self.digits.len()
        };
        let mut digits: Vec<u8> = Vec::new();
        let mut borrow: u8 = 0;
        let mut i: usize = 0;
        proof {
            assert(self.digits@.take(0) =~= Seq::<u8>::empty());
            assert(other.digits@.take(0) =~= Seq::<u8>::empty());
            assert(borrow * pow10(0) == 0) by (nonlinear_arith)
                requires
                    borrow == 0,
            ;
        }
        while i < places
            invariant
                i <= places,
                places >= self.digits@.len(),
                places >= other.digits@.len(),
                borrow <= 1,
                all_decimal(digits@),
                all_decimal(self.digits@),
                all_decimal(other.digits@),
                digits@.len() == i,
                digits_value(digits@) + low_value(other.digits@, i as int) == low_value(
                    self.digits@,
                    i as int,
                ) + borrow * pow10(i as nat),
            decreases places - i,
        {
            let a: u8 = if i < self.digits.len() {
                self.digits[i]
            } else {
                0
            };
            let b: u8 = if i < other.digits.len() {
                other.digits[i]
            } else {
                0
            };
            let taken: u8 = b + borrow;
            let digit: u8 = if a >= taken {
                a - taken
            } else {
                10 + a - taken
            };
            let next: u8 = if a >= taken {
                0
            } else {
                1
            };
            proof {
                lemma_value_push(digits@, digit);
                lemma_low_value_step(self.digits@, i as int);
                lemma_low_value_step(other.digits@, i as int);
                let p = pow10(i as nat);
                assert(pow10((i + 1) as nat) == 10 * p);
                assert(digit * p + b * p + borrow * p == a * p + next * (10 * p)) by (nonlinear_arith)
                    requires
                        digit + b + borrow == a + 10 * next,
                ;
            }
            digits.push(digit);
            borrow = next;
            i = i + 1;
        }
        proof {
            lemma_low_value_step(self.digits@, i as int);
            lemma_low_value_step(other.digits@, i as int);
            lemma_value_bound(digits@);
            assert(borrow * pow10(i as nat) == if borrow == 1 {
                pow10(i as nat)
            } else {
                0
            }) by (nonlinear_arith)
                requires
                    borrow <= 1,
            ;
        }
        if borrow == 0 {
            Some(Natural::from_digits(digits))
        } else {
            None
        }
    }

    /// The product of the two numbers.
    pub fn mul(&self, other: &Natural) -> (r: Self)
        ensures
            r@ == self@ * other@,
    {
        proof {
            use_type_invariant(other);
        }
        let mut product = Natural::zero();
        let mut i: usize = other.digits.len();
        proof {
            assert(other.digits@.skip(i as int) =~= Seq::<u8>::empty());
            assert(self@ * digits_value(Seq::<u8>::empty()) == 0) by (nonlinear_arith)
                requires
                    digits_value(Seq::<u8>::empty()) == 0,
            ;
        }
        while i > 0
            invariant
                i <= other.digits@.len(),
                product@ == self@ * digits_value(other.digits@.skip(i as int)),
            decreases i,
        {
            i = i - 1;
            let d: u8 = other.digits[i];
            let ghost high = digits_value(other.digits@.skip(i + 1));
            proof {
                assert(other.digits@.skip(i as int).drop_first() =~= other.digits@.skip(i + 1));
                assert(other.digits@.skip(i as int)[0] == d);
            }
            product = product.times_ten_plus(0);
            let mut k: u8 = 0;
            proof {
                assert(k * self@ == 0) by (nonlinear_arith)
                    requires
                        k == 0,
                ;
            }
            while k < d
                invariant
                    k <= d,
                    product@ == 10 * (self@ * high) + k * self@,
                decreases d - k,
            {
                proof {
                    assert((k + 1) * self@ == k * self@ + self@) by (nonlinear_arith);
                }
                product = product.add(self);
                k = k + 1;
            }
            proof {
                assert(10 * (self@ * high) + d * self@ == self@ * (d + 10 * high))
                    by (nonlinear_arith);
            }
        }
        proof {
            assert(other.digits@.skip(0) =~= other.digits@);
        }
        product
    }

    /// The quotient and the remainder of the division of the number by
    /// `divisor`; `None` where the divisor is zero.
    pub fn div_rem(&self, divisor: &Natural) -> (r: Option<(Self, Self)>)
        ensures
            r is Some == (divisor@ != 0),
            r matches Some(pair) ==> pair.0@ == self@ / divisor@ && pair.1@ == self@ % divisor@,
    {
        if divisor.is_zero() {
            return None;
        }
        proof {
            use_type_invariant(self);
        }
        let mut quotient = Natural::zero();
        let mut rest = Natural::zero();
        let mut i: usize = self.digits.len();
        proof {
            assert(self.digits@.skip(i as int) =~= Seq::<u8>::empty());
            assert(quotient@ * divisor@ == 0) by (nonlinear_arith)
                requires
                    quotient@ == 0,
            ;
        }
        while i > 0
            invariant
                i <= self.digits@.len(),
                all_decimal(self.digits@),
                divisor@ != 0,
                rest@ < divisor@,
                digits_value(self.digits@.skip(i as int)) == quotient@ * divisor@ + rest@,
            decreases i,
        {
            i = i - 1;
            let d: u8 = self.digits[i];
            let ghost high = digits_value(self.digits@.skip(i + 1));
            let ghost before_quotient = quotient@;
            let ghost before_rest = rest@;
            proof {
                assert(self.digits@.skip(i as int).drop_first() =~= self.digits@.skip(i + 1));
                assert(self.digits@.skip(i as int)[0] == d);
            }
            rest = rest.times_ten_plus(d);
            let ghost total = rest@;
            let mut digit: u8 = 0;
            let mut reduced: bool = false;
            proof {
                assert(digit * divisor@ == 0) by (nonlinear_arith)
                    requires
                        digit == 0,
                ;
                assert(total < 10 * divisor@) by (nonlinear_arith)
                    requires
                        total == 10 * before_rest + d,
                        d < 10,
                        before_rest < divisor@,
                ;
            }
            while !reduced
                invariant
                    digit <= 9,
                    total == digit * divisor@ + rest@,
                    total < 10 * divisor@,
                    reduced ==> rest@ < divisor@,
                decreases
                        (if reduced {
                            0int
                        } else {
                            10 - digit
                        }),
            {
                match rest.checked_sub(divisor) {
                    Some(less) => {
                        proof {
                            assert((digit + 1) * divisor@ == digit * divisor@ + divisor@)
                                by (nonlinear_arith);
                            assert(digit + 1 <= 9) by (nonlinear_arith)
                                requires
                                    total == digit * divisor@ + rest@,
                                    total < 10 * divisor@,
                                    rest@ >= divisor@,
                                    divisor@ > 0,
                            ;
                        }
                        rest = less;
                        digit = digit + 1;
                    },
                    None => {
                        reduced = true;
                    },
                }
            }
            quotient = quotient.times_ten_plus(digit);
            proof {
                assert(d + 10 * high == (10 * before_quotient + digit) * divisor@ + rest@)
                    by (nonlinear_arith)
                    requires
                        high == before_quotient * divisor@ + before_rest,
                        total == 10 * before_rest + d,
                        total == digit * divisor@ + rest@,
                ;
            }
        }
        proof {
            assert(self.digits@.skip(0) =~= self.digits@);
            vstd::arithmetic::div_mod::lemma_fundamental_div_mod_converse(
                self@ as int,
                divisor@ as int,
                quotient@ as int,
                rest@ as int,
            );
        }
        Some((quotient, rest))
    }

    /// The number as a `u128`; `None` where it does not fit.
    pub fn to_u128(&self) -> (r: Option<u128>)
        ensures
            r is Some == (self@ <= u128::MAX),
            r matches Some(n) ==> n == self@,
    {
        proof {
            use_type_invariant(self);
        }
        let mut n: u128 = 0;
        let mut i: usize = self.digits.len();
        proof {
            assert(self.digits@.skip(i as int) =~= Seq::<u8>::empty());
        }
        while i > 0
            invariant
                i <= self.digits@.len(),
                all_decimal(self.digits@),
                n == digits_value(self.digits@.skip(i as int)),
            decreases i,
        {
            i = i - 1;
            let d: u8 = self.digits[i];
            proof {
                assert(self.digits@.skip(i as int).drop_first() =~= self.digits@.skip(i + 1));
                assert(self.digits@.skip(i as int)[0] == d);
                lemma_high_value(self.digits@, i as int);
            }
            if n > (u128::MAX - d as u128) / 10 {
                return None;
            }
            n = n * 10 + d as u128;
        }
        proof {
            assert(self.digits@.skip(0) =~= self.digits@);
        }
        Some(n)
    }

    /// The decimal numeral of the number.
    pub fn to_string(&self) -> (r: String)
        ensures
            r@ == decimal_text(self@),
    {
        proof {
            use_type_invariant(self);
        }
        let mut out = String::new();
        if self.digits.len() == 0 {
            out.push('0');
            proof {
                assert(out@ =~= seq![digit_char(0)]);
            }
            return out;
        }
        let mut i: usize = self.digits.len();
        let ghost all = digits_text(self.digits@);
        proof {
            assert(all.take(0) =~= Seq::<char>::empty());
        }
        while i > 0
            invariant
                i <= self.digits@.len(),
                all_decimal(self.digits@),
                all == digits_text(self.digits@),
                out@ == all.take(self.digits@.len() - i),
            decreases i,
        {
            i = i - 1;
            let d: u8 = self.digits[i];
            out.push((48 + d) as char);
            proof {
                assert(all.take(self.digits@.len() - i) =~= all.take(self.digits@.len() - i - 1).push(
                    digit_char(d as nat),
                ));
            }
        }
        proof {
            assert(all.take(self.digits@.len() as int) =~= all);
            lemma_numeral_of_digits(self.digits@);
        }
        out
    }
}

} // verus!
