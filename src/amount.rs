//! Token amounts: unsigned 256-bit integers with checked and saturating arithmetic.

use vstd::prelude::*;

verus! {

/// `2^128`, the weight of the high half of an [`Amount`].
pub open spec fn half_base() -> nat {
    u128::MAX as nat + 1
}

/// `2^256 - 1`, the largest value an [`Amount`] can hold.
pub open spec fn amount_max() -> nat {
    (half_base() * half_base() - 1) as nat
}

/// An unsigned 256-bit integer, held as a high and a low 128-bit half.
///
/// Its value is `hi * 2^128 + lo`; every value below `2^256` has exactly one
/// representation, so two amounts are equal exactly when their values are.
#[derive(Clone, Copy, Debug, PartialEq, Eq, Structural)]
pub struct Amount {
    pub hi: u128,
    pub lo: u128,
}

impl View for Amount {
    type V = nat;

    open spec fn view(&self) -> nat {
        self.hi as nat * half_base() + self.lo as nat
    }
}

/// Every amount lies in `0 ..= 2^256 - 1`.
pub proof fn lemma_amount_bounded(a: Amount)
    ensures
        a@ <= amount_max(),
{
    assert(a.hi as nat * half_base() <= (half_base() - 1) * half_base()) by (nonlinear_arith)
        requires
            a.hi as nat <= half_base() - 1,
    ;
    assert(half_base() * half_base() - 1 == (half_base() - 1) * half_base() + (half_base() - 1))
        by (nonlinear_arith);
}

/// Amounts are equal exactly when their values are.
pub proof fn lemma_amount_view_injective(a: Amount, b: Amount)
    ensures
        a@ == b@ <==> a == b,
{
    if a@ == b@ {
        if a.hi < b.hi {
            assert(a.hi as nat * half_base() + half_base() <= b.hi as nat * half_base())
                by (nonlinear_arith)
                requires
                    a.hi < b.hi,
            ;
        } else if b.hi < a.hi {
            assert(b.hi as nat * half_base() + half_base() <= a.hi as nat * half_base())
                by (nonlinear_arith)
                requires
                    b.hi < a.hi,
            ;
        }
    }
}

/// The amount whose value is `n`, for `n <= 2^256 - 1`.
pub open spec fn amount_of(n: nat) -> Amount {
    Amount { hi: (n / half_base()) as u128, lo: (n % half_base()) as u128 }
}

/// An amount is the amount of its value.
pub proof fn lemma_amount_of_view(a: Amount)
    ensures
        amount_of(a@) == a,
{
    vstd::arithmetic::div_mod::lemma_fundamental_div_mod_converse(
        a@ as int,
        half_base() as int,
        a.hi as int,
        a.lo as int,
    );
}

impl Amount {
    /// The amount zero.
    pub fn zero() -> (r: Amount)
        ensures
            r@ == 0,
    {
        Amount { hi: 0, lo: 0 }
    }

    /// The largest amount, `2^256 - 1`.
    pub fn max_value() -> (r: Amount)
        ensures
            r@ == amount_max(),
    {
        let r = Amount { hi: u128::MAX, lo: u128::MAX };
        assert(r@ == amount_max()) by (nonlinear_arith)
            requires
                r.hi as nat == half_base() - 1,
                r.lo as nat == half_base() - 1,
                amount_max() == half_base() * half_base() - 1,
        ;
        r
    }

    /// The amount with value `v`.
    pub fn from_u128(v: u128) -> (r: Amount)
        ensures
            r@ == v as nat,
    {
        Amount { hi: 0, lo: v }
    }

    /// The amount whose high half is `hi` and low half is `lo`.
    pub fn from_parts(hi: u128, lo: u128) -> (r: Amount)
        ensures
            r@ == hi as nat * half_base() + lo as nat,
    {
        Amount { hi, lo }
    }

    /// Whether the amount is zero.
    pub fn is_zero(&self) -> (r: bool)
        ensures
            r <==> self@ == 0,
    {
        proof {
            if self.hi > 0 {
                assert(self.hi as nat * half_base() >= half_base()) by (nonlinear_arith)
                    requires
                        self.hi > 0,
                ;
            } else {
                assert(self.hi as nat * half_base() == 0);
            }
        }
        self.hi == 0 && self.lo == 0
    }

    /// Whether `self < other`.
    pub fn lt(&self, other: &Amount) -> (r: bool)
        ensures
            r <==> self@ < other@,
    {
        if self.hi == other.hi {
            self.lo < other.lo
        } else {
            proof {
                if self.hi < other.hi {
                    assert(self.hi as nat * half_base() + half_base() <= other.hi as nat * half_base())
                        by (nonlinear_arith)
                        requires
                            self.hi < other.hi,
                    ;
                } else {
                    assert(other.hi as nat * half_base() + half_base() <= self.hi as nat * half_base())
                        by (nonlinear_arith)
                        requires
                            other.hi < self.hi,
                    ;
                }
            }
            self.hi < other.hi
        }
    }

    /// `self + other`, or `None` when the sum exceeds `2^256 - 1`.
    pub fn checked_add(&self, other: &Amount) -> (r: Option<Amount>)
        ensures
            r.is_some() <==> self@ + other@ <= amount_max(),
            r matches Some(c) ==> c@ == self@ + other@,
    {
        let lo: u128;
        let carry: u128;
        if self.lo <= u128::MAX - other.lo {
            lo = self.lo + other.lo;
            carry = 0;
        } else {
            lo = self.lo - (u128::MAX - other.lo) - 1;
            carry = 1;
        }
        assert(lo as nat + carry as nat * half_base() == self.lo as nat + other.lo as nat);
        if self.hi <= u128::MAX - other.hi && carry <= u128::MAX - self.hi - other.hi {
            let c = Amount { hi: self.hi + other.hi + carry, lo };
            assert(c@ == self@ + other@) by (nonlinear_arith)
                requires
                    c.hi as nat == self.hi as nat + other.hi as nat + carry as nat,
                    lo as nat + carry as nat * half_base() == self.lo as nat + other.lo as nat,
                    c.lo == lo,
            ;
            proof {
                lemma_amount_bounded(c);
            }
            Some(c)
        } else {
            assert(self@ + other@ > amount_max()) by (nonlinear_arith)
                requires
                    self.hi as nat + other.hi as nat + carry as nat >= half_base(),
                    lo as nat + carry as nat * half_base() == self.lo as nat + other.lo as nat,
                    amount_max() == half_base() * half_base() - 1,
                    half_base() > 0,
            ;
            None
        }
    }

    /// `self - other`, or `None` when `other > self`.
    pub fn checked_sub(&self, other: &Amount) -> (r: Option<Amount>)
        ensures
            r.is_some() <==> other@ <= self@,
            r matches Some(c) ==> c@ == self@ - other@,
    {
        if self.lt(other) {
            None
        } else {
            let lo: u128;
            let borrow: u128;
            if other.lo <= self.lo {
                lo = self.lo - other.lo;
                borrow = 0;
            } else {
                lo = u128::MAX - (other.lo - self.lo) + 1;
                borrow = 1;
            }
            assert(lo as nat == self.lo as nat + borrow as nat * half_base() - other.lo as nat);
            assert(other.hi + borrow <= self.hi) by (nonlinear_arith)
                requires
                    other@ <= self@,
                    other@ == other.hi as nat * half_base() + other.lo as nat,
                    self@ == self.hi as nat * half_base() + self.lo as nat,
                    borrow == 1 ==> self.lo < other.lo,
                    self.lo < half_base(),
                    other.lo < half_base(),
                    borrow <= 1,
            ;
            let c = Amount { hi: self.hi - other.hi - borrow, lo };
            assert(c@ == self@ - other@) by (nonlinear_arith)
                requires
                    c.hi as nat == self.hi as nat - other.hi as nat - borrow as nat,
                    lo as nat == self.lo as nat + borrow as nat * half_base() - other.lo as nat,
                    c.lo == lo,
                    other.hi as nat + borrow as nat <= self.hi as nat,
            ;
            Some(c)
        }
    }

    /// `min(self + other, 2^256 - 1)`.
    pub fn saturating_add(&self, other: &Amount) -> (r: Amount)
        ensures
            r@ == if self@ + other@ <= amount_max() { self@ + other@ } else { amount_max() },
    {
        match self.checked_add(other) {
            Some(c) => c,
            None => Amount::max_value(),
        }
    }

    /// `max(self - other, 0)`.
    pub fn saturating_sub(&self, other: &Amount) -> (r: Amount)
        ensures
            r@ == if other@ <= self@ { self@ - other@ } else { 0 },
    {
        match self.checked_sub(other) {
            Some(c) => c,
            None => Amount::zero(),
        }
    }
}

} // verus!
