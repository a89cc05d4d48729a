//! Exact fractions in the half-open interval from zero to one.

use vstd::prelude::*;

verus! {

/// A fraction `numer / denom` with `0 <= numer < denom`.
///
/// The two parts are kept as given: `1/2` and `2/4` are different values that
/// stand for the same fraction.
#[derive(Clone, Copy, Debug, PartialEq, Eq, Structural)]
pub struct Ratio {
    num: u32,
    den: u32,
}

impl Ratio {
    /// The numerator.
    pub closed spec fn numer(self) -> nat {
        self.num as nat
    }

    /// The denominator.
    pub closed spec fn denom(self) -> nat {
        self.den as nat
    }

    /// The fraction lies in `[0, 1)`.
    pub open spec fn wf(self) -> bool {
        self.numer() < self.denom()
    }

    /// `self <= other` as fractions, compared by cross multiplication.
    pub open spec fn le(self, other: Ratio) -> bool {
        self.numer() * other.denom() <= other.numer() * self.denom()
    }

    /// `self < other` as fractions.
    pub open spec fn lt(self, other: Ratio) -> bool {
        self.numer() * other.denom() < other.numer() * self.denom()
    }

    /// The value with numerator `num` and denominator `den`.
    pub closed spec fn of(num: u32, den: u32) -> Ratio {
        Ratio { num, den }
    }

    /// The fraction `num / den`, or `None` where it does not lie in `[0, 1)`.
    pub fn new(num: u32, den: u32) -> (r: Option<Ratio>)
        ensures
            r == if num < den {
                Some(Ratio::of(num, den))
            } else {
                None
            },
            r matches Some(ratio) ==> ratio.wf() && ratio.numer() == num && ratio.denom() == den,
    {
        if num < den {
            Some(Ratio { num, den })
        } else {
            None
        }
    }

    /// The part of a period of `period` steps that lies behind after `count`
    /// steps: the fraction `(count mod period) / period`.
    pub fn cyclic(count: u64, period: u32) -> (r: Ratio)
        requires
            period > 0,
        ensures
            r == Ratio::of((count % (period as u64)) as u32, period),
            r.wf(),
            r.numer() == count % (period as u64),
            r.denom() == period,
    {
        Ratio { num: (count % period as u64) as u32, den: period }
    }

    /// The numerator.
    pub fn numerator(&self) -> (n: u32)
        ensures
            n == self.numer(),
    {
        self.num
    }

    /// The denominator.
    pub fn denominator(&self) -> (d: u32)
        ensures
            d == self.denom(),
    {
        self.den
    }

    /// The whole part of `scale * self`, rounded toward zero.
    pub fn scale(&self, scale: u32) -> (scaled: u32)
        requires
            self.wf(),
        ensures
            scaled == scaled_floor(scale as nat, *self),
            scaled <= scale,
    {
        proof {
            lemma_scaled_floor_bounds(scale as nat, *self);
            assert(scale as nat * self.num as nat <= 0xffff_ffff * 0xffff_ffff) by (nonlinear_arith)
                requires
                    scale as nat <= 0xffff_ffff,
                    self.num as nat <= 0xffff_ffff,
            ;
        }
        let product: u64 = scale as u64 * self.num as u64;
        (product / self.den as u64) as u32
    }
}

/// The two parts of `Ratio::of(num, den)` are `num` and `den`, and a value is
/// known by its two parts.
pub proof fn lemma_ratio_parts(num: u32, den: u32)
    ensures
        Ratio::of(num, den).numer() == num,
        Ratio::of(num, den).denom() == den,
        forall|r: Ratio| r.numer() == num && r.denom() == den ==> r == Ratio::of(num, den),
{
}

/// `floor(scale * ratio)`: the product of `scale` and the numerator, divided
/// by the denominator with the remainder dropped.
pub open spec fn scaled_floor(scale: nat, ratio: Ratio) -> nat {
    (scale * ratio.numer()) / ratio.denom()
}

/// `floor(scale * ratio)` is the one whole number `q` with
/// `q <= scale * ratio < q + 1`, and it never exceeds `scale`.
pub proof fn lemma_scaled_floor_bounds(scale: nat, ratio: Ratio)
    requires
        ratio.wf(),
    ensures
        scaled_floor(scale, ratio) <= scale,
        scale > 0 ==> scaled_floor(scale, ratio) < scale,
        scaled_floor(scale, ratio) * ratio.denom() <= scale * ratio.numer(),
        scale * ratio.numer() < (scaled_floor(scale, ratio) + 1) * ratio.denom(),
{
    let n = ratio.numer() as int;
    let d = ratio.denom() as int;
    let s = scale as int;
    let q = (s * n) / d;
    assert(q * d <= s * n < (q + 1) * d && 0 <= q) by (nonlinear_arith)
        requires
            q == (s * n) / d,
            0 < d,
            0 <= s * n,
    ;
    assert(q <= s && (s > 0 ==> q < s)) by (nonlinear_arith)
        requires
            q * d <= s * n,
            0 <= n < d,
            0 <= s,
            0 <= q,
    ;
}

/// A larger fraction never gives a smaller whole part, for one scale.
pub proof fn lemma_scaled_floor_monotonic(scale: nat, low: Ratio, high: Ratio)
    requires
        low.wf(),
        high.wf(),
        low.le(high),
    ensures
        scaled_floor(scale, low) <= scaled_floor(scale, high),
{
    lemma_scaled_floor_bounds(scale, low);
    lemma_scaled_floor_bounds(scale, high);
    let s = scale as int;
    let n1 = low.numer() as int;
    let d1 = low.denom() as int;
    let n2 = high.numer() as int;
    let d2 = high.denom() as int;
    let q1 = scaled_floor(scale, low) as int;
    let q2 = scaled_floor(scale, high) as int;
    assert(q1 * d1 * d2 <= s * n1 * d2) by (nonlinear_arith)
        requires
            q1 * d1 <= s * n1,
            0 < d2,
    ;
    assert(s * n1 * d2 <= s * n2 * d1) by (nonlinear_arith)
        requires
            n1 * d2 <= n2 * d1,
            0 <= s,
    ;
    assert(s * n2 * d1 < (q2 + 1) * d2 * d1) by (nonlinear_arith)
        requires
            s * n2 < (q2 + 1) * d2,
            0 < d1,
    ;
    assert(q1 < q2 + 1) by (nonlinear_arith)
        requires
            q1 * d1 * d2 < (q2 + 1) * d2 * d1,
            0 < d1,
            0 < d2,
    ;
}

} // verus!
