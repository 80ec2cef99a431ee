use vstd::prelude::*;
use core::cmp::Ordering;
use vstd::std_specs::cmp::PartialOrdSpec;
use vstd::std_specs::ops::{AddSpec, DivSpec, MulSpec, SubSpec};

verus! {

/// Rust's truncating division on mathematical integers (rounds toward zero).
pub open spec fn trunc_div(a: int, b: int) -> int {
    if a >= 0 {
        a / b
    } else {
        -((-a) / b)
    }
}

/// A fixed-point price: the raw integer counts units of `1 / PRECISION` of a rouble.
#[derive(Debug, Clone, Copy, PartialEq, Eq, Ord, Structural)]
pub struct Price(pub i128);

impl View for Price {
    type V = int;

    open spec fn view(&self) -> int {
        self.0 as int
    }
}

/// Whether an integer fits the raw representation of a price.
pub open spec fn fits_raw(x: int) -> bool {
    i128::MIN <= x <= i128::MAX
}

impl Price {
    /// Number of raw units in one rouble.
    pub const PRECISION: i128 = 10_000_000_000_000_000;

    /// The zero price.
    pub fn zero() -> (p: Price)
        ensures
            p@ == 0,
    {
        Price(0)
    }

    /// Builds a price from its raw fixed-point value.
    pub fn new(raw: i128) -> (p: Price)
        ensures
            p@ == raw,
    {
        Price(raw)
    }

    /// The raw fixed-point value.
    pub fn raw(&self) -> (r: i128)
        ensures
            r == self@,
    {
        self.0
    }
}

/// Prices compare as their raw values.
pub open spec fn order_of(a: int, b: int) -> Option<Ordering> {
    if a < b {
        Some(Ordering::Less)
    } else if a > b {
        Some(Ordering::Greater)
    } else {
        Some(Ordering::Equal)
    }
}

impl PartialOrd for Price {
    fn partial_cmp(&self, other: &Price) -> (r: Option<Ordering>) {
        if self.0 < other.0 {
            Some(Ordering::Less)
        } else if self.0 > other.0 {
            Some(Ordering::Greater)
        } else {
            Some(Ordering::Equal)
        }
    }
}

impl vstd::std_specs::cmp::PartialOrdSpecImpl for Price {
    open spec fn obeys_partial_cmp_spec() -> bool {
        true
    }

    open spec fn partial_cmp_spec(&self, other: &Price) -> Option<Ordering> {
        order_of(self@, other@)
    }
}

impl core::ops::Add for Price {
    type Output = Price;

    fn add(self, other: Price) -> (r: Price) {
        Price(self.0 + other.0)
    }
}

impl vstd::std_specs::ops::AddSpecImpl for Price {
    open spec fn obeys_add_spec() -> bool {
        true
    }

    open spec fn add_req(self, other: Price) -> bool {
        fits_raw(self@ + other@)
    }

    open spec fn add_spec(self, other: Price) -> Price {
        Price((self@ + other@) as i128)
    }
}

impl core::ops::Sub for Price {
    type Output = Price;

    fn sub(self, other: Price) -> (r: Price) {
        Price(self.0 - other.0)
    }
}

impl vstd::std_specs::ops::SubSpecImpl for Price {
    open spec fn obeys_sub_spec() -> bool {
        true
    }

    open spec fn sub_req(self, other: Price) -> bool {
        fits_raw(self@ - other@)
    }

    open spec fn sub_spec(self, other: Price) -> Price {
        Price((self@ - other@) as i128)
    }
}

impl core::ops::Mul<i64> for Price {
    type Output = Price;

    fn mul(self, scalar: i64) -> (r: Price) {
        Price(self.0 * scalar as i128)
    }
}

impl vstd::std_specs::ops::MulSpecImpl<i64> for Price {
    open spec fn obeys_mul_spec() -> bool {
        true
    }

    open spec fn mul_req(self, scalar: i64) -> bool {
        fits_raw(self@ * scalar)
    }

    open spec fn mul_spec(self, scalar: i64) -> Price {
        Price((self@ * scalar) as i128)
    }
}

impl core::ops::Div<i64> for Price {
    type Output = Price;

    #[verifier::nonlinear]
    fn div(self, scalar: i64) -> (r: Price) {
        Price(self.0 / scalar as i128)
    }
}

impl vstd::std_specs::ops::DivSpecImpl<i64> for Price {
    open spec fn obeys_div_spec() -> bool {
        true
    }

    open spec fn div_req(self, scalar: i64) -> bool {
        scalar != 0 && !(self@ == i128::MIN && scalar == -1)
    }

    open spec fn div_spec(self, scalar: i64) -> Price {
        Price(trunc_div(self@, scalar as int) as i128)
    }
}

} // verus!

verus! {

proof fn lemma_trunc_div_exact(a: int, k: int)
    requires
        k != 0,
    ensures
        trunc_div(a * k, k) == a,
{
    if a * k >= 0 {
        assert((a * k) / k == a) by (nonlinear_arith)
            requires
                k != 0,
        ;
    } else {
        assert((-(a * k)) / k == -a) by (nonlinear_arith)
            requires
                k != 0,
        ;
    }
}

/// Law: subtracting the price just added gives back the original price.
pub proof fn lemma_add_then_sub(a: Price, b: Price)
    requires
        a.add_req(b),
    ensures
        a.add_spec(b).sub_req(b),
        a.add_spec(b).sub_spec(b) == a,
{
}

/// Law: adding the price just subtracted gives back the original price.
pub proof fn lemma_sub_then_add(a: Price, b: Price)
    requires
        a.sub_req(b),
    ensures
        a.sub_spec(b).add_req(b),
        a.sub_spec(b).add_spec(b) == a,
{
}

/// Law: dividing by the non-zero scalar just multiplied by gives back the original price.
pub proof fn lemma_mul_then_div(a: Price, k: i64)
    requires
        k != 0,
        a.mul_req(k),
    ensures
        a.mul_spec(k).div_req(k),
        a.mul_spec(k).div_spec(k) == a,
{
    lemma_trunc_div_exact(a@, k as int);
}

/// Law: addition of prices does not depend on the order of the operands.
pub proof fn lemma_add_commutes(a: Price, b: Price)
    requires
        a.add_req(b),
    ensures
        b.add_req(a),
        a.add_spec(b) == b.add_spec(a),
{
}

/// Law: prices are ordered exactly as their raw values, and equal exactly when these are.
pub proof fn lemma_price_order(a: Price, b: Price)
    ensures
        (a.partial_cmp_spec(&b) == Some(Ordering::Less)) <==> a@ < b@,
        (a.partial_cmp_spec(&b) == Some(Ordering::Greater)) <==> a@ > b@,
        (a.partial_cmp_spec(&b) == Some(Ordering::Equal)) <==> a@ == b@,
        (a == b) <==> a@ == b@,
{
}

/// Law: the operators act on raw values exactly: sum, difference and scalar product of the
/// raw values, wherever the result fits.
pub proof fn lemma_operators_on_raw_values(a: Price, b: Price, k: i64)
    ensures
        a.add_req(b) ==> a.add_spec(b)@ == a@ + b@,
        a.sub_req(b) ==> a.sub_spec(b)@ == a@ - b@,
        a.mul_req(k) ==> a.mul_spec(k)@ == a@ * k,
{
}

proof fn lemma_div_negative_divisor(n: int, m: int)
    requires
        n >= 0,
        m < 0,
    ensures
        n / m == -(n / (-m)),
{
    let d = -m;
    let q = n / d;
    let r = n % d;
    vstd::arithmetic::div_mod::lemma_fundamental_div_mod(n, d);
    vstd::arithmetic::div_mod::lemma_mod_bound(n, d);
    vstd::arithmetic::div_mod::lemma_fundamental_div_mod(n, m);
    assert(n / m == -q) by (nonlinear_arith)
        requires
            d == -m,
            d > 0,
            n == d * q + r,
            0 <= r < d,
            n == m * (n / m) + n % m,
    ;
}

/// Truncating division of `x` by a positive `d`, and by its negation, in terms of the
/// quotient of the magnitudes.
proof fn lemma_trunc_div_magnitude(x: int, m: int)
    requires
        m != 0,
    ensures
        ({
            let ax = if x >= 0 { x } else { -x };
            let am = if m > 0 { m } else { -m };
            let q = ax / am;
            &&& 0 <= q <= ax
            &&& 0 <= ax - q * am < am
            &&& trunc_div(x, m) == if (x >= 0) == (m > 0) { q } else { -q }
        }),
{
    let ax = if x >= 0 { x } else { -x };
    let am = if m > 0 { m } else { -m };
    vstd::arithmetic::div_mod::lemma_fundamental_div_mod(ax, am);
    vstd::arithmetic::div_mod::lemma_mod_bound(ax, am);
    vstd::arithmetic::div_mod::lemma_div_pos_is_pos(ax, am);
    vstd::arithmetic::div_mod::lemma_div_is_ordered_by_denominator(ax, 1, am);
    assert(ax / 1 == ax);
    if m < 0 {
        lemma_div_negative_divisor(ax, m);
    }
}

/// Law: division by a scalar rounds toward zero: the quotient times the scalar stays on the
/// side of zero where the price is, within one scalar of it.
pub proof fn lemma_div_rounds_toward_zero(a: Price, k: i64)
    requires
        a.div_req(k),
    ensures
        ({
            let q = a.div_spec(k)@;
            let r = a@ - q * k;
            &&& a@ >= 0 ==> 0 <= r < (if k > 0 { k as int } else { -k })
            &&& a@ < 0 ==> -(if k > 0 { k as int } else { -k }) < r <= 0
        }),
{
    let x = a@;
    let m: int = k as int;
    lemma_trunc_div_magnitude(x, m);
    let ax = if x >= 0 { x } else { -x };
    let am = if m > 0 { m } else { -m };
    let q = ax / am;
    let t = trunc_div(x, m);
    if x == i128::MIN && m < 0 {
        assert(am >= 2);
        assert(q <= ax / 2) by {
            vstd::arithmetic::div_mod::lemma_div_is_ordered_by_denominator(ax, 2, am);
        }
    }
    assert(fits_raw(t));
    assert(a.div_spec(k)@ == t);
    if x >= 0 {
        assert(t * m == q * am) by (nonlinear_arith)
            requires
                t == (if m > 0 { q } else { -q }),
                am == (if m > 0 { m } else { -m }),
        ;
    } else {
        assert(t * m == -(q * am)) by (nonlinear_arith)
            requires
                t == (if m > 0 { -q } else { q }),
                am == (if m > 0 { m } else { -m }),
        ;
    }
}

} // verus!
