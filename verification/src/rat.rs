//! Exact rational arithmetic for pixel geometry.
//!
//! Every coordinate the renderer produces is an exact rational number: a
//! numerator over a positive denominator.  Executable values keep both parts
//! within `RAT_LIMIT` so that all intermediate products fit in `i128`;
//! results are reduced by the greatest common divisor after every operation.
//! The mathematical model (`RatV`) is an unbounded pair of integers, and two
//! pairs denote the same rational exactly when they cross-multiply equally.

use vstd::prelude::*;

verus! {

use vstd::arithmetic::div_mod::{
    lemma_fundamental_div_mod,
    lemma_mod_self_0,
    lemma_small_mod,
    lemma_mod_multiples_basic,
};

/// Bound on the magnitude of a stored numerator or denominator (2^62).
pub const RAT_LIMIT: i64 = 0x4000_0000_0000_0000;

/// An exact rational number held in machine words: `n / d` with `d > 0`.
#[derive(Clone, Copy, Debug, PartialEq, Eq, Structural)]
pub struct Rat {
    pub n: i64,
    pub d: i64,
}

/// The mathematical value of a rational: an unbounded numerator/denominator pair.
pub struct RatV {
    pub n: int,
    pub d: int,
}

impl View for Rat {
    type V = RatV;

    open spec fn view(&self) -> RatV {
        RatV { n: self.n as int, d: self.d as int }
    }
}

impl Rat {
    /// Both parts within range and the denominator positive.
    pub open spec fn wf(self) -> bool {
        &&& -RAT_LIMIT <= self.n <= RAT_LIMIT
        &&& 0 < self.d <= RAT_LIMIT
    }
}

/// A positive denominator: the well-formedness of the mathematical value.
pub open spec fn rv_wf(a: RatV) -> bool {
    a.d > 0
}

/// Two pairs denote the same rational number.
pub open spec fn rv_eq(a: RatV, b: RatV) -> bool {
    a.n * b.d == b.n * a.d
}

pub open spec fn rv_int(v: int) -> RatV {
    RatV { n: v, d: 1 }
}

pub open spec fn rv_add(a: RatV, b: RatV) -> RatV {
    RatV { n: a.n * b.d + b.n * a.d, d: a.d * b.d }
}

pub open spec fn rv_sub(a: RatV, b: RatV) -> RatV {
    RatV { n: a.n * b.d - b.n * a.d, d: a.d * b.d }
}

pub open spec fn rv_mul(a: RatV, b: RatV) -> RatV {
    RatV { n: a.n * b.n, d: a.d * b.d }
}

/// Division, with the sign moved into the numerator so the denominator stays
/// positive whenever `b.n != 0` and both inputs are well-formed.
pub open spec fn rv_div(a: RatV, b: RatV) -> RatV {
    if b.n < 0 {
        RatV { n: -(a.n * b.d), d: -(a.d * b.n) }
    } else {
        RatV { n: a.n * b.d, d: a.d * b.n }
    }
}

pub open spec fn rv_neg(a: RatV) -> RatV {
    RatV { n: -a.n, d: a.d }
}

pub open spec fn rv_abs(a: RatV) -> RatV {
    if a.n < 0 {
        RatV { n: -a.n, d: a.d }
    } else {
        a
    }
}

/// `a <= b`, by cross-multiplication (meaningful when both denominators are positive).
pub open spec fn rv_le(a: RatV, b: RatV) -> bool {
    a.n * b.d <= b.n * a.d
}

pub open spec fn rv_lt(a: RatV, b: RatV) -> bool {
    a.n * b.d < b.n * a.d
}

pub open spec fn rv_min(a: RatV, b: RatV) -> RatV {
    if rv_le(a, b) {
        a
    } else {
        b
    }
}

pub open spec fn rv_max(a: RatV, b: RatV) -> RatV {
    if rv_le(a, b) {
        b
    } else {
        a
    }
}

/// Greatest common divisor, by Euclid's recurrence.
pub open spec fn gcd(a: nat, b: nat) -> nat
    decreases b,
{
    if b == 0 {
        a
    } else {
        gcd(b, a % b)
    }
}

/// The magnitude of an integer, as a natural number.
pub open spec fn mag(n: int) -> nat {
    if n < 0 {
        (-n) as nat
    } else {
        n as nat
    }
}

/// Whether the value `v`, once fully reduced, fits the machine representation.
pub open spec fn rat_fits(v: RatV) -> bool
    recommends
        v.d > 0,
{
    let g = gcd(mag(v.n), v.d as nat);
    &&& mag(v.n) / g <= RAT_LIMIT as nat
    &&& (v.d as nat) / g <= RAT_LIMIT as nat
}

/// The canonical representative of a value: both parts divided by their
/// greatest common divisor.  Every arithmetic result is stored in this form,
/// so equal chains of operations produce identical machine representations.
pub open spec fn rv_canon(v: RatV) -> RatV
    recommends
        v.d > 0,
{
    let g = gcd(mag(v.n), v.d as nat) as int;
    RatV {
        n: if v.n < 0 {
            -((mag(v.n) / g as nat) as int)
        } else {
            (mag(v.n) / g as nat) as int
        },
        d: v.d / g,
    }
}

/// Canonical addition: the form every executable sum takes.
pub open spec fn ca_add(a: RatV, b: RatV) -> RatV {
    rv_canon(rv_add(a, b))
}

pub open spec fn ca_sub(a: RatV, b: RatV) -> RatV {
    rv_canon(rv_sub(a, b))
}

pub open spec fn ca_mul(a: RatV, b: RatV) -> RatV {
    rv_canon(rv_mul(a, b))
}

pub open spec fn ca_div(a: RatV, b: RatV) -> RatV {
    rv_canon(rv_div(a, b))
}

/// Shorthand for a constant value.
pub open spec fn rv_c(n: int, d: int) -> RatV {
    RatV { n, d }
}

/// Whether an executable addition of these values succeeds.
pub open spec fn add_ok(a: RatV, b: RatV) -> bool {
    rat_fits(rv_add(a, b))
}

pub open spec fn sub_ok(a: RatV, b: RatV) -> bool {
    rat_fits(rv_sub(a, b))
}

pub open spec fn mul_ok(a: RatV, b: RatV) -> bool {
    rat_fits(rv_mul(a, b))
}

/// Whether an executable division succeeds: a nonzero divisor and a
/// representable result.
pub open spec fn div_ok(a: RatV, b: RatV) -> bool {
    b.n != 0 && rat_fits(rv_div(a, b))
}

/// Reducing to canonical form keeps the denominator positive and the value equal.
pub proof fn lemma_canon(v: RatV)
    requires
        v.d > 0,
    ensures
        rv_wf(rv_canon(v)),
        rv_eq(rv_canon(v), v),
{
    let g = gcd(mag(v.n), v.d as nat) as int;
    lemma_gcd_divides(mag(v.n), v.d as nat);
    lemma_div_exact(mag(v.n) as int, g);
    lemma_div_exact(v.d, g);
    lemma_div_pos(v.d, g);
    let mq = mag(v.n) as int / g;
    let dq = v.d / g;
    assert(mq * v.d == mag(v.n) as int * dq) by (nonlinear_arith)
        requires
            g * mq == mag(v.n) as int,
            g * dq == v.d,
            g > 0,
    {}
    if v.n < 0 {
        assert(rv_canon(v).n * v.d == v.n * rv_canon(v).d) by (nonlinear_arith)
            requires
                mq * v.d == mag(v.n) as int * dq,
                rv_canon(v).n == -mq,
                rv_canon(v).d == dq,
                mag(v.n) as int == -v.n,
        {}
    }
}

proof fn lemma_gcd_divides(a: nat, b: nat)
    requires
        a != 0 || b != 0,
    ensures
        gcd(a, b) > 0,
        a % gcd(a, b) == 0,
        b % gcd(a, b) == 0,
    decreases b,
{
    if b == 0 {
        assert(gcd(a, b) == a);
        lemma_mod_self_0(a as int);
        lemma_small_mod(0, a);
    } else {
        let r = a % b;
        lemma_gcd_divides(b, r);
        let g = gcd(b, r);
        assert(gcd(a, b) == g);
        // a == b * (a / b) + r, and g divides both b and r, so g divides a.
        lemma_fundamental_div_mod(a as int, b as int);
        lemma_fundamental_div_mod(b as int, g as int);
        lemma_fundamental_div_mod(r as int, g as int);
        let q = a as int / b as int;
        let kb = b as int / g as int;
        let kr = r as int / g as int;
        assert(b as int == g * kb);
        assert(r as int == g * kr);
        assert(a as int == g * (kb * q + kr)) by (nonlinear_arith)
            requires
                a as int == b as int * q + r as int,
                b as int == g * kb,
                r as int == g * kr,
        {}
        lemma_mod_multiples_basic(kb * q + kr, g as int);
    }
}

/// Exact division: if `g` divides `x`, multiplying back recovers `x`.
proof fn lemma_div_exact(x: int, g: int)
    requires
        g > 0,
        x % g == 0,
    ensures
        g * (x / g) == x,
{
    lemma_fundamental_div_mod(x, g);
}

fn gcd_u128(a: u128, b: u128) -> (g: u128)
    ensures
        g as nat == gcd(a as nat, b as nat),
    decreases b,
{
    if b == 0 {
        a
    } else {
        gcd_u128(b, a % b)
    }
}

/// A numeric result that stayed within the machine range, or `None` when the
/// reduced value would not fit.
impl Rat {
    /// The rational `v / 1`.
    pub fn whole(v: i64) -> (r: Rat)
        requires
            -RAT_LIMIT <= v <= RAT_LIMIT,
        ensures
            r.wf(),
            r@ == rv_int(v as int),
    {
        Rat { n: v, d: 1 }
    }

    /// The rational `n / d`, stored as given.
    pub fn frac(n: i64, d: i64) -> (r: Rat)
        requires
            -RAT_LIMIT <= n <= RAT_LIMIT,
            0 < d <= RAT_LIMIT,
        ensures
            r.wf(),
            r@ == (RatV { n: n as int, d: d as int }),
    {
        Rat { n, d }
    }

    pub fn is_zero(&self) -> (r: bool)
        ensures
            r == (self@.n == 0),
    {
        self.n == 0
    }

    pub fn neg(&self) -> (r: Rat)
        requires
            self.wf(),
        ensures
            r.wf(),
            r@ == rv_neg(self@),
    {
        Rat { n: -self.n, d: self.d }
    }

    pub fn abs(&self) -> (r: Rat)
        requires
            self.wf(),
        ensures
            r.wf(),
            r@ == rv_abs(self@),
    {
        if self.n < 0 {
            Rat { n: -self.n, d: self.d }
        } else {
            *self
        }
    }

    pub fn le(&self, other: &Rat) -> (r: bool)
        requires
            self.wf(),
            other.wf(),
        ensures
            r == rv_le(self@, other@),
    {
        proof {
            lemma_mul_range(self.n as int, other.d as int);
            lemma_mul_range(other.n as int, self.d as int);
        }
        (self.n as i128) * (other.d as i128) <= (other.n as i128) * (self.d as i128)
    }

    pub fn lt(&self, other: &Rat) -> (r: bool)
        requires
            self.wf(),
            other.wf(),
        ensures
            r == rv_lt(self@, other@),
    {
        proof {
            lemma_mul_range(self.n as int, other.d as int);
            lemma_mul_range(other.n as int, self.d as int);
        }
        (self.n as i128) * (other.d as i128) < (other.n as i128) * (self.d as i128)
    }

    /// Whether two representations denote the same rational number.
    pub fn eq_val(&self, other: &Rat) -> (r: bool)
        requires
            self.wf(),
            other.wf(),
        ensures
            r == rv_eq(self@, other@),
    {
        proof {
            lemma_mul_range(self.n as int, other.d as int);
            lemma_mul_range(other.n as int, self.d as int);
        }
        (self.n as i128) * (other.d as i128) == (other.n as i128) * (self.d as i128)
    }

    pub fn min(&self, other: &Rat) -> (r: Rat)
        requires
            self.wf(),
            other.wf(),
        ensures
            r.wf(),
            r@ == rv_min(self@, other@),
    {
        if self.le(other) {
            *self
        } else {
            *other
        }
    }

    pub fn max(&self, other: &Rat) -> (r: Rat)
        requires
            self.wf(),
            other.wf(),
        ensures
            r.wf(),
            r@ == rv_max(self@, other@),
    {
        if self.le(other) {
            *other
        } else {
            *self
        }
    }

    pub fn add(&self, other: &Rat) -> (r: Option<Rat>)
        requires
            self.wf(),
            other.wf(),
        ensures
            r matches Some(c) ==> c.wf() && c@ == ca_add(self@, other@),
            r is None <==> !rat_fits(rv_add(self@, other@)),
    {
        proof {
            lemma_mul_range(self.n as int, other.d as int);
            lemma_mul_range(other.n as int, self.d as int);
            lemma_mul_range(self.d as int, other.d as int);
            lemma_mul_pos(self.d as int, other.d as int);
        }
        let num: i128 = (self.n as i128) * (other.d as i128) + (other.n as i128) * (self.d as i128);
        let den: i128 = (self.d as i128) * (other.d as i128);
        reduce(num, den)
    }

    pub fn sub(&self, other: &Rat) -> (r: Option<Rat>)
        requires
            self.wf(),
            other.wf(),
        ensures
            r matches Some(c) ==> c.wf() && c@ == ca_sub(self@, other@),
            r is None <==> !rat_fits(rv_sub(self@, other@)),
    {
        proof {
            lemma_mul_range(self.n as int, other.d as int);
            lemma_mul_range(other.n as int, self.d as int);
            lemma_mul_range(self.d as int, other.d as int);
            lemma_mul_pos(self.d as int, other.d as int);
        }
        let num: i128 = (self.n as i128) * (other.d as i128) - (other.n as i128) * (self.d as i128);
        let den: i128 = (self.d as i128) * (other.d as i128);
        reduce(num, den)
    }

    pub fn mul(&self, other: &Rat) -> (r: Option<Rat>)
        requires
            self.wf(),
            other.wf(),
        ensures
            r matches Some(c) ==> c.wf() && c@ == ca_mul(self@, other@),
            r is None <==> !rat_fits(rv_mul(self@, other@)),
    {
        proof {
            lemma_mul_range(self.n as int, other.n as int);
            lemma_mul_range(self.d as int, other.d as int);
            lemma_mul_pos(self.d as int, other.d as int);
        }
        let num: i128 = (self.n as i128) * (other.n as i128);
        let den: i128 = (self.d as i128) * (other.d as i128);
        reduce(num, den)
    }

    /// Division; `None` when the divisor is zero or the reduced result does not fit.
    pub fn div(&self, other: &Rat) -> (r: Option<Rat>)
        requires
            self.wf(),
            other.wf(),
        ensures
            r matches Some(c) ==> c.wf() && c@ == ca_div(self@, other@),
            r is None <==> other@.n == 0 || !rat_fits(rv_div(self@, other@)),
    {
        proof {
            lemma_mul_range(self.n as int, other.d as int);
            lemma_mul_range(self.d as int, other.n as int);
        }
        let num0: i128 = (self.n as i128) * (other.d as i128);
        let den0: i128 = (self.d as i128) * (other.n as i128);
        if den0 == 0 {
            proof {
                lemma_zero_product(self.d as int, other.n as int);
            }
            None
        } else if den0 < 0 {
            proof {
                lemma_neg_product(self.d as int, other.n as int);
            }
            reduce(-num0, -den0)
        } else {
            proof {
                lemma_pos_product(self.d as int, other.n as int);
            }
            reduce(num0, den0)
        }
    }
}

proof fn lemma_mul_range(a: int, b: int)
    requires
        -RAT_LIMIT <= a <= RAT_LIMIT,
        -RAT_LIMIT <= b <= RAT_LIMIT,
    ensures
        -(RAT_LIMIT as int * RAT_LIMIT as int) <= a * b <= RAT_LIMIT as int * RAT_LIMIT as int,
{
    assert(-(RAT_LIMIT as int * RAT_LIMIT as int) <= a * b <= RAT_LIMIT as int * RAT_LIMIT as int)
        by (nonlinear_arith)
        requires
            -RAT_LIMIT <= a <= RAT_LIMIT,
            -RAT_LIMIT <= b <= RAT_LIMIT,
    {}
}

proof fn lemma_mul_pos(a: int, b: int)
    requires
        a > 0,
        b > 0,
    ensures
        a * b > 0,
{
    assert(a * b > 0) by (nonlinear_arith)
        requires
            a > 0,
            b > 0,
    {}
}

proof fn lemma_zero_product(a: int, b: int)
    requires
        a * b == 0,
        a != 0,
    ensures
        b == 0,
{
    assert(b == 0) by (nonlinear_arith)
        requires
            a * b == 0,
            a != 0,
    {}
}

proof fn lemma_neg_product(a: int, b: int)
    requires
        a * b < 0,
        a > 0,
    ensures
        b < 0,
{
    assert(b < 0) by (nonlinear_arith)
        requires
            a * b < 0,
            a > 0,
    {}
}

proof fn lemma_pos_product(a: int, b: int)
    requires
        a * b > 0,
        a > 0,
    ensures
        b > 0,
{
    assert(b > 0) by (nonlinear_arith)
        requires
            a * b > 0,
            a > 0,
    {}
}

/// Reduce `n / d` by the greatest common divisor and pack it into machine words.
fn reduce(n: i128, d: i128) -> (r: Option<Rat>)
    requires
        d > 0,
        -0x4000_0000_0000_0000_0000_0000_0000_0000 < n < 0x4000_0000_0000_0000_0000_0000_0000_0000,
        d < 0x4000_0000_0000_0000_0000_0000_0000_0000,
    ensures
        r matches Some(c) ==> c.wf() && c@ == rv_canon(RatV { n: n as int, d: d as int }),
        r is None <==> !rat_fits(RatV { n: n as int, d: d as int }),
{
    let neg: bool = n < 0;
    let m: u128 = if n < 0 {
        (-n) as u128
    } else {
        n as u128
    };
    assert(m as nat == mag(n as int));
    let du: u128 = d as u128;
    let g: u128 = gcd_u128(m, du);
    proof {
        lemma_gcd_divides(m as nat, du as nat);
    }
    let nm: u128 = m / g;
    let dm: u128 = du / g;
    if nm > RAT_LIMIT as u128 || dm > RAT_LIMIT as u128 {
        None
    } else {
        proof {
            lemma_div_pos(du as int, g as int);
        }
        let rn: i64 = if neg {
            -(nm as i64)
        } else {
            nm as i64
        };
        Some(Rat { n: rn, d: dm as i64 })
    }
}

proof fn lemma_div_pos(x: int, g: int)
    requires
        x > 0,
        g > 0,
        x % g == 0,
    ensures
        x / g > 0,
{
    lemma_fundamental_div_mod(x, g);
    assert(x == g * (x / g));
    if x / g <= 0 {
        assert(g * (x / g) <= 0) by (nonlinear_arith)
            requires
                g > 0,
                x / g <= 0,
        {}
    }
}

// --- congruence of the spec operations with respect to value equality ---

pub proof fn lemma_rv_eq_trans(a: RatV, b: RatV, c: RatV)
    requires
        rv_eq(a, b),
        rv_eq(b, c),
        rv_wf(a),
        rv_wf(b),
        rv_wf(c),
    ensures
        rv_eq(a, c),
{
    assert(a.n * c.d == c.n * a.d) by (nonlinear_arith)
        requires
            a.n * b.d == b.n * a.d,
            b.n * c.d == c.n * b.d,
            b.d > 0,
    {}
}

pub proof fn lemma_add_cong(a: RatV, a2: RatV, b: RatV, b2: RatV)
    requires
        rv_eq(a, a2),
        rv_eq(b, b2),
        rv_wf(a),
        rv_wf(a2),
        rv_wf(b),
        rv_wf(b2),
    ensures
        rv_eq(rv_add(a, b), rv_add(a2, b2)),
{
    assert((a.n * b.d) * (a2.d * b2.d) == (a2.n * b2.d) * (a.d * b.d)) by (nonlinear_arith)
        requires
            a.n * a2.d == a2.n * a.d,
    {}
    assert((b.n * a.d) * (a2.d * b2.d) == (b2.n * a2.d) * (a.d * b.d)) by (nonlinear_arith)
        requires
            b.n * b2.d == b2.n * b.d,
    {}
    assert((a.n * b.d + b.n * a.d) * (a2.d * b2.d) == (a2.n * b2.d + b2.n * a2.d) * (a.d * b.d))
        by (nonlinear_arith)
        requires
            (a.n * b.d) * (a2.d * b2.d) == (a2.n * b2.d) * (a.d * b.d),
            (b.n * a.d) * (a2.d * b2.d) == (b2.n * a2.d) * (a.d * b.d),
    {}
}


pub proof fn lemma_sub_cong(a: RatV, a2: RatV, b: RatV, b2: RatV)
    requires
        rv_eq(a, a2),
        rv_eq(b, b2),
        rv_wf(a),
        rv_wf(a2),
        rv_wf(b),
        rv_wf(b2),
    ensures
        rv_eq(rv_sub(a, b), rv_sub(a2, b2)),
{
    assert((a.n * b.d) * (a2.d * b2.d) == (a2.n * b2.d) * (a.d * b.d)) by (nonlinear_arith)
        requires
            a.n * a2.d == a2.n * a.d,
    {}
    assert((b.n * a.d) * (a2.d * b2.d) == (b2.n * a2.d) * (a.d * b.d)) by (nonlinear_arith)
        requires
            b.n * b2.d == b2.n * b.d,
    {}
    assert((a.n * b.d - b.n * a.d) * (a2.d * b2.d) == (a2.n * b2.d - b2.n * a2.d) * (a.d * b.d))
        by (nonlinear_arith)
        requires
            (a.n * b.d) * (a2.d * b2.d) == (a2.n * b2.d) * (a.d * b.d),
            (b.n * a.d) * (a2.d * b2.d) == (b2.n * a2.d) * (a.d * b.d),
    {}
}

pub proof fn lemma_mul_cong(a: RatV, a2: RatV, b: RatV, b2: RatV)
    requires
        rv_eq(a, a2),
        rv_eq(b, b2),
        rv_wf(a),
        rv_wf(a2),
        rv_wf(b),
        rv_wf(b2),
    ensures
        rv_eq(rv_mul(a, b), rv_mul(a2, b2)),
{
    assert((a.n * b.n) * (a2.d * b2.d) == (a2.n * b2.n) * (a.d * b.d)) by (nonlinear_arith)
        requires
            a.n * a2.d == a2.n * a.d,
            b.n * b2.d == b2.n * b.d,
    {}
}

pub proof fn lemma_div_cong(a: RatV, a2: RatV, b: RatV, b2: RatV)
    requires
        rv_eq(a, a2),
        rv_eq(b, b2),
        rv_wf(a),
        rv_wf(a2),
        rv_wf(b),
        rv_wf(b2),
        b.n != 0,
    ensures
        b2.n != 0,
        rv_eq(rv_div(a, b), rv_div(a2, b2)),
{
    assert(b2.n != 0 && (b.n < 0) == (b2.n < 0)) by (nonlinear_arith)
        requires
            b.n * b2.d == b2.n * b.d,
            b.d > 0,
            b2.d > 0,
            b.n != 0,
    {}
    assert((a.n * b.d) * (a2.d * b2.n) == (a2.n * a.d) * (b2.n * b.d)) by (nonlinear_arith)
        requires
            a.n * a2.d == a2.n * a.d,
    {}
    assert((a2.n * b2.d) * (a.d * b.n) == (a2.n * a.d) * (b.n * b2.d)) by (nonlinear_arith)
    {}
    assert((a2.n * a.d) * (b2.n * b.d) == (a2.n * a.d) * (b.n * b2.d)) by (nonlinear_arith)
        requires
            b.n * b2.d == b2.n * b.d,
    {}
    assert((a.n * b.d) * (a2.d * b2.n) == (a2.n * b2.d) * (a.d * b.n));
    if b.n < 0 {
        assert(rv_eq(rv_div(a, b), rv_div(a2, b2))) by (nonlinear_arith)
            requires
                (a.n * b.d) * (a2.d * b2.n) == (a2.n * b2.d) * (a.d * b.n),
                b.n < 0,
                b2.n < 0,
                rv_div(a, b) == (RatV { n: -(a.n * b.d), d: -(a.d * b.n) }),
                rv_div(a2, b2) == (RatV { n: -(a2.n * b2.d), d: -(a2.d * b2.n) }),
        {}
    }
}

/// The raw operations keep denominators positive.
pub proof fn lemma_rv_wf_ops(a: RatV, b: RatV)
    requires
        rv_wf(a),
        rv_wf(b),
    ensures
        rv_wf(rv_add(a, b)),
        rv_wf(rv_sub(a, b)),
        rv_wf(rv_mul(a, b)),
        rv_wf(rv_neg(a)),
        rv_wf(rv_abs(a)),
        b.n != 0 ==> rv_wf(rv_div(a, b)),
        rv_wf(rv_min(a, b)),
        rv_wf(rv_max(a, b)),
{
    lemma_mul_pos(a.d, b.d);
    if b.n > 0 {
        lemma_mul_pos(a.d, b.n);
    }
    if b.n < 0 {
        lemma_mul_pos(a.d, -b.n);
        assert(a.d * -b.n == -(a.d * b.n)) by (nonlinear_arith) {}
    }
}

/// Multiplying and then dividing by the same nonzero rational is the identity.
pub proof fn lemma_mul_div_cancel(a: RatV, s: RatV)
    requires
        rv_wf(a),
        rv_wf(s),
        s.n != 0,
    ensures
        rv_eq(rv_div(rv_mul(a, s), s), a),
{
    assert((a.n * s.n) * s.d * a.d == a.n * ((a.d * s.d) * s.n)) by (nonlinear_arith) {}
    if s.n < 0 {
        assert(rv_eq(rv_div(rv_mul(a, s), s), a)) by (nonlinear_arith)
            requires
                s.n < 0,
                rv_div(rv_mul(a, s), s) == (RatV {
                    n: -((a.n * s.n) * s.d),
                    d: -((a.d * s.d) * s.n),
                }),
        {}
    } else {
        assert(rv_eq(rv_div(rv_mul(a, s), s), a)) by (nonlinear_arith)
            requires
                rv_div(rv_mul(a, s), s) == (RatV { n: (a.n * s.n) * s.d, d: (a.d * s.d) * s.n }),
        {}
    }
}

/// Adding and then subtracting the same rational is the identity.
pub proof fn lemma_add_sub_cancel(a: RatV, b: RatV)
    requires
        rv_wf(a),
        rv_wf(b),
    ensures
        rv_eq(rv_sub(rv_add(a, b), a), b),
{
    assert(rv_eq(rv_sub(rv_add(a, b), a), b)) by (nonlinear_arith)
        requires
            rv_sub(rv_add(a, b), a) == (RatV {
                n: (a.n * b.d + b.n * a.d) * a.d - a.n * (a.d * b.d),
                d: (a.d * b.d) * a.d,
            }),
            a.d > 0,
            b.d > 0,
    {}
}

/// Subtracting and then adding the same rational is the identity.
pub proof fn lemma_sub_add_cancel(a: RatV, b: RatV)
    requires
        rv_wf(a),
        rv_wf(b),
    ensures
        rv_eq(rv_add(rv_sub(a, b), b), a),
{
    assert(rv_eq(rv_add(rv_sub(a, b), b), a)) by (nonlinear_arith)
        requires
            rv_add(rv_sub(a, b), b) == (RatV {
                n: (a.n * b.d - b.n * a.d) * b.d + b.n * (a.d * b.d),
                d: (a.d * b.d) * b.d,
            }),
            a.d > 0,
            b.d > 0,
    {}
}

} // verus!
