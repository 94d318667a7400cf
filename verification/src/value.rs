//! The numeric domain of the calculator: exact rational numbers whose
//! numerator and denominator are machine integers. Every arithmetic
//! operation is exact; an operation whose result would leave the
//! representable range reports that instead of returning a wrong answer.

use vstd::prelude::*;

verus! {

/// An exact rational number `num / den` with `den >= 1`. Results are not
/// reduced to lowest terms; two values denote the same rational exactly
/// when they cross-multiply equally.
#[derive(Debug, Clone, Copy, PartialEq, Eq, Structural)]
pub struct Value {
    pub num: i64,
    pub den: i64,
}

/// Whether an unbounded integer fits the numerator or denominator field.
pub open spec fn in_range(x: int) -> bool {
    i64::MIN <= x <= i64::MAX
}

/// The absolute value of an unbounded integer.
pub open spec fn spec_abs(x: int) -> nat {
    if x >= 0 {
        x as nat
    } else {
        (-x) as nat
    }
}

impl Value {
    /// A value is well formed when its denominator is positive.
    pub open spec fn wf(self) -> bool {
        self.den >= 1
    }

    /// The integer `n` as a value.
    pub fn from_int(n: i64) -> (r: Value)
        ensures
            r == (Value { num: n, den: 1 as i64 }),
    {
        Value { num: n, den: 1 }
    }
}

/// Exact addition: `a/b + c/d = (a*d + c*b) / (b*d)`; `None` when an
/// intermediate product or the final pair leaves the representable range.
pub open spec fn spec_add(a: Value, b: Value) -> Option<Value> {
    let x = a.num * b.den;
    let y = b.num * a.den;
    let d = a.den * b.den;
    if in_range(x) && in_range(y) && in_range(x + y) && in_range(d) {
        Some(Value { num: (x + y) as i64, den: d as i64 })
    } else {
        None
    }
}

/// Exact subtraction, in the same manner as `spec_add`.
pub open spec fn spec_sub(a: Value, b: Value) -> Option<Value> {
    let x = a.num * b.den;
    let y = b.num * a.den;
    let d = a.den * b.den;
    if in_range(x) && in_range(y) && in_range(x - y) && in_range(d) {
        Some(Value { num: (x - y) as i64, den: d as i64 })
    } else {
        None
    }
}

/// Exact multiplication: `(a*c) / (b*d)`.
pub open spec fn spec_mul(a: Value, b: Value) -> Option<Value> {
    let x = a.num * b.num;
    let d = a.den * b.den;
    if in_range(x) && in_range(d) {
        Some(Value { num: x as i64, den: d as i64 })
    } else {
        None
    }
}

/// Exact division by a non-zero value: `(a/b) / (c/d) = (a*d) / (b*c)`,
/// with the sign moved into the numerator so the denominator stays
/// positive. Division by a zero value yields `None`; callers reject it
/// before dividing.
pub open spec fn spec_div(a: Value, b: Value) -> Option<Value> {
    if b.num > 0 {
        let x = a.num * b.den;
        let d = a.den * b.num;
        if in_range(x) && in_range(d) {
            Some(Value { num: x as i64, den: d as i64 })
        } else {
            None
        }
    } else if b.num < 0 {
        let t = a.num * b.den;
        let nb = -(b.num as int);
        let d = a.den * nb;
        if in_range(t) && in_range(-t) && in_range(nb) && in_range(d) {
            Some(Value { num: (-t) as i64, den: d as i64 })
        } else {
            None
        }
    } else {
        None
    }
}

/// Exact negation.
pub open spec fn spec_neg(a: Value) -> Option<Value> {
    if in_range(-(a.num as int)) {
        Some(Value { num: (-(a.num as int)) as i64, den: a.den })
    } else {
        None
    }
}

/// `acc * b^e` by repeated exact multiplication.
pub open spec fn spec_pow_step(acc: Value, b: Value, e: nat) -> Option<Value>
    decreases e,
{
    if e == 0 {
        Some(acc)
    } else {
        match spec_mul(acc, b) {
            Some(a2) => spec_pow_step(a2, b, (e - 1) as nat),
            None => None,
        }
    }
}

/// `b^e` for a non-negative integer exponent. Zero and the two unit
/// values are answered directly; any other base is raised by repeated
/// multiplication, which reports `None` as soon as a step leaves the
/// representable range.
pub open spec fn spec_pow_nat(b: Value, e: nat) -> Option<Value> {
    if b.num == 0 {
        if e == 0 {
            Some(Value { num: 1 as i64, den: 1 as i64 })
        } else {
            Some(Value { num: 0 as i64, den: 1 as i64 })
        }
    } else if b.num == b.den {
        Some(Value { num: 1 as i64, den: 1 as i64 })
    } else if b.num + b.den == 0 {
        if e % 2 == 0 {
            Some(Value { num: 1 as i64, den: 1 as i64 })
        } else {
            Some(Value { num: (-1) as i64, den: 1 as i64 })
        }
    } else {
        spec_pow_step(Value { num: 1 as i64, den: 1 as i64 }, b, e)
    }
}

/// `a ^ ex`, defined when the exponent denotes an integer. A negative
/// exponent inverts the base first, which requires a non-zero base. A
/// fractional exponent has no exact value and yields `None`.
pub open spec fn spec_pow(a: Value, ex: Value) -> Option<Value> {
    if spec_abs(ex.num as int) % (ex.den as nat) != 0 {
        None
    } else {
        let q = spec_abs(ex.num as int) / (ex.den as nat);
        if ex.num >= 0 {
            spec_pow_nat(a, q)
        } else if a.num == 0 {
            None
        } else if a.num > 0 {
            spec_pow_nat(Value { num: a.den, den: a.num }, q)
        } else if a.num == i64::MIN {
            None
        } else {
            spec_pow_nat(
                Value { num: (-(a.den as int)) as i64, den: (-(a.num as int)) as i64 },
                q,
            )
        }
    }
}

/// Addition of well-formed values keeps the denominator positive.
pub proof fn lemma_add_wf(a: Value, b: Value)
    requires
        a.wf(),
        b.wf(),
    ensures
        spec_add(a, b) matches Some(c) ==> c.wf(),
{
    assert(a.den * b.den >= 1) by (nonlinear_arith)
        requires
            a.den >= 1,
            b.den >= 1,
    ;
}

/// Subtraction of well-formed values keeps the denominator positive.
pub proof fn lemma_sub_wf(a: Value, b: Value)
    requires
        a.wf(),
        b.wf(),
    ensures
        spec_sub(a, b) matches Some(c) ==> c.wf(),
{
    assert(a.den * b.den >= 1) by (nonlinear_arith)
        requires
            a.den >= 1,
            b.den >= 1,
    ;
}

/// Multiplication of well-formed values keeps the denominator positive.
pub proof fn lemma_mul_wf(a: Value, b: Value)
    requires
        a.wf(),
        b.wf(),
    ensures
        spec_mul(a, b) matches Some(c) ==> c.wf(),
{
    assert(a.den * b.den >= 1) by (nonlinear_arith)
        requires
            a.den >= 1,
            b.den >= 1,
    ;
}

/// Division of well-formed values keeps the denominator positive.
pub proof fn lemma_div_wf(a: Value, b: Value)
    requires
        a.wf(),
        b.wf(),
    ensures
        spec_div(a, b) matches Some(c) ==> c.wf(),
{
    if b.num > 0 {
        assert(a.den * b.num >= 1) by (nonlinear_arith)
            requires
                a.den >= 1,
                b.num >= 1,
        ;
    } else if b.num < 0 {
        assert(a.den * (-(b.num as int)) >= 1) by (nonlinear_arith)
            requires
                a.den >= 1,
                -(b.num as int) >= 1,
        ;
    }
}

proof fn lemma_pow_step_wf(acc: Value, b: Value, e: nat)
    requires
        acc.wf(),
        b.wf(),
    ensures
        spec_pow_step(acc, b, e) matches Some(c) ==> c.wf(),
    decreases e,
{
    if e > 0 {
        lemma_mul_wf(acc, b);
        match spec_mul(acc, b) {
            Some(a2) => {
                lemma_pow_step_wf(a2, b, (e - 1) as nat);
            },
            None => {},
        }
    }
}

proof fn lemma_pow_nat_wf(b: Value, e: nat)
    requires
        b.wf(),
    ensures
        spec_pow_nat(b, e) matches Some(c) ==> c.wf(),
{
    if b.num != 0 && b.num != b.den && b.num + b.den != 0 {
        lemma_pow_step_wf(Value { num: 1 as i64, den: 1 as i64 }, b, e);
    }
}

/// Exponentiation of well-formed values keeps the denominator positive.
pub proof fn lemma_pow_wf(a: Value, ex: Value)
    requires
        a.wf(),
        ex.wf(),
    ensures
        spec_pow(a, ex) matches Some(c) ==> c.wf(),
{
    if spec_abs(ex.num as int) % (ex.den as nat) == 0 {
        let q = spec_abs(ex.num as int) / (ex.den as nat);
        if ex.num >= 0 {
            lemma_pow_nat_wf(a, q);
        } else if a.num > 0 {
            lemma_pow_nat_wf(Value { num: a.den, den: a.num }, q);
        } else if a.num != 0 && a.num != i64::MIN {
            lemma_pow_nat_wf(
                Value { num: (-(a.den as int)) as i64, den: (-(a.num as int)) as i64 },
                q,
            );
        }
    }
}

/// Exact addition; `None` when the result is not representable.
pub fn try_add(a: Value, b: Value) -> (r: Option<Value>)
    ensures
        r == spec_add(a, b),
{
    let x = match a.num.checked_mul(b.den) {
        Some(v) => v,
        None => { return None; },
    };
    let y = match b.num.checked_mul(a.den) {
        Some(v) => v,
        None => { return None; },
    };
    let n = match x.checked_add(y) {
        Some(v) => v,
        None => { return None; },
    };
    let d = match a.den.checked_mul(b.den) {
        Some(v) => v,
        None => { return None; },
    };
    Some(Value { num: n, den: d })
}

/// Exact subtraction; `None` when the result is not representable.
pub fn try_sub(a: Value, b: Value) -> (r: Option<Value>)
    ensures
        r == spec_sub(a, b),
{
    let x = match a.num.checked_mul(b.den) {
        Some(v) => v,
        None => { return None; },
    };
    let y = match b.num.checked_mul(a.den) {
        Some(v) => v,
        None => { return None; },
    };
    let n = match x.checked_sub(y) {
        Some(v) => v,
        None => { return None; },
    };
    let d = match a.den.checked_mul(b.den) {
        Some(v) => v,
        None => { return None; },
    };
    Some(Value { num: n, den: d })
}

/// Exact multiplication; `None` when the result is not representable.
pub fn try_mul(a: Value, b: Value) -> (r: Option<Value>)
    ensures
        r == spec_mul(a, b),
{
    let x = match a.num.checked_mul(b.num) {
        Some(v) => v,
        None => { return None; },
    };
    let d = match a.den.checked_mul(b.den) {
        Some(v) => v,
        None => { return None; },
    };
    Some(Value { num: x, den: d })
}

/// Exact division by a non-zero value; `None` when the divisor is zero or
/// the result is not representable.
pub fn try_div(a: Value, b: Value) -> (r: Option<Value>)
    ensures
        r == spec_div(a, b),
{
    if b.num > 0 {
        let x = match a.num.checked_mul(b.den) {
            Some(v) => v,
            None => { return None; },
        };
        let d = match a.den.checked_mul(b.num) {
            Some(v) => v,
            None => { return None; },
        };
        Some(Value { num: x, den: d })
    } else if b.num < 0 {
        let t = match a.num.checked_mul(b.den) {
            Some(v) => v,
            None => { return None; },
        };
        let n = match (0 as i64).checked_sub(t) {
            Some(v) => v,
            None => { return None; },
        };
        let nb = match (0 as i64).checked_sub(b.num) {
            Some(v) => v,
            None => { return None; },
        };
        let d = match a.den.checked_mul(nb) {
            Some(v) => v,
            None => { return None; },
        };
        Some(Value { num: n, den: d })
    } else {
        None
    }
}

/// Exact negation; `None` only for the one numerator with no negation.
pub fn try_neg(a: Value) -> (r: Option<Value>)
    ensures
        r == spec_neg(a),
{
    let n = match (0 as i64).checked_sub(a.num) {
        Some(v) => v,
        None => { return None; },
    };
    Some(Value { num: n, den: a.den })
}

/// The absolute value of `x` as an unsigned integer.
pub(crate) fn abs_u64(x: i64) -> (r: u64)
    ensures
        r as nat == spec_abs(x as int),
{
    if x >= 0 {
        x as u64
    } else if x == i64::MIN {
        9223372036854775808u64
    } else {
        (-x) as u64
    }
}

/// `b^e` for a machine-sized non-negative exponent.
fn try_pow_nat(b: Value, e: u64) -> (r: Option<Value>)
    requires
        b.wf(),
    ensures
        r == spec_pow_nat(b, e as nat),
{
    if b.num == 0 {
        if e == 0 {
            Some(Value { num: 1, den: 1 })
        } else {
            Some(Value { num: 0, den: 1 })
        }
    } else if b.num == b.den {
        Some(Value { num: 1, den: 1 })
    } else if b.num == -b.den {
        if e % 2 == 0 {
            Some(Value { num: 1, den: 1 })
        } else {
            Some(Value { num: -1, den: 1 })
        }
    } else {
        let mut acc = Value { num: 1, den: 1 };
        let mut i: u64 = e;
        while i > 0
            invariant
                b.num != 0 && b.num != b.den && b.num + b.den != 0,
                spec_pow_step(acc, b, i as nat) == spec_pow_step(
                    Value { num: 1 as i64, den: 1 as i64 },
                    b,
                    e as nat,
                ),
            decreases i,
        {
            match try_mul(acc, b) {
                Some(a2) => {
                    acc = a2;
                    i = i - 1;
                },
                None => { return None; },
            }
        }
        Some(acc)
    }
}

/// `a ^ ex` for an integer-valued exponent; `None` when the exponent is
/// fractional, when a negative exponent meets a zero base, or when the
/// result is not representable.
pub fn try_pow(a: Value, ex: Value) -> (r: Option<Value>)
    requires
        a.wf(),
        ex.wf(),
    ensures
        r == spec_pow(a, ex),
{
    let na: u64 = abs_u64(ex.num);
    let nd: u64 = ex.den as u64;
    if na % nd != 0 {
        return None;
    }
    let q: u64 = na / nd;
    if ex.num >= 0 {
        try_pow_nat(a, q)
    } else if a.num == 0 {
        None
    } else if a.num > 0 {
        try_pow_nat(Value { num: a.den, den: a.num }, q)
    } else if a.num == i64::MIN {
        None
    } else {
        try_pow_nat(Value { num: -a.den, den: -a.num }, q)
    }
}

} // verus!
