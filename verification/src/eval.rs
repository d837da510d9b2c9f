//! Forward inference and the mean-squared-error cost over the fixed XOR
//! training set.
//!
//! Every function is stated exactly, at the bit level, as a composition of
//! the named binary32 operations of `arith`. The logistic function
//! `1/(1 + e^(-x))` is evaluated by a fixed, deterministic binary32
//! scheme of its own (`e^(-|x|)` by range reduction, a short polynomial and
//! repeated squaring), so that the whole of inference is verified code.

use vstd::prelude::*;

use crate::arith::{
    add_bits, div_bits, fadd, fdiv, fmul, fsub, mul_bits, sub_bits, FOUR_BITS, HALF_BITS,
    ONE_BITS, ZERO_BITS,
};
use crate::model::{NeuralNetwork, Xor};

verus! {

/// Bit pattern of 1/256, the range-reduction scale: `e^(-u)` is computed as
/// `(e^(-u/256))^256`.
pub const INV256_BITS: u32 = 0x3B80_0000;

/// Bit pattern of 1/24, the degree-4 coefficient of the polynomial for
/// `e^(-v)` on the reduced argument.
pub const COEFF4_BITS: u32 = 0x3D2A_AAAB;

/// Bit pattern of -1/6, the degree-3 coefficient.
pub const COEFF3_BITS: u32 = 0xBE2A_AAAB;

/// Bit pattern of 1/2, the degree-2 coefficient.
pub const COEFF2_BITS: u32 = 0x3F00_0000;

/// Bit pattern of -1, the degree-1 coefficient.
pub const COEFF1_BITS: u32 = 0xBF80_0000;

/// Bit pattern of 20.0. Beyond it `e^(-u)` is below any binary32 ulp of 1,
/// and the tail is taken as zero.
pub const EXP_CUTOFF_BITS: u32 = 0x41A0_0000;

/// The bit pattern with the sign bit cleared: the absolute value in binary32.
pub open spec fn abs_bits(x: u32) -> u32 {
    x & 0x7FFF_FFFF
}

/// Whether the sign bit is set: the binary32 value is negative (or a
/// negatively signed zero or NaN).
pub open spec fn sign_bit_set(x: u32) -> bool {
    x & 0x8000_0000 != 0
}

/// The binary32 square of the value with bit pattern `t`.
pub open spec fn sq_bits(t: u32) -> u32 {
    mul_bits(t, t)
}

/// `e^(-u)` for a small non-negative `u`, as computed here in binary32:
/// scale `u` down by 256, evaluate the degree-4 Taylor polynomial of
/// `e^(-v)` in Horner form, then square eight times.
pub open spec fn exp_neg_bits(u: u32) -> u32 {
    let v = mul_bits(u, INV256_BITS);
    let h3 = add_bits(mul_bits(v, COEFF4_BITS), COEFF3_BITS);
    let h2 = add_bits(mul_bits(v, h3), COEFF2_BITS);
    let h1 = add_bits(mul_bits(v, h2), COEFF1_BITS);
    let t = add_bits(mul_bits(v, h1), ONE_BITS);
    sq_bits(sq_bits(sq_bits(sq_bits(sq_bits(sq_bits(sq_bits(sq_bits(t))))))))
}

/// The logistic function as computed here: with `t = e^(-|x|)` (zero past the
/// cutoff), the output is `1/(1+t)` for non-negative `x` and `t/(1+t)` for
/// negative `x` — the two forms of `1/(1+e^(-x))` that keep the exponent
/// argument non-positive.
pub open spec fn spec_sigmoid(x: u32) -> u32 {
    let u = abs_bits(x);
    let t = if u > EXP_CUTOFF_BITS { ZERO_BITS } else { exp_neg_bits(u) };
    let denom = add_bits(ONE_BITS, t);
    if sign_bit_set(x) {
        div_bits(t, denom)
    } else {
        div_bits(ONE_BITS, denom)
    }
}

/// `e^(-u)` for a small non-negative binary32 `u`, by range reduction,
/// a degree-4 polynomial and eight squarings.
fn exp_neg(u: u32) -> (r: u32)
    ensures
        r == exp_neg_bits(u),
{
    let v: u32 = fmul(u, INV256_BITS);
    let mut h: u32 = fadd(fmul(v, COEFF4_BITS), COEFF3_BITS);
    h = fadd(fmul(v, h), COEFF2_BITS);
    h = fadd(fmul(v, h), COEFF1_BITS);
    let mut t: u32 = fadd(fmul(v, h), ONE_BITS);
    t = fmul(t, t);
    t = fmul(t, t);
    t = fmul(t, t);
    t = fmul(t, t);
    t = fmul(t, t);
    t = fmul(t, t);
    t = fmul(t, t);
    t = fmul(t, t);
    t
}

/// The logistic (sigmoid) function `1/(1 + e^(-x))` on binary32 bit patterns.
pub fn sigmoid(x: u32) -> (r: u32)
    ensures
        r == spec_sigmoid(x),
{
    let u: u32 = x & 0x7FFF_FFFF;
    let t: u32 = if u > EXP_CUTOFF_BITS {
        ZERO_BITS
    } else {
        exp_neg(u)
    };
    let denom: u32 = fadd(ONE_BITS, t);
    if x & 0x8000_0000 != 0 {
        fdiv(t, denom)
    } else {
        fdiv(ONE_BITS, denom)
    }
}

/// The pre-activation sum `w1*x1 + w2*x2 + b` of one unit, in binary32.
pub open spec fn unit_sum_bits(u: NeuralNetwork, x1: u32, x2: u32) -> u32 {
    add_bits(add_bits(mul_bits(u.w1, x1), mul_bits(u.w2, x2)), u.b)
}

/// Forward inference: the OR and NAND hidden units each see the two inputs,
/// and the AND output unit sees the two hidden activations.
pub open spec fn spec_forward(m: Xor, x1: u32, x2: u32) -> u32 {
    let a = spec_sigmoid(unit_sum_bits(m.gate_or, x1, x2));
    let b = spec_sigmoid(unit_sum_bits(m.gate_nand, x1, x2));
    spec_sigmoid(
        add_bits(add_bits(mul_bits(a, m.gate_and.w1), mul_bits(b, m.gate_and.w2)), m.gate_and.b),
    )
}

/// Runs the network on one input pair of binary32 bit patterns.
pub fn forward(m: Xor, x1: u32, x2: u32) -> (r: u32)
    ensures
        r == spec_forward(m, x1, x2),
{
    let a: u32 = sigmoid(fadd(fadd(fmul(m.gate_or.w1, x1), fmul(m.gate_or.w2, x2)), m.gate_or.b));
    let b: u32 = sigmoid(
        fadd(fadd(fmul(m.gate_nand.w1, x1), fmul(m.gate_nand.w2, x2)), m.gate_nand.b),
    );
    sigmoid(fadd(fadd(fmul(a, m.gate_and.w1), fmul(b, m.gate_and.w2)), m.gate_and.b))
}

/// Forward inference is deterministic: two runs on equal networks and equal
/// inputs give bit-identical outputs.
pub proof fn lemma_forward_deterministic(m1: Xor, m2: Xor, x1: u32, x2: u32)
    requires
        m1 == m2,
    ensures
        spec_forward(m1, x1, x2) == spec_forward(m2, x1, x2),
{
}

/// Row `i` of the fixed training set, the XOR truth table, as binary32 bit
/// patterns `(x1, x2, y)`: (0,0,0), (0,1,1), (1,0,1), (1,1,0).
pub open spec fn spec_row(i: int) -> (u32, u32, u32) {
    if i == 0 {
        (ZERO_BITS, ZERO_BITS, ZERO_BITS)
    } else if i == 1 {
        (ZERO_BITS, ONE_BITS, ONE_BITS)
    } else if i == 2 {
        (ONE_BITS, ZERO_BITS, ONE_BITS)
    } else {
        (ONE_BITS, ONE_BITS, ZERO_BITS)
    }
}

/// Hands out row `i` of the training set. The target column is exactly the
/// XOR of the two input columns.
pub fn training_row(i: usize) -> (r: (u32, u32, u32))
    requires
        i < 4,
    ensures
        r == spec_row(i as int),
        (r.2 == if (r.0 == ONE_BITS) != (r.1 == ONE_BITS) {
            ONE_BITS
        } else {
            ZERO_BITS
        }),
{
    if i == 0 {
        (ZERO_BITS, ZERO_BITS, ZERO_BITS)
    } else if i == 1 {
        (ZERO_BITS, ONE_BITS, ONE_BITS)
    } else if i == 2 {
        (ONE_BITS, ZERO_BITS, ONE_BITS)
    } else {
        (ONE_BITS, ONE_BITS, ZERO_BITS)
    }
}

/// The squared error of the network on row `i`: `(forward - y)^2` in
/// binary32.
pub open spec fn sq_err_bits(m: Xor, i: int) -> u32 {
    let row = spec_row(i);
    let d = sub_bits(spec_forward(m, row.0, row.1), row.2);
    mul_bits(d, d)
}

/// The cost: the four squared errors summed in row order, divided by four —
/// the mean squared error over the training set, in binary32.
pub open spec fn spec_cost(m: Xor) -> u32 {
    div_bits(
        add_bits(
            add_bits(add_bits(sq_err_bits(m, 0), sq_err_bits(m, 1)), sq_err_bits(m, 2)),
            sq_err_bits(m, 3),
        ),
        FOUR_BITS,
    )
}

/// The squared error of the network on training row `i`.
fn sq_err(m: Xor, i: usize) -> (r: u32)
    requires
        i < 4,
    ensures
        r == sq_err_bits(m, i as int),
{
    let row = training_row(i);
    let d: u32 = fsub(forward(m, row.0, row.1), row.2);
    fmul(d, d)
}

/// Mean squared error of the network against the XOR table, over all four
/// rows in their fixed order.
pub fn calculate_cost(model: Xor) -> (r: u32)
    ensures
        r == spec_cost(model),
{
    let mut acc: u32 = sq_err(model, 0);
    acc = fadd(acc, sq_err(model, 1));
    acc = fadd(acc, sq_err(model, 2));
    acc = fadd(acc, sq_err(model, 3));
    fdiv(acc, FOUR_BITS)
}

/// The rounded prediction on one input pair: 1 when the output is at least
/// 0.5, else 0. Sigmoid outputs are non-negative binary32 values, and those
/// order as their bit patterns do, so the comparison is rounding to the
/// nearest integer (halves up).
pub open spec fn spec_predict(m: Xor, x1: u32, x2: u32) -> u32 {
    if spec_forward(m, x1, x2) >= HALF_BITS {
        1u32
    } else {
        0u32
    }
}

/// The network's rounded prediction on one input pair.
pub fn predict(m: Xor, x1: u32, x2: u32) -> (r: u32)
    ensures
        r == spec_predict(m, x1, x2),
{
    let y: u32 = forward(m, x1, x2);
    if y >= HALF_BITS {
        1
    } else {
        0
    }
}

/// The reporting phase's payload: for the four canonical input pairs, in the
/// fixed order (0,0), (0,1), (1,0), (1,1), the pair as plain integers and
/// the network's rounded prediction. Always four entries, whatever the
/// network.
pub fn report(m: Xor) -> (r: Vec<(u32, u32, u32)>)
    ensures
        r@.len() == 4,
        (r@[0] == (0u32, 0u32, spec_predict(m, ZERO_BITS, ZERO_BITS))),
        (r@[1] == (0u32, 1u32, spec_predict(m, ZERO_BITS, ONE_BITS))),
        (r@[2] == (1u32, 0u32, spec_predict(m, ONE_BITS, ZERO_BITS))),
        (r@[3] == (1u32, 1u32, spec_predict(m, ONE_BITS, ONE_BITS))),
{
    let mut r: Vec<(u32, u32, u32)> = Vec::new();
    r.push((0, 0, predict(m, ZERO_BITS, ZERO_BITS)));
    r.push((0, 1, predict(m, ZERO_BITS, ONE_BITS)));
    r.push((1, 0, predict(m, ONE_BITS, ZERO_BITS)));
    r.push((1, 1, predict(m, ONE_BITS, ONE_BITS)));
    r
}

} // verus!
