//! The network's data model: one logistic unit, the fixed three-unit wiring,
//! and a single, fixed ordering of the nine learnable parameters.
//!
//! Every scalar field is the `u32` bit pattern of an IEEE 754 binary32 value
//! (see `arith`). The wiring is fixed by construction: `gate_or` and
//! `gate_nand` form the hidden layer, `gate_and` is the output unit. The
//! gradient of a network shares its shape, one slot per parameter, so `Xor`
//! serves for both.

use vstd::prelude::*;

verus! {

/// One logistic unit: two input weights and a bias.
#[derive(Clone, Copy, Debug, PartialEq, Eq, Structural)]
pub struct NeuralNetwork {
    pub w1: u32,
    pub w2: u32,
    pub b: u32,
}

/// The full three-unit model realizing XOR: an OR-shaped and a NAND-shaped
/// hidden unit feeding an AND-shaped output unit.
#[derive(Clone, Copy, Debug, PartialEq, Eq, Structural)]
pub struct Xor {
    pub gate_or: NeuralNetwork,
    pub gate_and: NeuralNetwork,
    pub gate_nand: NeuralNetwork,
}

/// The parameter at slot `i` of the fixed traversal order:
/// `gate_or.w1, gate_or.w2, gate_or.b, gate_and.w1, gate_and.w2, gate_and.b,
/// gate_nand.w1, gate_nand.w2, gate_nand.b`.
/// Gradient estimation and the descent step both go by this order.
pub open spec fn param_at(m: Xor, i: int) -> u32 {
    if i == 0 {
        m.gate_or.w1
    } else if i == 1 {
        m.gate_or.w2
    } else if i == 2 {
        m.gate_or.b
    } else if i == 3 {
        m.gate_and.w1
    } else if i == 4 {
        m.gate_and.w2
    } else if i == 5 {
        m.gate_and.b
    } else if i == 6 {
        m.gate_nand.w1
    } else if i == 7 {
        m.gate_nand.w2
    } else {
        m.gate_nand.b
    }
}

/// The network whose nine parameters, in the fixed traversal order, are
/// `p0` through `p8`.
pub open spec fn xor_of(
    p0: u32,
    p1: u32,
    p2: u32,
    p3: u32,
    p4: u32,
    p5: u32,
    p6: u32,
    p7: u32,
    p8: u32,
) -> Xor {
    Xor {
        gate_or: NeuralNetwork { w1: p0, w2: p1, b: p2 },
        gate_and: NeuralNetwork { w1: p3, w2: p4, b: p5 },
        gate_nand: NeuralNetwork { w1: p6, w2: p7, b: p8 },
    }
}

/// `m` with the parameter at slot `i` replaced by `v` and every other slot
/// left as it is.
pub open spec fn with_param(m: Xor, i: int, v: u32) -> Xor {
    xor_of(
        if i == 0 { v } else { m.gate_or.w1 },
        if i == 1 { v } else { m.gate_or.w2 },
        if i == 2 { v } else { m.gate_or.b },
        if i == 3 { v } else { m.gate_and.w1 },
        if i == 4 { v } else { m.gate_and.w2 },
        if i == 5 { v } else { m.gate_and.b },
        if i == 6 { v } else { m.gate_nand.w1 },
        if i == 7 { v } else { m.gate_nand.w2 },
        if i == 8 { v } else { m.gate_nand.b },
    )
}

/// Reads the parameter at slot `i` of the fixed traversal order.
pub fn get_param(m: Xor, i: usize) -> (r: u32)
    requires
        i < 9,
    ensures
        r == param_at(m, i as int),
{
    if i == 0 {
        m.gate_or.w1
    } else if i == 1 {
        m.gate_or.w2
    } else if i == 2 {
        m.gate_or.b
    } else if i == 3 {
        m.gate_and.w1
    } else if i == 4 {
        m.gate_and.w2
    } else if i == 5 {
        m.gate_and.b
    } else if i == 6 {
        m.gate_nand.w1
    } else if i == 7 {
        m.gate_nand.w2
    } else {
        m.gate_nand.b
    }
}

/// Returns `m` with the parameter at slot `i` replaced by `v`; no other slot
/// changes.
pub fn set_param(m: Xor, i: usize, v: u32) -> (r: Xor)
    requires
        i < 9,
    ensures
        r == with_param(m, i as int, v),
{
    let mut r: Xor = m;
    if i == 0 {
        r.gate_or.w1 = v;
    } else if i == 1 {
        r.gate_or.w2 = v;
    } else if i == 2 {
        r.gate_or.b = v;
    } else if i == 3 {
        r.gate_and.w1 = v;
    } else if i == 4 {
        r.gate_and.w2 = v;
    } else if i == 5 {
        r.gate_and.b = v;
    } else if i == 6 {
        r.gate_nand.w1 = v;
    } else if i == 7 {
        r.gate_nand.w2 = v;
    } else {
        r.gate_nand.b = v;
    }
    r
}

} // verus!
