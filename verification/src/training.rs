//! The optimization loop: finite-difference gradient estimation, the
//! gradient-descent step, and the driver that repeats them.
//!
//! The estimator never mutates the network it is probing: each perturbation
//! is evaluated on a copy with a single slot changed, so the caller's
//! network is bit-identical afterwards — stated as an `ensures`, not only
//! implied by the borrow.

use vstd::prelude::*;

use crate::arith::{add_bits, div_bits, fadd, fdiv, fmul, fsub, mul_bits, sub_bits, ZERO_BITS};
use crate::eval::{calculate_cost, spec_cost};
use crate::model::{get_param, param_at, set_param, with_param, xor_of, NeuralNetwork, Xor};

verus! {

/// Bit pattern of 0.1, the finite-difference step EPS.
pub const EPS_BITS: u32 = 0x3DCC_CCCD;

/// Bit pattern of 0.1, the learning rate.
pub const LEARNING_RATE_BITS: u32 = 0x3DCC_CCCD;

/// The fixed number of training iterations of a full run.
pub const EPOCHS: u32 = 1000000;

/// The estimated partial derivative of the cost with respect to slot `i`:
/// the one-sided quotient `(cost(m with slot i += EPS) - base) / EPS` in
/// binary32, where `base` is the unperturbed cost.
pub open spec fn grad_entry_bits(m: Xor, base: u32, i: int) -> u32 {
    div_bits(
        sub_bits(spec_cost(with_param(m, i, add_bits(param_at(m, i), EPS_BITS))), base),
        EPS_BITS,
    )
}

/// The full estimated gradient: one one-sided finite-difference quotient per
/// slot, each against the same unperturbed base cost, in the fixed traversal
/// order.
pub open spec fn spec_gradient(m: Xor) -> Xor {
    let base = spec_cost(m);
    xor_of(
        grad_entry_bits(m, base, 0),
        grad_entry_bits(m, base, 1),
        grad_entry_bits(m, base, 2),
        grad_entry_bits(m, base, 3),
        grad_entry_bits(m, base, 4),
        grad_entry_bits(m, base, 5),
        grad_entry_bits(m, base, 6),
        grad_entry_bits(m, base, 7),
        grad_entry_bits(m, base, 8),
    )
}

/// Estimates the gradient of the cost by one-sided finite differences: the
/// base cost is computed once, then each of the nine slots is perturbed by
/// EPS on a copy and the cost quotient taken. The probed network is left
/// bit-identical to its pre-call value: perturbations never compound.
pub fn finite_difference_method(m: &mut Xor) -> (g: Xor)
    ensures
        *final(m) == *old(m),
        g == spec_gradient(*old(m)),
{
    let net: Xor = *m;
    let base: u32 = calculate_cost(net);
    let mut g: Xor = (Xor {
        gate_or: NeuralNetwork { w1: ZERO_BITS, w2: ZERO_BITS, b: ZERO_BITS },
        gate_and: NeuralNetwork { w1: ZERO_BITS, w2: ZERO_BITS, b: ZERO_BITS },
        gate_nand: NeuralNetwork { w1: ZERO_BITS, w2: ZERO_BITS, b: ZERO_BITS },
    });
    let mut i: usize = 0;
    while i < 9
        invariant
            i <= 9,
            net == *old(m),
            base == spec_cost(net),
            forall|j: int| 0 <= j < i ==> param_at(g, j) == grad_entry_bits(net, base, j),
        decreases 9 - i,
    {
        let p: u32 = get_param(net, i);
        let perturbed: Xor = set_param(net, i, fadd(p, EPS_BITS));
        let c: u32 = calculate_cost(perturbed);
        let e: u32 = fdiv(fsub(c, base), EPS_BITS);
        let ghost g0: Xor = g;
        g = set_param(g, i, e);
        proof {
            assert(e == grad_entry_bits(net, base, i as int));
            assert forall|j: int| 0 <= j < i + 1 implies param_at(g, j) == grad_entry_bits(
                net,
                base,
                j,
            ) by {
                if j < i {
                    assert(param_at(g0, j) == grad_entry_bits(net, base, j));
                }
            }
        }
        i = i + 1;
    }
    proof {
        assert(param_at(g, 0) == grad_entry_bits(net, base, 0));
        assert(param_at(g, 1) == grad_entry_bits(net, base, 1));
        assert(param_at(g, 2) == grad_entry_bits(net, base, 2));
        assert(param_at(g, 3) == grad_entry_bits(net, base, 3));
        assert(param_at(g, 4) == grad_entry_bits(net, base, 4));
        assert(param_at(g, 5) == grad_entry_bits(net, base, 5));
        assert(param_at(g, 6) == grad_entry_bits(net, base, 6));
        assert(param_at(g, 7) == grad_entry_bits(net, base, 7));
        assert(param_at(g, 8) == grad_entry_bits(net, base, 8));
        assert(g == spec_gradient(net));
    }
    g
}

/// One slot's descent update: `p - LEARNING_RATE * gp` in binary32.
pub open spec fn step_param_bits(p: u32, gp: u32) -> u32 {
    sub_bits(p, mul_bits(LEARNING_RATE_BITS, gp))
}

/// The descent step over the whole network: every slot updated by
/// `step_param_bits`, in the same fixed traversal order the estimator uses.
pub open spec fn spec_train(m: Xor, g: Xor) -> Xor {
    xor_of(
        step_param_bits(param_at(m, 0), param_at(g, 0)),
        step_param_bits(param_at(m, 1), param_at(g, 1)),
        step_param_bits(param_at(m, 2), param_at(g, 2)),
        step_param_bits(param_at(m, 3), param_at(g, 3)),
        step_param_bits(param_at(m, 4), param_at(g, 4)),
        step_param_bits(param_at(m, 5), param_at(g, 5)),
        step_param_bits(param_at(m, 6), param_at(g, 6)),
        step_param_bits(param_at(m, 7), param_at(g, 7)),
        step_param_bits(param_at(m, 8), param_at(g, 8)),
    )
}

/// Applies one gradient-descent step: every parameter moves against its
/// gradient entry by the fixed learning rate.
pub fn train(xor: Xor, g: Xor) -> (r: Xor)
    ensures
        r == spec_train(xor, g),
{
    let mut r: Xor = xor;
    let mut i: usize = 0;
    while i < 9
        invariant
            i <= 9,
            forall|j: int|
                0 <= j < i ==> param_at(r, j) == step_param_bits(param_at(xor, j), param_at(g, j)),
            forall|j: int| i <= j < 9 ==> param_at(r, j) == param_at(xor, j),
        decreases 9 - i,
    {
        let updated: u32 = fsub(get_param(r, i), fmul(LEARNING_RATE_BITS, get_param(g, i)));
        let ghost r0: Xor = r;
        r = set_param(r, i, updated);
        proof {
            assert(updated == step_param_bits(param_at(xor, i as int), param_at(g, i as int)));
            assert forall|j: int| 0 <= j < i + 1 implies param_at(r, j) == step_param_bits(
                param_at(xor, j),
                param_at(g, j),
            ) by {
                if j < i {
                    assert(param_at(r0, j) == step_param_bits(param_at(xor, j), param_at(g, j)));
                }
            }
            assert forall|j: int| i + 1 <= j < 9 implies param_at(r, j) == param_at(xor, j) by {
                assert(param_at(r0, j) == param_at(xor, j));
            }
        }
        i = i + 1;
    }
    proof {
        assert(param_at(r, 0) == step_param_bits(param_at(xor, 0), param_at(g, 0)));
        assert(param_at(r, 1) == step_param_bits(param_at(xor, 1), param_at(g, 1)));
        assert(param_at(r, 2) == step_param_bits(param_at(xor, 2), param_at(g, 2)));
        assert(param_at(r, 3) == step_param_bits(param_at(xor, 3), param_at(g, 3)));
        assert(param_at(r, 4) == step_param_bits(param_at(xor, 4), param_at(g, 4)));
        assert(param_at(r, 5) == step_param_bits(param_at(xor, 5), param_at(g, 5)));
        assert(param_at(r, 6) == step_param_bits(param_at(xor, 6), param_at(g, 6)));
        assert(param_at(r, 7) == step_param_bits(param_at(xor, 7), param_at(g, 7)));
        assert(param_at(r, 8) == step_param_bits(param_at(xor, 8), param_at(g, 8)));
        assert(r == spec_train(xor, g));
    }
    r
}

/// One full training iteration: estimate the gradient, then take one descent
/// step.
pub open spec fn spec_step(m: Xor) -> Xor {
    spec_train(m, spec_gradient(m))
}

/// The network after `n` training iterations.
pub open spec fn spec_trained(m: Xor, n: nat) -> Xor
    decreases n,
{
    if n == 0 {
        m
    } else {
        spec_step(spec_trained(m, (n - 1) as nat))
    }
}

/// Runs one training iteration: gradient estimation followed by the descent
/// step.
pub fn train_step(m: Xor) -> (r: Xor)
    ensures
        r == spec_step(m),
{
    let mut work: Xor = m;
    let g: Xor = finite_difference_method(&mut work);
    train(work, g)
}

/// Runs `epochs` full training iterations and hands back the trained
/// network.
pub fn run_training(m: Xor, epochs: u32) -> (r: Xor)
    ensures
        r == spec_trained(m, epochs as nat),
{
    let mut r: Xor = m;
    let mut i: u32 = 0;
    while i < epochs
        invariant
            i <= epochs,
            r == spec_trained(m, i as nat),
        decreases epochs - i,
    {
        r = train_step(r);
        i = i + 1;
    }
    r
}

/// With no training iterations the network comes through unchanged, so the
/// reporting phase still runs on the initial network exactly as it is.
pub proof fn lemma_no_training_is_identity(m: Xor)
    ensures
        spec_trained(m, 0) == m,
{
}

} // verus!
