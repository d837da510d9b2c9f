//! The initializer: a network whose nine parameters are independent draws
//! from the uniform distribution over [0, 1).
//!
//! The entropy source hands out raw 32-bit draws; verified code maps a draw
//! to the binary32 pattern of `1 + k/2^23` with the draw's high 23 bits as
//! `k`, then subtracts one, landing uniformly on the dyadic grid of [0, 1).

use vstd::prelude::*;

use crate::arith::{fsub, sub_bits, ONE_BITS};
use crate::model::{NeuralNetwork, Xor};

verus! {

/// The binary32 pattern a raw draw is mapped to: the pattern of
/// `(1 + high23(raw)/2^23) - 1`, a value in [0, 1).
pub open spec fn unit_interval_bits(raw: u32) -> u32 {
    sub_bits((raw >> 9) | ONE_BITS, ONE_BITS)
}

/// Relies on `rand::random::<u32>()`: a fresh draw from the thread-local
/// generator, uniform over all 32-bit values. Nothing can be promised of
/// the value itself.
#[verifier::external_body]
fn random_u32() -> u32 {
    rand::random::<u32>()
}

/// Maps a raw draw into [0, 1): grafting the draw's high 23 bits onto the
/// pattern of 1.0 gives a value in [1, 2), and the subtraction of 1.0 is
/// exact there.
fn unit_interval(raw: u32) -> (r: u32)
    ensures
        r == unit_interval_bits(raw),
{
    fsub((raw >> 9) | ONE_BITS, ONE_BITS)
}

/// One freshly drawn parameter. Whatever the draw, the result lies in the
/// image of `unit_interval_bits`.
fn random_param() -> (r: u32)
    ensures
        exists|raw: u32| r == unit_interval_bits(raw),
{
    let raw: u32 = random_u32();
    unit_interval(raw)
}

/// A network with each of the nine parameters drawn independently and
/// uniformly from [0, 1): every slot holds the image of some raw draw under
/// `unit_interval_bits`.
pub fn rand_xor() -> (m: Xor)
    ensures
        (exists|raw: u32| m.gate_or.w1 == unit_interval_bits(raw)),
        (exists|raw: u32| m.gate_or.w2 == unit_interval_bits(raw)),
        (exists|raw: u32| m.gate_or.b == unit_interval_bits(raw)),
        (exists|raw: u32| m.gate_and.w1 == unit_interval_bits(raw)),
        (exists|raw: u32| m.gate_and.w2 == unit_interval_bits(raw)),
        (exists|raw: u32| m.gate_and.b == unit_interval_bits(raw)),
        (exists|raw: u32| m.gate_nand.w1 == unit_interval_bits(raw)),
        (exists|raw: u32| m.gate_nand.w2 == unit_interval_bits(raw)),
        (exists|raw: u32| m.gate_nand.b == unit_interval_bits(raw)),
{
    Xor {
        gate_or: NeuralNetwork {
            w1: random_param(),
            w2: random_param(),
            b: random_param(),
        },
        gate_and: NeuralNetwork {
            w1: random_param(),
            w2: random_param(),
            b: random_param(),
        },
        gate_nand: NeuralNetwork {
            w1: random_param(),
            w2: random_param(),
            b: random_param(),
        },
    }
}

} // verus!
