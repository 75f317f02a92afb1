//! Step parameters of a rigid-body physics engine, held as plain values.
//!
//! Real-valued parameters are carried as [`scalar::Scalar`], the bit pattern of
//! an IEEE-754 single-precision number, so that what is written is read back
//! bit for bit and every rule on a value, and the inverse of the step, is
//! worked out on integers.
#![allow(non_snake_case)]

pub mod dynamics;
pub mod reciprocal;
pub mod scalar;
