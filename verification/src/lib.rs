//! Commitment-and-proof core of a privacy-preserving weighted-voting scheme.
//!
//! The crate builds Pedersen-style commitments over two linked voting rounds
//! and a Sigma-protocol proof that the committed vote is a hidden bit, all on
//! top of an external pairing-friendly curve library.  Every builder is
//! specified and verified against a discrete-log model of the curve group.
#![allow(non_snake_case)]

pub mod substrate;
pub mod algebra;
pub mod protocol;
