//! A minimal fetch-decode-execute interpreter over a fixed-size byte memory
//! and a file of four 8-bit registers.
//!
//! The instruction semantics are given as spec functions over a mathematical
//! machine state ([`isa`]), and the executable machine ([`machine`]) is
//! verified against them. General facts about the semantics are stated and
//! proved in [`laws`].

pub mod isa;
pub mod laws;
pub mod machine;
