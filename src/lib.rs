//! Structural core of a linear spin-wave calculation: dense block
//! matrices, input shape validation, the square-root / transform fallback
//! policy, the local frames of the sites, and the bosonic signature and
//! ordering of the magnon modes.
pub mod matrix;
pub mod system;
pub mod policy;
pub mod modes;
pub mod rotation;
pub mod hamiltonian;
pub mod contributions;
