//! A minimal arithmetic-circuit library for zero-knowledge proving of the
//! relation "c equals a plus b".
//!
//! A caller declares the circuit shape once (three advice columns, one
//! selector, one instance column, and a single addition gate), fills a witness
//! trace from a public-input vector, binds the derived sum to a public-input
//! row, and hands the result to the proving orchestration, which checks
//! satisfiability before sealing a proof and checks a proof against a
//! public-input vector afterwards.

pub mod field;
pub mod system;
pub mod witness;
pub mod chip;
pub mod backend;
pub mod laws;
