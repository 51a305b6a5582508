//! Sealed-trait code generation, modelled and verified.
//!
//! The crate describes trait declarations, attribute configuration and the
//! generated declaration bundle as plain data, and proves that the
//! transformation emits exactly the sealed marker module, variant enum and
//! wiring impls that the configuration asks for.

pub mod ast;
pub mod config;
pub mod emit;
pub mod laws;
pub mod matching;
pub mod trait_match;
pub mod transform;
pub mod type_match;
