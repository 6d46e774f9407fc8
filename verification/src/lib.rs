//! Accessor and capability-computation layer over an in-memory, already
//! deserialized bytecode module.
//!
//! The module is a compact, index-based representation of a smart-contract
//! module: pools of handles, signatures and definitions that reference one
//! another by position.  This crate provides bounds-validated navigation
//! across those interlinked pools, derived identity queries (module id,
//! immediate dependencies and friends), and the recursive computation of
//! the ability set of an arbitrary type expression, including generic and
//! phantom type parameters.

pub mod ability;
pub mod access;
pub mod errors;
pub mod file_format;
pub mod identity;
