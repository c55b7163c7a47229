//! Specialization of wrapping-arithmetic library functions.
//!
//! A compiler front end registers generic library functions for a family of
//! fixed-width wrapping integers: the five arithmetic operators (add, sub,
//! mul, div, mod) and a constant-producing function. This crate resolves a
//! generic function plus its compile-time arguments into a concrete operation
//! descriptor with a validated input/output signature, rejecting the argument
//! shapes that are statically invalid — in particular division or modulo by a
//! literal zero.

pub mod arithmetic;
pub mod context;
pub mod ids;
pub mod laws;
pub mod lib_func;
pub mod non_zero;
pub mod program;
