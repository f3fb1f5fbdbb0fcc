//! A lowering engine that turns a typed, monomorphized control-flow
//! intermediate representation into C source text.
//!
//! The crate is organised leaf-first: text helpers and the rendering
//! context, the target type language and its registry, the renderable
//! expression/statement model, the place and operand resolver, aggregate
//! and sum-type construction, checked-arithmetic synthesis, static-data
//! encoding, and finally control-flow lowering.

pub mod static_alloc;
pub mod aggregate;
pub mod base;
pub mod bb;
pub mod crepr;
pub mod definition;
pub mod expression;
pub mod fatptr;
pub mod function;
pub mod header;
pub mod ir;
pub mod cinclude;
pub mod stmt;
pub mod structure;
pub mod ty;
pub mod utils;

use vstd::prelude::*;

verus! {

/// Marker for the backend entry point; the host-compiler glue that
/// instantiates it lives outside this crate.
pub struct CCodegenBackend(pub ());

} // verus!
