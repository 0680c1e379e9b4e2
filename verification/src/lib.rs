//! Builders for the intermediate representation of a stack-based virtual
//! machine: syntax-like values that generate IR nodes into an `IrBuilder`.

pub mod ir;

