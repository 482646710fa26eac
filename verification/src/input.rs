//! The caller-supplied pipeline input: a compiled program, its input, and
//! the named execution layout.
//!
//! Once accepted the input is an immutable value; it is not validated here -
//! a malformed program surfaces as a stage failure, not as a pre-validation
//! error. The fields that carry structured documents (the program's debug
//! info, hints, identifiers, reference manager, and the program input) hold
//! their raw JSON text; the layers that speak JSON natively convert at the
//! boundary.

use vstd::prelude::*;

verus! {

/// A compiled program artifact as submitted by the caller.
pub struct Cairo0CompiledProgram {
    pub attributes: Vec<String>,
    pub builtins: Vec<String>,
    pub compiler_version: String,
    pub data: Vec<String>,
    /// Raw JSON text of the program's debug info.
    pub debug_info: String,
    /// Raw JSON text of the program's hints.
    pub hints: String,
    /// Raw JSON text of the program's identifiers.
    pub identifiers: String,
    pub main_scope: String,
    pub prime: String,
    /// Raw JSON text of the program's reference manager.
    pub reference_manager: String,
}

/// One proof-generation request: the program, its input, and the execution
/// layout selecting which builtins and resources trace generation provides.
pub struct Cairo0ProverInput {
    pub program: Cairo0CompiledProgram,
    /// Raw JSON text of the program input.
    pub program_input: String,
    pub layout: String,
}

} // verus!
