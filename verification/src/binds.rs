//! Registration metadata for entry points.
//!
//! Each registered entry point records one row: the host-visible call path,
//! the exported symbol name, the marshaled argument names, its
//! documentation, and how the host-side stub should forward to it. The rows
//! are consumed only by the stub-generation step outside this library.

use vstd::prelude::*;

verus! {

/// How the generated host-side stub forwards to the entry point.
pub enum FunctionType {
    /// As a host-language macro, saving the proc-call overhead.
    Macro,
    /// Passing the whole argument list through unchanged.
    Variadic,
    /// As an ordinary proc with named parameters.
    Default,
}

/// One entry point's registration row.
pub struct Bind {
    /// The host-visible proc path the stub defines.
    pub proc_path: &'static str,
    /// The exported symbol the stub calls into.
    pub func_name: &'static str,
    /// The comma-separated argument names the stub forwards.
    pub func_arguments: &'static str,
    /// Documentation carried over onto the stub.
    pub docs: &'static str,
    /// The forwarding shape of the stub.
    pub function_type: FunctionType,
}

} // verus!
