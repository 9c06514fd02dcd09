//! What a call from the host can fail with.
use vstd::prelude::*;
use crate::wire::WireKind;

verus! {

/// Why a call did not produce a value. Each is handed back to the host as a value;
/// none of them unwinds across the boundary.
#[derive(Debug, PartialEq, Eq)]
pub enum DispatchError {
    /// No function is registered under the name that was asked for.
    UnknownFunction,
    /// The arguments do not have the number or the tags that the function takes.
    BadArguments { expected: Vec<WireKind>, actual: Vec<WireKind> },
    /// The function itself failed.
    Internal,
    /// The call came before the initialization hook.
    NotInitialized,
}

/// Why a name could not be registered.
#[derive(PartialEq, Eq, Structural, Clone, Copy, Debug)]
pub enum RegistryError {
    /// A function is already registered under that name.
    DuplicateName,
}

} // verus!
