//! The failure union of the wrapper layer: driver state errors, compile and
//! link failures carrying their log text, and unresolved resource names.

use vstd::prelude::*;

use crate::sys;

verus! {

/// Everything a wrapper operation can fail with.
#[derive(Debug, PartialEq)]
pub enum Error {
    /// The driver's error flag was raised by a state-mutating call.
    Driver(sys::Error),
    /// A shader stage failed to compile; carries the compiler's log.
    ShaderCompile(String),
    /// A program failed to link; carries the linker's log.
    ProgramLink(String),
    /// A named uniform did not resolve in a successfully linked program.
    MissingUniform(String),
}

} // verus!
