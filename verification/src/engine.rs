//! What a machine is built on.
use std::collections::HashMap;
use vstd::prelude::*;

use crate::error::Error;

verus! {

/// The parts of a virtual machine that give programs their meaning: the verifier that
/// programs have to pass unless another one is set, the interpreter, and the compiler with
/// the code that it makes.
///
/// Nothing is assumed of an implementation. The contracts of the machines say which
/// method is called, and on what, and what becomes of the result.
pub trait Engine {
    /// A verification function, that returns an error if a program does not meet its
    /// requirements.
    ///
    /// Some examples of things a verifier may reject a program for:
    ///
    /// - the program does not terminate;
    /// - unknown instructions;
    /// - badly formed instructions;
    /// - unknown helper index.
    type Verifier;

    /// A helper function that programs can call by the key that it is registered under.
    type Helper: Copy;

    /// A compiled program.
    type Compiled;

    /// The verifier that a new machine starts with.
    const CHECK: Self::Verifier;

    /// Runs `verifier` on `prog`.
    fn verify(verifier: &Self::Verifier, prog: &[u8]) -> Result<(), Error>;

    /// Interprets `prog` on the packet data `mem` and the metadata buffer `mbuff`. Both are
    /// lent for reading only: an interpreter that writes to them is not meant.
    fn execute_program(
        prog: Option<&[u8]>,
        mem: &[u8],
        mbuff: &[u8],
        helpers: &HashMap<u32, Self::Helper>,
    ) -> Result<u64, Error>;

    /// Compiles `prog`, which may call `helpers`: those that are registered when it is
    /// compiled.
    fn compile_function(helpers: HashMap<u32, Self::Helper>, prog: &[u8]) -> Result<
        Self::Compiled,
        Error,
    >;

    /// Runs a compiled program on the packet data `mem` and the metadata buffer `mbuff`, which
    /// it may write to. `helpers` are those that are registered now.
    fn execute_compiled(
        program: Option<&Self::Compiled>,
        mem: &mut [u8],
        mbuff: &mut [u8],
        helpers: &HashMap<u32, Self::Helper>,
    ) -> Result<u64, Error>;
}

} // verus!
