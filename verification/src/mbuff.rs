//! The machine for programs that work on a metadata buffer given by the caller.
use std::collections::HashMap;
use vstd::prelude::*;

use crate::engine::Engine;
use crate::error::{Error, ErrorKind};
use crate::state::VmState;

verus! {

/// A virtual machine to run eBPF programs. This kind of machine is used for programs
/// expecting to work on a metadata buffer containing pointers to packet data.
pub struct EbpfVmMbuff<'a, E: Engine> {
    prog: Option<&'a [u8]>,
    verifier: E::Verifier,
    helpers: HashMap<u32, E::Helper>,
    compiled: Option<E::Compiled>,
}

impl<'a, E: Engine> View for EbpfVmMbuff<'a, E> {
    type V = VmState<'a, E>;

    closed spec fn view(&self) -> VmState<'a, E> {
        VmState {
            prog: self.prog,
            verifier: self.verifier,
            helpers: self.helpers,
            compiled: self.compiled,
        }
    }
}

impl<'a, E: Engine> EbpfVmMbuff<'a, E> {
    /// The loaded program has passed the verifier.
    pub open spec fn wf(&self) -> bool {
        self@.checked()
    }

    /// Create a new virtual machine instance, and load an eBPF program into that instance.
    /// When attempting to load the program, it passes through the verifier `E::CHECK`.
    pub fn new(prog: Option<&'a [u8]>) -> (result: Result<EbpfVmMbuff<'a, E>, Error>)
        ensures
            match result {
                Ok(vm) => {
                    &&& vm.wf()
                    &&& VmState::<E>::starts(prog, Ok(vm@))
                },
                Err(e) => VmState::<E>::starts(prog, Err(e)),
            },
    {
        if let Some(prog) = prog {
            E::verify(&E::CHECK, prog)?;
        }
        Ok(EbpfVmMbuff { prog, verifier: E::CHECK, helpers: HashMap::new(), compiled: None })
    }

    /// Load a new eBPF program into the virtual machine instance.
    pub fn set_program(&mut self, prog: &'a [u8]) -> (result: Result<(), Error>)
        requires
            old(self).wf(),
        ensures
            final(self).wf(),
            old(self)@.loads(prog, result, final(self)@),
    {
        E::verify(&self.verifier, prog)?;
        self.prog = Some(prog);
        Ok(())
    }

    /// Set a new verifier function. The function should return an `Error` if the program
    /// should be rejected by the virtual machine. If a program has been loaded to the VM
    /// already, the verifier is immediately run.
    pub fn set_verifier(&mut self, verifier: E::Verifier) -> (result: Result<(), Error>)
        requires
            old(self).wf(),
        ensures
            final(self).wf(),
            old(self)@.adopts(verifier, result, final(self)@),
    {
        if let Some(prog) = self.prog {
            E::verify(&verifier, prog)?;
        }
        self.verifier = verifier;
        Ok(())
    }

    /// Register a built-in or user-defined helper function in order to use it later from
    /// within the eBPF program. The helper is registered into a hashmap, so the `key` can be
    /// any `u32`.
    ///
    /// If using compiled eBPF programs, be sure to register all helpers before compiling the
    /// program. You can change registered helpers after compiling, but not add new ones (i.e.
    /// with new keys): a compiled program is run with the helpers that are registered then.
    pub fn register_helper(&mut self, key: u32, function: E::Helper) -> (result: Result<
        (),
        Error,
    >)
        requires
            old(self).wf(),
        ensures
            final(self).wf(),
            result is Ok,
            old(self)@.registers(key, function, final(self)@),
    {
        broadcast use vstd::std_specs::hash::group_hash_axioms;

        self.helpers.insert(key, function);
        Ok(())
    }

    /// Execute the program loaded, with the given packet data and metadata buffer.
    ///
    /// If the program is made to be compatible with Linux kernel, it is expected to load the
    /// address of the beginning and of the end of the memory area used for packet data from
    /// the metadata buffer, at some appointed offsets. It is up to the user to ensure that
    /// these pointers are correctly stored in the buffer.
    pub fn execute_program(&self, mem: &[u8], mbuff: &[u8]) -> (result: Result<u64, Error>)
        ensures
            self@.runs(mem, mbuff, result),
    {
        E::execute_program(self.prog, mem, mbuff, &self.helpers)
    }

    /// Compile the loaded program.
    ///
    /// If using helper functions, be sure to register them into the VM before calling this
    /// function.
    pub(crate) fn cranelift_compile(&mut self) -> (result: Result<(), Error>)
        requires
            old(self).wf(),
        ensures
            final(self).wf(),
            old(self)@.compiles(result, final(self)@),
    {
        let prog = match self.prog {
            Some(prog) => prog,
            None => {
                return Err(
                    Error::new(
                        ErrorKind::Other,
                        "Error: No program set, call prog_set() to load one",
                    ),
                );
            },
        };
        let program = E::compile_function(self.helpers.clone(), prog)?;
        self.compiled = Some(program);
        Ok(())
    }

    /// Execute the previously compiled program, with the given packet data and metadata
    /// buffer, in a manner very similar to `execute_program()`.
    pub(crate) fn execute_program_cranelift(
        &self,
        mem: &mut [u8],
        mbuff: &mut [u8],
    ) -> (result: Result<u64, Error>)
        ensures
            exists|m: &mut [u8], b: &mut [u8]|
                {
                    &&& m@ == old(mem)@
                    &&& b@ == old(mbuff)@
                    &&& final(m)@ == final(mem)@
                    &&& final(b)@ == final(mbuff)@
                    &&& #[trigger] self@.runs_compiled(m, b, result)
                },
    {
        let program = self.compiled.as_ref();
        let helpers = &self.helpers;
        let result = E::execute_compiled(program, mem, mbuff, helpers);
        proof {
            let (m, b) = choose|m: &mut [u8], b: &mut [u8]|
                {
                    &&& m@ == old(mem)@
                    &&& b@ == old(mbuff)@
                    &&& final(m)@ == final(mem)@
                    &&& final(b)@ == final(mbuff)@
                    &&& #[trigger] call_ensures(
                        E::execute_compiled,
                        (program, m, b, helpers),
                        result,
                    )
                };
            assert(self@.runs_compiled(m, b, result));
        }
        result
    }
}

} // verus!
