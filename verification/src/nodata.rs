//! The machine for programs that work on no memory at all.
use vstd::prelude::*;

use crate::engine::Engine;
use crate::error::Error;
use crate::raw::EbpfVmRaw;
use crate::state::VmState;

verus! {

/// A virtual machine to run eBPF programs. This kind of machine is used for programs that do
/// not work with any memory area, no metadata buffer and no packet data either.
pub struct EbpfVmNoData<'a, E: Engine> {
    parent: EbpfVmRaw<'a, E>,
}

impl<'a, E: Engine> View for EbpfVmNoData<'a, E> {
    type V = VmState<'a, E>;

    closed spec fn view(&self) -> VmState<'a, E> {
        self.parent@
    }
}

impl<'a, E: Engine> EbpfVmNoData<'a, E> {
    /// The loaded program has passed the verifier.
    pub open spec fn wf(&self) -> bool {
        self@.checked()
    }

    /// Create a new virtual machine instance, and load an eBPF program into that instance.
    /// When attempting to load the program, it passes through the verifier `E::CHECK`.
    pub fn new(prog: Option<&'a [u8]>) -> (result: Result<EbpfVmNoData<'a, E>, Error>)
        ensures
            match result {
                Ok(vm) => {
                    &&& vm.wf()
                    &&& VmState::<E>::starts(prog, Ok(vm@))
                },
                Err(e) => VmState::<E>::starts(prog, Err(e)),
            },
    {
        let parent = EbpfVmRaw::new(prog)?;
        Ok(EbpfVmNoData { parent })
    }

    /// Load a new eBPF program into the virtual machine instance.
    pub fn set_program(&mut self, prog: &'a [u8]) -> (result: Result<(), Error>)
        requires
            old(self).wf(),
        ensures
            final(self).wf(),
            old(self)@.loads(prog, result, final(self)@),
    {
        self.parent.set_program(prog)?;
        Ok(())
    }

    /// Set a new verifier function. The function should return an `Error` if the program
    /// should be rejected by the virtual machine. If a program has been loaded to the VM
    /// already, the verifier is immediately run.
    pub fn set_verifier(&mut self, verifier: E::Verifier) -> (result: Result<(), Error>)
        requires
            old(self).wf(),
        ensures
            final(self).wf(),
            old(self)@.adopts(verifier, result, final(self)@),
    {
        self.parent.set_verifier(verifier)
    }

    /// Register a built-in or user-defined helper function in order to use it later from
    /// within the eBPF program. The helper is registered into a hashmap, so the `key` can be
    /// any `u32`.
    ///
    /// If using compiled eBPF programs, be sure to register all helpers before compiling the
    /// program. You can change registered helpers after compiling, but not add new ones (i.e.
    /// with new keys): a compiled program is run with the helpers that are registered then.
    pub fn register_helper(&mut self, key: u32, function: E::Helper) -> (result: Result<
        (),
        Error,
    >)
        requires
            old(self).wf(),
        ensures
            final(self).wf(),
            result is Ok,
            old(self)@.registers(key, function, final(self)@),
    {
        self.parent.register_helper(key, function)
    }

    /// Execute the program loaded, without providing pointers to any memory area whatsoever.
    pub fn execute_program(&self) -> (result: Result<u64, Error>)
        ensures
            exists|mem: &[u8], mbuff: &[u8]|
                mem@.len() == 0 && mbuff@.len() == 0 && #[trigger] self@.runs(mem, mbuff, result),
    {
        let mem: &'a mut [u8] = &mut [];
        let ghost packet: &[u8] = mem;
        assert(packet@.len() == 0);
        let result = self.parent.execute_program(mem);
        assert(self@ == self.parent@);
        result
    }

    /// Compile the loaded program.
    ///
    /// If using helper functions, be sure to register them into the VM before calling this
    /// function.
    pub fn cranelift_compile(&mut self) -> (result: Result<(), Error>)
        requires
            old(self).wf(),
        ensures
            final(self).wf(),
            old(self)@.compiles(result, final(self)@),
    {
        self.parent.cranelift_compile()
    }

    /// Execute the previously compiled program, without providing pointers to any memory area
    /// whatsoever, in a manner very similar to `execute_program()`.
    pub fn execute_program_cranelift(&self) -> (result: Result<u64, Error>)
        ensures
            exists|mem: &mut [u8], mbuff: &mut [u8]|
                mem@.len() == 0 && mbuff@.len() == 0 && #[trigger] self@.runs_compiled(
                    mem,
                    mbuff,
                    result,
                ),
    {
        let mem: &'a mut [u8] = &mut [];
        assert(mem@.len() == 0);
        let result = self.parent.execute_program_cranelift(mem);
        assert(self@ == self.parent@);
        result
    }
}

} // verus!
