//! The machine for programs that work on the packet data directly.
use vstd::prelude::*;

use crate::engine::Engine;
use crate::error::Error;
use crate::mbuff::EbpfVmMbuff;
use crate::state::{compiler_is_faithful_on, law_compiled_run_agrees_after_load, VmState};

verus! {

/// A virtual machine to run eBPF programs. This kind of machine is used for programs
/// expecting to work directly on the memory area representing packet data.
pub struct EbpfVmRaw<'a, E: Engine> {
    parent: EbpfVmMbuff<'a, E>,
}

impl<'a, E: Engine> View for EbpfVmRaw<'a, E> {
    type V = VmState<'a, E>;

    closed spec fn view(&self) -> VmState<'a, E> {
        self.parent@
    }
}

impl<'a, E: Engine> EbpfVmRaw<'a, E> {
    /// The loaded program has passed the verifier.
    pub open spec fn wf(&self) -> bool {
        self@.checked()
    }

    /// Create a new virtual machine instance, and load an eBPF program into that instance.
    /// When attempting to load the program, it passes through the verifier `E::CHECK`.
    pub fn new(prog: Option<&'a [u8]>) -> (result: Result<EbpfVmRaw<'a, E>, Error>)
        ensures
            match result {
                Ok(vm) => {
                    &&& vm.wf()
                    &&& VmState::<E>::starts(prog, Ok(vm@))
                },
                Err(e) => VmState::<E>::starts(prog, Err(e)),
            },
    {
        let parent = EbpfVmMbuff::new(prog)?;
        Ok(EbpfVmRaw { parent })
    }

    /// Load a new eBPF program into the virtual machine instance.
    pub fn set_program(&mut self, prog: &'a [u8]) -> (result: Result<(), Error>)
        requires
            old(self).wf(),
        ensures
            final(self).wf(),
            old(self)@.loads(prog, result, final(self)@),
    {
        self.parent.set_program(prog)?;
        Ok(())
    }

    /// Set a new verifier function. The function should return an `Error` if the program
    /// should be rejected by the virtual machine. If a program has been loaded to the VM
    /// already, the verifier is immediately run.
    pub fn set_verifier(&mut self, verifier: E::Verifier) -> (result: Result<(), Error>)
        requires
            old(self).wf(),
        ensures
            final(self).wf(),
            old(self)@.adopts(verifier, result, final(self)@),
    {
        self.parent.set_verifier(verifier)
    }

    /// Register a built-in or user-defined helper function in order to use it later from
    /// within the eBPF program. The helper is registered into a hashmap, so the `key` can be
    /// any `u32`.
    ///
    /// If using compiled eBPF programs, be sure to register all helpers before compiling the
    /// program. You can change registered helpers after compiling, but not add new ones (i.e.
    /// with new keys): a compiled program is run with the helpers that are registered then.
    pub fn register_helper(&mut self, key: u32, function: E::Helper) -> (result: Result<
        (),
        Error,
    >)
        requires
            old(self).wf(),
        ensures
            final(self).wf(),
            result is Ok,
            old(self)@.registers(key, function, final(self)@),
    {
        self.parent.register_helper(key, function)
    }

    /// Execute the program loaded, with the given packet data, which it may read.
    pub fn execute_program(&self, mem: &'a mut [u8]) -> (result: Result<u64, Error>)
        ensures
            final(mem)@ == old(mem)@,
            exists|mbuff: &[u8]|
                mbuff@.len() == 0 && #[trigger] self@.runs(old(mem), mbuff, result),
    {
        let mbuff: &[u8] = &[];
        let result = self.parent.execute_program(mem, mbuff);
        assert(self@.runs(old(mem), mbuff, result));
        result
    }

    /// Compile the loaded program.
    ///
    /// If using helper functions, be sure to register them into the VM before calling this
    /// function.
    pub fn cranelift_compile(&mut self) -> (result: Result<(), Error>)
        requires
            old(self).wf(),
        ensures
            final(self).wf(),
            old(self)@.compiles(result, final(self)@),
    {
        self.parent.cranelift_compile()
    }

    /// Execute the previously compiled program, with the given packet data, which it may read
    /// and write, in a manner very similar to `execute_program()`.
    pub fn execute_program_cranelift(&self, mem: &'a mut [u8]) -> (result: Result<u64, Error>)
        ensures
            exists|m: &mut [u8], mbuff: &mut [u8]|
                {
                    &&& m@ == old(mem)@
                    &&& final(m)@ == final(mem)@
                    &&& mbuff@.len() == 0
                    &&& #[trigger] self@.runs_compiled(m, mbuff, result)
                },
    {
        let mbuff: &mut [u8] = &mut [];
        assert(mbuff@.len() == 0);
        let result = self.parent.execute_program_cranelift(mem, mbuff);
        assert(self@ == self.parent@);
        result
    }
}

/// Where the compiler is faithful on a program, once the program has been compiled and
/// interpreting it on a packet has returned a value, the compiled run returns this value on a
/// packet with the same contents, even if another program has been loaded since.
pub proof fn law_compiled_packet_run_agrees<'a, E: Engine>(
    pre: EbpfVmRaw<'a, E>,
    made: EbpfVmRaw<'a, E>,
    mem: &[u8],
    mbuff: &[u8],
    value: u64,
    prog: &'a [u8],
    verdict: Result<(), Error>,
    later: EbpfVmRaw<'a, E>,
    m: &mut [u8],
    b: &mut [u8],
    result: Result<u64, Error>,
)
    requires
        pre@.prog matches Some(p) ==> compiler_is_faithful_on::<E>(p),
        pre@.compiles(Ok(()), made@),
        mbuff@.len() == 0,
        made@.runs(mem, mbuff, Ok(value)),
        later@ == made@ || made@.loads(prog, verdict, later@),
        m@ == mem@,
        b@.len() == 0,
        later@.runs_compiled(m, b, result),
    ensures
        result == Ok::<u64, Error>(value),
{
    assert(b@ =~= mbuff@);
    law_compiled_run_agrees_after_load(
        pre@,
        made@,
        mem,
        mbuff,
        value,
        prog,
        verdict,
        later@,
        m,
        b,
        result,
    );
}

} // verus!
