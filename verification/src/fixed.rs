//! The machine that handles the metadata buffer itself.
use vstd::prelude::*;

use crate::engine::Engine;
use crate::error::Error;
use crate::layout::load_address;
use crate::mbuff::EbpfVmMbuff;
use crate::metabuff::{
    law_end_address_is_found, law_last_packet_stays, law_start_address_is_found, offsets_fit,
    MetaBuff,
};
use crate::outside::address_of;
use crate::state::{judges, VmState};

verus! {

/// `start` is the address that `mem` lies at, as the slice itself says when it is asked.
pub closed spec fn lies_at(mem: &mut [u8], start: u64) -> bool {
    call_ensures(address_of, (&mem,), start)
}

/// A virtual machine to run eBPF programs. This kind of machine is used for programs
/// expecting to work on a metadata buffer containing pointers to packet data, but it
/// internally handles the buffer so as to save the effort to manually handle the metadata
/// buffer for the user.
///
/// This struct implements an internal buffer that is passed to the program. The user has to
/// indicate the offset values at which the eBPF program expects to find the start and the end
/// of packet data in the buffer. On calling `execute_program()` the struct automatically
/// updates the addresses in this buffer, at the appointed offsets, for the start and the end
/// of the packet data the program is called upon.
pub struct EbpfVmFixedMbuff<'a, E: Engine> {
    parent: EbpfVmMbuff<'a, E>,
    mbuff: MetaBuff,
}

impl<'a, E: Engine> View for EbpfVmFixedMbuff<'a, E> {
    type V = VmState<'a, E>;

    closed spec fn view(&self) -> VmState<'a, E> {
        self.parent@
    }
}

impl<'a, E: Engine> EbpfVmFixedMbuff<'a, E> {
    /// The metadata buffer.
    pub closed spec fn meta(&self) -> MetaBuff {
        self.mbuff
    }

    /// The loaded program has passed the verifier, and the metadata buffer has room for the
    /// addresses and holds nothing else.
    pub open spec fn wf(&self) -> bool {
        &&& self@.checked()
        &&& self.meta().wf()
    }

    /// Running the loaded program on the packet `mem` that starts at the address `start` can
    /// return `result` and lead to `post`: the addresses of the packet are stored in the
    /// metadata buffer, and the program gets to see the buffer as it is then.
    pub open spec fn runs_at(
        self,
        mem: &[u8],
        start: u64,
        result: Result<u64, Error>,
        post: Self,
    ) -> bool {
        &&& start + mem@.len() <= u64::MAX
        &&& post@ == self@
        &&& self.meta().stores(start, (start + mem@.len()) as u64, post.meta())
        &&& exists|mbuff: &[u8]|
            mbuff@ == post.meta().buffer@ && #[trigger] self@.runs(mem, mbuff, result)
    }

    /// Create a new virtual machine instance, and load an eBPF program into that instance.
    /// When attempting to load the program, it passes through the verifier `E::CHECK`.
    ///
    /// The offsets have to leave room for a buffer that can be allocated, unless the program
    /// is rejected anyway.
    pub fn new(prog: Option<&'a [u8]>, data_offset: usize, data_end_offset: usize) -> (result:
        Result<EbpfVmFixedMbuff<'a, E>, Error>)
        requires
            offsets_fit(data_offset, data_end_offset) || (prog matches Some(p) && forall|
                verdict: Result<(), Error>,
            | #[trigger]
                judges::<E>(E::CHECK, p, verdict) ==> verdict is Err),
        ensures
            match result {
                Ok(vm) => {
                    &&& vm.wf()
                    &&& VmState::<E>::starts(prog, Ok(vm@))
                    &&& vm.meta().is_fresh(data_offset, data_end_offset)
                },
                Err(e) => VmState::<E>::starts(prog, Err(e)),
            },
    {
        let parent = EbpfVmMbuff::new(prog)?;
        let mbuff = MetaBuff::new(data_offset, data_end_offset);
        Ok(EbpfVmFixedMbuff { parent, mbuff })
    }

    /// Load a new eBPF program into the virtual machine instance.
    ///
    /// At the same time, load new offsets for storing pointers to start and end of packet
    /// data in the internal metadata buffer. The new offsets are in place even if the program
    /// is rejected.
    pub fn set_program(
        &mut self,
        prog: &'a [u8],
        data_offset: usize,
        data_end_offset: usize,
    ) -> (result: Result<(), Error>)
        requires
            old(self).wf(),
            offsets_fit(data_offset, data_end_offset),
        ensures
            final(self).wf(),
            old(self)@.loads(prog, result, final(self)@),
            final(self).meta().is_fresh(data_offset, data_end_offset),
    {
        self.mbuff = MetaBuff::new(data_offset, data_end_offset);
        self.parent.set_program(prog)?;
        Ok(())
    }

    /// Set a new verifier function. The function should return an `Error` if the program
    /// should be rejected by the virtual machine. If a program has been loaded to the VM
    /// already, the verifier is immediately run.
    pub fn set_verifier(&mut self, verifier: E::Verifier) -> (result: Result<(), Error>)
        requires
            old(self).wf(),
        ensures
            final(self).wf(),
            old(self)@.adopts(verifier, result, final(self)@),
            final(self).meta() == old(self).meta(),
    {
        self.parent.set_verifier(verifier)
    }

    /// Register a built-in or user-defined helper function in order to use it later from
    /// within the eBPF program. The helper is registered into a hashmap, so the `key` can be
    /// any `u32`. Registering another helper under the same key replaces it.
    pub fn register_helper(&mut self, key: u32, function: E::Helper) -> (result: Result<
        (),
        Error,
    >)
        requires
            old(self).wf(),
        ensures
            final(self).wf(),
            result is Ok,
            old(self)@.registers(key, function, final(self)@),
            final(self).meta() == old(self).meta(),
    {
        self.parent.register_helper(key, function)
    }

    /// Execute the program loaded, with the given packet data, which it may read.
    ///
    /// If the program is made to be compatible with Linux kernel, it is expected to load the
    /// address of the beginning and of the end of the memory area used for packet data from
    /// some metadata buffer, which in the case of this VM is handled internally. The offsets
    /// at which the addresses should be placed should have been set at the creation of the VM.
    pub fn execute_program(&mut self, mem: &'a mut [u8]) -> (result: Result<u64, Error>)
        requires
            old(self).wf(),
        ensures
            final(self).wf(),
            final(mem)@ == old(mem)@,
            exists|start: u64|
                lies_at(old(mem), start) && #[trigger] old(self).runs_at(
                    old(mem),
                    start,
                    result,
                    *final(self),
                ),
    {
        let start = address_of(&mem);
        self.execute_program_at(mem, start)
    }

    /// Execute the program loaded, with the given packet data, which starts at the address
    /// `start`.
    pub fn execute_program_at(&mut self, mem: &[u8], start: u64) -> (result: Result<u64, Error>)
        requires
            old(self).wf(),
            start + mem@.len() <= u64::MAX,
        ensures
            final(self).wf(),
            old(self).runs_at(mem, start, result, *final(self)),
    {
        self.mbuff.store_addresses(start, start + mem.len() as u64)?;
        self.parent.execute_program(mem, self.mbuff.buffer.as_slice())
    }
}

/// The address that a packet lies at is what asking this very reference for its address
/// returned: another reference is another packet, even one to the same contents.
pub(crate) proof fn law_address_is_that_of_the_packet(mem: &mut [u8], start: u64)
    requires
        lies_at(mem, start),
    ensures
        call_ensures(address_of, (&mem,), start),
        start + old(mem)@.len() <= u64::MAX,
{
}

/// A program run on a packet finds the addresses of the start and of the end of the packet at
/// the offsets that the machine was given, and everywhere else in the buffer zeros, unless the
/// two addresses overlap in the buffer.
pub proof fn law_program_finds_packet<'a, E: Engine>(
    pre: EbpfVmFixedMbuff<'a, E>,
    mem: &[u8],
    start: u64,
    result: Result<u64, Error>,
    post: EbpfVmFixedMbuff<'a, E>,
)
    requires
        pre.wf(),
        pre.meta().data_offset + 8 <= pre.meta().data_end_offset || pre.meta().data_end_offset + 8
            <= pre.meta().data_offset,
        pre.runs_at(mem, start, result, post),
    ensures
        load_address(post.meta().buffer@, pre.meta().data_offset as int) == start,
        load_address(post.meta().buffer@, pre.meta().data_end_offset as int) == start + mem@.len(),
        post.meta().wf(),
{
    let end = (start + mem@.len()) as u64;
    law_start_address_is_found(pre.meta(), start, end);
    law_end_address_is_found(pre.meta(), start, end);
}

/// What a run leaves in the machine and hands to the program does not depend on the packets
/// that the machine was run on before.
pub proof fn law_runs_are_independent<'a, E: Engine>(
    pre: EbpfVmFixedMbuff<'a, E>,
    mem1: &[u8],
    start1: u64,
    result1: Result<u64, Error>,
    mid: EbpfVmFixedMbuff<'a, E>,
    mem2: &[u8],
    start2: u64,
    result2: Result<u64, Error>,
    post: EbpfVmFixedMbuff<'a, E>,
)
    requires
        pre.runs_at(mem1, start1, result1, mid),
        mid.runs_at(mem2, start2, result2, post),
    ensures
        pre.runs_at(mem2, start2, result2, post),
{
    law_last_packet_stays(
        pre.meta(),
        start1,
        (start1 + mem1@.len()) as u64,
        mid.meta(),
        start2,
        (start2 + mem2@.len()) as u64,
        post.meta(),
    );
}

} // verus!
