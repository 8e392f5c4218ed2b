//! What the operations of the machines do, in terms of the calls of the engine and of the parts
//! of the state alone. Each law speaks of every outcome that the contract of an operation
//! allows: `call_ensures` of the operation, its arguments and its result.
use std::collections::HashMap;
use vstd::arithmetic::power::pow;
use vstd::prelude::*;

use crate::engine::Engine;
use crate::error::{decimal, Error, ErrorKind};
use crate::fixed::{lies_at, EbpfVmFixedMbuff};
use crate::layout::{law_le_byte_is_digit, lemma_le_bytes_len};
use crate::mbuff::EbpfVmMbuff;
use crate::metabuff::MetaBuff;
use crate::nodata::EbpfVmNoData;
use crate::raw::EbpfVmRaw;

verus! {

/// A new `EbpfVmMbuff` holds the program that it was given and the default verifier,
/// and neither helpers nor compiled code. It is refused only with an error that the default
/// verifier returned for the program.
pub proof fn law_mbuff_new<'a, E: Engine>(
    prog: Option<&'a [u8]>,
    result: Result<EbpfVmMbuff<'a, E>, Error>,
)
    requires
        call_ensures(EbpfVmMbuff::<'a, E>::new, (prog,), result),
    ensures
        result matches Ok(vm) ==> {
            &&& vm.wf()
            &&& vm@.prog == prog
            &&& vm@.verifier == E::CHECK
            &&& vm@.helpers@ == Map::<u32, E::Helper>::empty()
            &&& vm@.compiled is None
            &&& prog matches Some(p) ==> call_ensures(E::verify, (&E::CHECK, p), Ok(()))
        },
        result matches Err(e) ==> prog matches Some(p) && call_ensures(
            E::verify,
            (&E::CHECK, p),
            Err(e),
        ),
{
}

/// Loading a program into an `EbpfVmMbuff` returns what the verifier in place
/// returned for it. An accepted program is the one that is loaded then, a rejected one leaves
/// the one before. The verifier, the helpers and the compiled code are left as they were.
pub proof fn law_mbuff_set_program<'a, E: Engine>(
    vm: &mut EbpfVmMbuff<'a, E>,
    prog: &'a [u8],
    result: Result<(), Error>,
)
    requires
        call_ensures(EbpfVmMbuff::<'a, E>::set_program, (vm, prog), result),
    ensures
        call_ensures(E::verify, (&old(vm)@.verifier, prog), result),
        result is Ok ==> final(vm)@.prog == Some(prog),
        result is Err ==> final(vm)@.prog == old(vm)@.prog,
        final(vm)@.verifier == old(vm)@.verifier,
        final(vm)@.helpers == old(vm)@.helpers,
        final(vm)@.compiled == old(vm)@.compiled,
        final(vm).wf(),
{
}

/// Setting a verifier on an `EbpfVmMbuff` returns what the new verifier returned for the loaded
/// program, and succeeds if there is none. The new verifier is in place then, unless it
/// rejected the program. Nothing else changes.
pub proof fn law_mbuff_set_verifier<'a, E: Engine>(
    vm: &mut EbpfVmMbuff<'a, E>,
    verifier: E::Verifier,
    result: Result<(), Error>,
)
    requires
        call_ensures(EbpfVmMbuff::<'a, E>::set_verifier, (vm, verifier), result),
    ensures
        old(vm)@.prog matches Some(p) ==> call_ensures(E::verify, (&verifier, p), result),
        old(vm)@.prog is None ==> result is Ok,
        result is Ok ==> final(vm)@.verifier == verifier,
        result is Err ==> final(vm)@.verifier == old(vm)@.verifier,
        final(vm)@.prog == old(vm)@.prog,
        final(vm)@.helpers == old(vm)@.helpers,
        final(vm)@.compiled == old(vm)@.compiled,
        final(vm).wf(),
{
}

/// Registering a helper on an `EbpfVmMbuff` succeeds, makes it the one that is found
/// under its key, and leaves all other keys and everything else as they were.
pub proof fn law_mbuff_register_helper<'a, E: Engine>(
    vm: &mut EbpfVmMbuff<'a, E>,
    key: u32,
    function: E::Helper,
    result: Result<(), Error>,
)
    requires
        call_ensures(EbpfVmMbuff::<'a, E>::register_helper, (vm, key, function), result),
    ensures
        result is Ok,
        final(vm)@.helpers@ == old(vm)@.helpers@.insert(key, function),
        final(vm)@.prog == old(vm)@.prog,
        final(vm)@.verifier == old(vm)@.verifier,
        final(vm)@.compiled == old(vm)@.compiled,
        final(vm).wf(),
{
}

/// A new `EbpfVmFixedMbuff` holds the program that it was given and the default verifier,
/// and neither helpers nor compiled code. It is refused only with an error that the default
/// verifier returned for the program.
pub proof fn law_fixed_new<'a, E: Engine>(
    prog: Option<&'a [u8]>,
    data_offset: usize,
    data_end_offset: usize,
    result: Result<EbpfVmFixedMbuff<'a, E>, Error>,
)
    requires
        call_ensures(EbpfVmFixedMbuff::<'a, E>::new, (prog, data_offset, data_end_offset), result),
    ensures
        result matches Ok(vm) ==> {
            &&& vm.wf()
            &&& vm@.prog == prog
            &&& vm@.verifier == E::CHECK
            &&& vm@.helpers@ == Map::<u32, E::Helper>::empty()
            &&& vm@.compiled is None
            &&& prog matches Some(p) ==> call_ensures(E::verify, (&E::CHECK, p), Ok(()))
            &&& vm.meta().data_offset == data_offset
            &&& vm.meta().data_end_offset == data_end_offset
            &&& forall|i: int| 0 <= i < vm.meta().buffer@.len() ==> vm.meta().buffer@[i] == 0
            &&& vm.meta().buffer@.len() == if data_offset >= data_end_offset {
                data_offset + 8
            } else {
                data_end_offset + 8
            }
        },
        result matches Err(e) ==> prog matches Some(p) && call_ensures(
            E::verify,
            (&E::CHECK, p),
            Err(e),
        ),
{
}

/// Loading a program into an `EbpfVmFixedMbuff` returns what the verifier in place
/// returned for it. An accepted program is the one that is loaded then, a rejected one leaves
/// the one before. The verifier, the helpers and the compiled code are left as they were.
/// The offsets are the new ones in any case, and the buffer holds zeros.
pub proof fn law_fixed_set_program<'a, E: Engine>(
    vm: &mut EbpfVmFixedMbuff<'a, E>,
    prog: &'a [u8],
    data_offset: usize,
    data_end_offset: usize,
    result: Result<(), Error>,
)
    requires
        call_ensures(
            EbpfVmFixedMbuff::<'a, E>::set_program,
            (vm, prog, data_offset, data_end_offset),
            result,
        ),
    ensures
        call_ensures(E::verify, (&old(vm)@.verifier, prog), result),
        result is Ok ==> final(vm)@.prog == Some(prog),
        result is Err ==> final(vm)@.prog == old(vm)@.prog,
        final(vm)@.verifier == old(vm)@.verifier,
        final(vm)@.helpers == old(vm)@.helpers,
        final(vm)@.compiled == old(vm)@.compiled,
        final(vm).wf(),
        final(vm).meta().data_offset == data_offset,
        final(vm).meta().data_end_offset == data_end_offset,
        forall|i: int|
            0 <= i < final(vm).meta().buffer@.len() ==> final(vm).meta().buffer@[i] == 0,
        final(vm).meta().buffer@.len() == if data_offset >= data_end_offset {
            data_offset + 8
        } else {
            data_end_offset + 8
        },
{
}

/// Setting a verifier on an `EbpfVmFixedMbuff` returns what the new verifier returned for the loaded
/// program, and succeeds if there is none. The new verifier is in place then, unless it
/// rejected the program. Nothing else changes.
pub proof fn law_fixed_set_verifier<'a, E: Engine>(
    vm: &mut EbpfVmFixedMbuff<'a, E>,
    verifier: E::Verifier,
    result: Result<(), Error>,
)
    requires
        call_ensures(EbpfVmFixedMbuff::<'a, E>::set_verifier, (vm, verifier), result),
    ensures
        old(vm)@.prog matches Some(p) ==> call_ensures(E::verify, (&verifier, p), result),
        old(vm)@.prog is None ==> result is Ok,
        result is Ok ==> final(vm)@.verifier == verifier,
        result is Err ==> final(vm)@.verifier == old(vm)@.verifier,
        final(vm)@.prog == old(vm)@.prog,
        final(vm)@.helpers == old(vm)@.helpers,
        final(vm)@.compiled == old(vm)@.compiled,
        final(vm).wf(),
        final(vm).meta() == old(vm).meta(),
{
}

/// Registering a helper on an `EbpfVmFixedMbuff` succeeds, makes it the one that is found
/// under its key, and leaves all other keys and everything else as they were.
pub proof fn law_fixed_register_helper<'a, E: Engine>(
    vm: &mut EbpfVmFixedMbuff<'a, E>,
    key: u32,
    function: E::Helper,
    result: Result<(), Error>,
)
    requires
        call_ensures(EbpfVmFixedMbuff::<'a, E>::register_helper, (vm, key, function), result),
    ensures
        result is Ok,
        final(vm)@.helpers@ == old(vm)@.helpers@.insert(key, function),
        final(vm)@.prog == old(vm)@.prog,
        final(vm)@.verifier == old(vm)@.verifier,
        final(vm)@.compiled == old(vm)@.compiled,
        final(vm).wf(),
        final(vm).meta() == old(vm).meta(),
{
}

/// A new `EbpfVmRaw` holds the program that it was given and the default verifier,
/// and neither helpers nor compiled code. It is refused only with an error that the default
/// verifier returned for the program.
pub proof fn law_raw_new<'a, E: Engine>(
    prog: Option<&'a [u8]>,
    result: Result<EbpfVmRaw<'a, E>, Error>,
)
    requires
        call_ensures(EbpfVmRaw::<'a, E>::new, (prog,), result),
    ensures
        result matches Ok(vm) ==> {
            &&& vm.wf()
            &&& vm@.prog == prog
            &&& vm@.verifier == E::CHECK
            &&& vm@.helpers@ == Map::<u32, E::Helper>::empty()
            &&& vm@.compiled is None
            &&& prog matches Some(p) ==> call_ensures(E::verify, (&E::CHECK, p), Ok(()))
        },
        result matches Err(e) ==> prog matches Some(p) && call_ensures(
            E::verify,
            (&E::CHECK, p),
            Err(e),
        ),
{
}

/// Loading a program into an `EbpfVmRaw` returns what the verifier in place
/// returned for it. An accepted program is the one that is loaded then, a rejected one leaves
/// the one before. The verifier, the helpers and the compiled code are left as they were.
pub proof fn law_raw_set_program<'a, E: Engine>(
    vm: &mut EbpfVmRaw<'a, E>,
    prog: &'a [u8],
    result: Result<(), Error>,
)
    requires
        call_ensures(EbpfVmRaw::<'a, E>::set_program, (vm, prog), result),
    ensures
        call_ensures(E::verify, (&old(vm)@.verifier, prog), result),
        result is Ok ==> final(vm)@.prog == Some(prog),
        result is Err ==> final(vm)@.prog == old(vm)@.prog,
        final(vm)@.verifier == old(vm)@.verifier,
        final(vm)@.helpers == old(vm)@.helpers,
        final(vm)@.compiled == old(vm)@.compiled,
        final(vm).wf(),
{
}

/// Setting a verifier on an `EbpfVmRaw` returns what the new verifier returned for the loaded
/// program, and succeeds if there is none. The new verifier is in place then, unless it
/// rejected the program. Nothing else changes.
pub proof fn law_raw_set_verifier<'a, E: Engine>(
    vm: &mut EbpfVmRaw<'a, E>,
    verifier: E::Verifier,
    result: Result<(), Error>,
)
    requires
        call_ensures(EbpfVmRaw::<'a, E>::set_verifier, (vm, verifier), result),
    ensures
        old(vm)@.prog matches Some(p) ==> call_ensures(E::verify, (&verifier, p), result),
        old(vm)@.prog is None ==> result is Ok,
        result is Ok ==> final(vm)@.verifier == verifier,
        result is Err ==> final(vm)@.verifier == old(vm)@.verifier,
        final(vm)@.prog == old(vm)@.prog,
        final(vm)@.helpers == old(vm)@.helpers,
        final(vm)@.compiled == old(vm)@.compiled,
        final(vm).wf(),
{
}

/// Registering a helper on an `EbpfVmRaw` succeeds, makes it the one that is found
/// under its key, and leaves all other keys and everything else as they were.
pub proof fn law_raw_register_helper<'a, E: Engine>(
    vm: &mut EbpfVmRaw<'a, E>,
    key: u32,
    function: E::Helper,
    result: Result<(), Error>,
)
    requires
        call_ensures(EbpfVmRaw::<'a, E>::register_helper, (vm, key, function), result),
    ensures
        result is Ok,
        final(vm)@.helpers@ == old(vm)@.helpers@.insert(key, function),
        final(vm)@.prog == old(vm)@.prog,
        final(vm)@.verifier == old(vm)@.verifier,
        final(vm)@.compiled == old(vm)@.compiled,
        final(vm).wf(),
{
}

/// A new `EbpfVmNoData` holds the program that it was given and the default verifier,
/// and neither helpers nor compiled code. It is refused only with an error that the default
/// verifier returned for the program.
pub proof fn law_nodata_new<'a, E: Engine>(
    prog: Option<&'a [u8]>,
    result: Result<EbpfVmNoData<'a, E>, Error>,
)
    requires
        call_ensures(EbpfVmNoData::<'a, E>::new, (prog,), result),
    ensures
        result matches Ok(vm) ==> {
            &&& vm.wf()
            &&& vm@.prog == prog
            &&& vm@.verifier == E::CHECK
            &&& vm@.helpers@ == Map::<u32, E::Helper>::empty()
            &&& vm@.compiled is None
            &&& prog matches Some(p) ==> call_ensures(E::verify, (&E::CHECK, p), Ok(()))
        },
        result matches Err(e) ==> prog matches Some(p) && call_ensures(
            E::verify,
            (&E::CHECK, p),
            Err(e),
        ),
{
}

/// Loading a program into an `EbpfVmNoData` returns what the verifier in place
/// returned for it. An accepted program is the one that is loaded then, a rejected one leaves
/// the one before. The verifier, the helpers and the compiled code are left as they were.
pub proof fn law_nodata_set_program<'a, E: Engine>(
    vm: &mut EbpfVmNoData<'a, E>,
    prog: &'a [u8],
    result: Result<(), Error>,
)
    requires
        call_ensures(EbpfVmNoData::<'a, E>::set_program, (vm, prog), result),
    ensures
        call_ensures(E::verify, (&old(vm)@.verifier, prog), result),
        result is Ok ==> final(vm)@.prog == Some(prog),
        result is Err ==> final(vm)@.prog == old(vm)@.prog,
        final(vm)@.verifier == old(vm)@.verifier,
        final(vm)@.helpers == old(vm)@.helpers,
        final(vm)@.compiled == old(vm)@.compiled,
        final(vm).wf(),
{
}

/// Setting a verifier on an `EbpfVmNoData` returns what the new verifier returned for the loaded
/// program, and succeeds if there is none. The new verifier is in place then, unless it
/// rejected the program. Nothing else changes.
pub proof fn law_nodata_set_verifier<'a, E: Engine>(
    vm: &mut EbpfVmNoData<'a, E>,
    verifier: E::Verifier,
    result: Result<(), Error>,
)
    requires
        call_ensures(EbpfVmNoData::<'a, E>::set_verifier, (vm, verifier), result),
    ensures
        old(vm)@.prog matches Some(p) ==> call_ensures(E::verify, (&verifier, p), result),
        old(vm)@.prog is None ==> result is Ok,
        result is Ok ==> final(vm)@.verifier == verifier,
        result is Err ==> final(vm)@.verifier == old(vm)@.verifier,
        final(vm)@.prog == old(vm)@.prog,
        final(vm)@.helpers == old(vm)@.helpers,
        final(vm)@.compiled == old(vm)@.compiled,
        final(vm).wf(),
{
}

/// Registering a helper on an `EbpfVmNoData` succeeds, makes it the one that is found
/// under its key, and leaves all other keys and everything else as they were.
pub proof fn law_nodata_register_helper<'a, E: Engine>(
    vm: &mut EbpfVmNoData<'a, E>,
    key: u32,
    function: E::Helper,
    result: Result<(), Error>,
)
    requires
        call_ensures(EbpfVmNoData::<'a, E>::register_helper, (vm, key, function), result),
    ensures
        result is Ok,
        final(vm)@.helpers@ == old(vm)@.helpers@.insert(key, function),
        final(vm)@.prog == old(vm)@.prog,
        final(vm)@.verifier == old(vm)@.verifier,
        final(vm)@.compiled == old(vm)@.compiled,
        final(vm).wf(),
{
}

/// Running an `EbpfVmMbuff` returns what the interpreter returned for the loaded program, the
/// packet, the metadata buffer and the registered helpers, whatever they are.
pub proof fn law_mbuff_execute_program<'a, E: Engine>(
    vm: &EbpfVmMbuff<'a, E>,
    mem: &[u8],
    mbuff: &[u8],
    result: Result<u64, Error>,
)
    requires
        call_ensures(EbpfVmMbuff::<'a, E>::execute_program, (vm, mem, mbuff), result),
    ensures
        call_ensures(E::execute_program, (vm@.prog, mem, mbuff, &vm@.helpers), result),
{
}

/// Running an `EbpfVmRaw` returns what the interpreter returned for the loaded program, the
/// packet, an empty metadata buffer and the registered helpers. The packet is left as it was.
pub proof fn law_raw_execute_program<'a, E: Engine>(
    vm: &EbpfVmRaw<'a, E>,
    mem: &'a mut [u8],
    result: Result<u64, Error>,
)
    requires
        call_ensures(EbpfVmRaw::<'a, E>::execute_program, (vm, mem), result),
    ensures
        final(mem)@ == old(mem)@,
        exists|mbuff: &[u8]|
            mbuff@.len() == 0 && #[trigger] call_ensures(
                E::execute_program,
                (vm@.prog, old(mem), mbuff, &vm@.helpers),
                result,
            ),
{
}

/// Running an `EbpfVmNoData` returns what the interpreter returned for the loaded program, an
/// empty packet, an empty metadata buffer and the registered helpers.
pub proof fn law_nodata_execute_program<'a, E: Engine>(
    vm: &EbpfVmNoData<'a, E>,
    result: Result<u64, Error>,
)
    requires
        call_ensures(EbpfVmNoData::<'a, E>::execute_program, (vm,), result),
    ensures
        exists|mem: &[u8], mbuff: &[u8]|
            mem@.len() == 0 && mbuff@.len() == 0 && #[trigger] call_ensures(
                E::execute_program,
                (vm@.prog, mem, mbuff, &vm@.helpers),
                result,
            ),
{
}

/// The program in a machine has been accepted by the verifier in place.
pub proof fn law_loaded_program_was_accepted<'a, E: Engine>(
    mbuff: EbpfVmMbuff<'a, E>,
    fixed: EbpfVmFixedMbuff<'a, E>,
    raw: EbpfVmRaw<'a, E>,
    nodata: EbpfVmNoData<'a, E>,
    prog: &'a [u8],
)
    ensures
        mbuff.wf() && mbuff@.prog == Some(prog) ==> call_ensures(
            E::verify,
            (&mbuff@.verifier, prog),
            Ok(()),
        ),
        fixed.wf() && fixed@.prog == Some(prog) ==> call_ensures(
            E::verify,
            (&fixed@.verifier, prog),
            Ok(()),
        ),
        raw.wf() && raw@.prog == Some(prog) ==> call_ensures(
            E::verify,
            (&raw@.verifier, prog),
            Ok(()),
        ),
        nodata.wf() && nodata@.prog == Some(prog) ==> call_ensures(
            E::verify,
            (&nodata@.verifier, prog),
            Ok(()),
        ),
{
}

/// The buffer of an `EbpfVmFixedMbuff` has room for an address at each of its offsets, and
/// holds nothing but zeros next to them.
pub proof fn law_fixed_buffer_has_room<'a, E: Engine>(vm: EbpfVmFixedMbuff<'a, E>, i: int)
    requires
        vm.wf(),
    ensures
        vm.meta().data_offset + 8 <= vm.meta().buffer@.len(),
        vm.meta().data_end_offset + 8 <= vm.meta().buffer@.len(),
        0 <= i < vm.meta().buffer@.len() && !(0 <= i - vm.meta().data_offset < 8) && !(0 <= i
            - vm.meta().data_end_offset < 8) ==> vm.meta().buffer@[i] == 0,
{
}

/// Any two offsets will do for which a vector can be long enough.
pub proof fn law_offsets_are_free<'a, E: Engine>(
    prog: Option<&'a [u8]>,
    vm: &mut EbpfVmFixedMbuff<'a, E>,
    next: &'a [u8],
    data_offset: usize,
    data_end_offset: usize,
)
    requires
        data_offset + 8 <= isize::MAX,
        data_end_offset + 8 <= isize::MAX,
    ensures
        call_requires(MetaBuff::new, (data_offset, data_end_offset)),
        call_requires(
            EbpfVmFixedMbuff::<'a, E>::new,
            (prog, data_offset, data_end_offset),
        ),
        old(vm).wf() ==> call_requires(
            EbpfVmFixedMbuff::<'a, E>::set_program,
            (vm, next, data_offset, data_end_offset),
        ),
{
}

/// A new metadata buffer is as long as it takes to hold an address at each of the two offsets,
/// and holds nothing but zeros.
pub proof fn law_metabuff_new(data_offset: usize, data_end_offset: usize, mbuff: MetaBuff, i: int)
    requires
        call_ensures(MetaBuff::new, (data_offset, data_end_offset), mbuff),
    ensures
        mbuff.data_offset == data_offset,
        mbuff.data_end_offset == data_end_offset,
        mbuff.buffer@.len() == if data_offset >= data_end_offset {
            data_offset + 8
        } else {
            data_end_offset + 8
        },
        0 <= i < mbuff.buffer@.len() ==> mbuff.buffer@[i] == 0,
{
}

/// Compiling on an `EbpfVmRaw` returns what the compiler returned for the registered helpers and
/// the loaded program, and keeps the code that it made. Without a program it fails. Nothing
/// else changes.
pub proof fn law_raw_cranelift_compile<'a, E: Engine>(
    vm: &mut EbpfVmRaw<'a, E>,
    result: Result<(), Error>,
)
    requires
        call_ensures(EbpfVmRaw::<'a, E>::cranelift_compile, (vm,), result),
    ensures
        old(vm)@.prog is None ==> {
            &&& result matches Err(e)
            &&& e.spec_kind() == ErrorKind::Other
            &&& e.spec_message() == "Error: No program set, call prog_set() to load one"@
        },
        old(vm)@.prog matches Some(p) ==> match result {
            Ok(_) => {
                &&& final(vm)@.compiled matches Some(program)
                &&& exists|helpers: HashMap<u32, E::Helper>|
                    helpers@ == old(vm)@.helpers@ && #[trigger] call_ensures(
                        E::compile_function,
                        (helpers, p),
                        Ok(program),
                    )
            },
            Err(e) => exists|helpers: HashMap<u32, E::Helper>|
                helpers@ == old(vm)@.helpers@ && #[trigger] call_ensures(
                    E::compile_function,
                    (helpers, p),
                    Err(e),
                ),
        },
        result is Err ==> final(vm)@.compiled == old(vm)@.compiled,
        final(vm)@.prog == old(vm)@.prog,
        final(vm)@.verifier == old(vm)@.verifier,
        final(vm)@.helpers == old(vm)@.helpers,
        final(vm).wf(),
{
}

/// Compiling on an `EbpfVmNoData` returns what the compiler returned for the registered helpers and
/// the loaded program, and keeps the code that it made. Without a program it fails. Nothing
/// else changes.
pub proof fn law_nodata_cranelift_compile<'a, E: Engine>(
    vm: &mut EbpfVmNoData<'a, E>,
    result: Result<(), Error>,
)
    requires
        call_ensures(EbpfVmNoData::<'a, E>::cranelift_compile, (vm,), result),
    ensures
        old(vm)@.prog is None ==> {
            &&& result matches Err(e)
            &&& e.spec_kind() == ErrorKind::Other
            &&& e.spec_message() == "Error: No program set, call prog_set() to load one"@
        },
        old(vm)@.prog matches Some(p) ==> match result {
            Ok(_) => {
                &&& final(vm)@.compiled matches Some(program)
                &&& exists|helpers: HashMap<u32, E::Helper>|
                    helpers@ == old(vm)@.helpers@ && #[trigger] call_ensures(
                        E::compile_function,
                        (helpers, p),
                        Ok(program),
                    )
            },
            Err(e) => exists|helpers: HashMap<u32, E::Helper>|
                helpers@ == old(vm)@.helpers@ && #[trigger] call_ensures(
                    E::compile_function,
                    (helpers, p),
                    Err(e),
                ),
        },
        result is Err ==> final(vm)@.compiled == old(vm)@.compiled,
        final(vm)@.prog == old(vm)@.prog,
        final(vm)@.verifier == old(vm)@.verifier,
        final(vm)@.helpers == old(vm)@.helpers,
        final(vm).wf(),
{
}

/// Running compiled code on an `EbpfVmRaw` hands the code that was compiled last, if any, the
/// packet, an empty metadata buffer and the registered helpers to the engine, returns what it
/// returned, and leaves the packet as it left it.
pub proof fn law_raw_execute_program_cranelift<'a, E: Engine>(
    vm: &EbpfVmRaw<'a, E>,
    mem: &'a mut [u8],
    result: Result<u64, Error>,
)
    requires
        call_ensures(EbpfVmRaw::<'a, E>::execute_program_cranelift, (vm, mem), result),
    ensures
        exists|program: Option<&E::Compiled>, m: &mut [u8], b: &mut [u8]|
            {
                &&& match vm@.compiled {
                    Some(c) => program == Some(&c),
                    None => program is None,
                }
                &&& m@ == old(mem)@
                &&& final(m)@ == final(mem)@
                &&& b@.len() == 0
                &&& #[trigger] call_ensures(
                    E::execute_compiled,
                    (program, m, b, &vm@.helpers),
                    result,
                )
            },
{
}

/// Running compiled code on an `EbpfVmNoData` hands the code that was compiled last, if any, an
/// empty packet, an empty metadata buffer and the registered helpers to the engine, and returns
/// what it returned.
pub proof fn law_nodata_execute_program_cranelift<'a, E: Engine>(
    vm: &EbpfVmNoData<'a, E>,
    result: Result<u64, Error>,
)
    requires
        call_ensures(EbpfVmNoData::<'a, E>::execute_program_cranelift, (vm,), result),
    ensures
        exists|program: Option<&E::Compiled>, m: &mut [u8], b: &mut [u8]|
            {
                &&& match vm@.compiled {
                    Some(c) => program == Some(&c),
                    None => program is None,
                }
                &&& m@.len() == 0
                &&& b@.len() == 0
                &&& #[trigger] call_ensures(
                    E::execute_compiled,
                    (program, m, b, &vm@.helpers),
                    result,
                )
            },
{
}

/// Storing two addresses in a metadata buffer that has room for them puts the base 256 digits of
/// the end at the second offset, those of the start at the first offset as far as the end does
/// not cover them, the lowest first, and leaves all other bytes. A buffer without room is left
/// as it is, and the error says how long it is and what the offsets are.
pub proof fn law_metabuff_store_addresses(
    mbuff: &mut MetaBuff,
    start: u64,
    end: u64,
    result: Result<(), Error>,
)
    requires
        call_ensures(MetaBuff::store_addresses, (mbuff, start, end), result),
    ensures
        result is Ok <==> old(mbuff).data_offset + 8 <= old(mbuff).buffer@.len() && old(
            mbuff,
        ).data_end_offset + 8 <= old(mbuff).buffer@.len(),
        final(mbuff).data_offset == old(mbuff).data_offset,
        final(mbuff).data_end_offset == old(mbuff).data_end_offset,
        result is Ok ==> {
            let pre = *old(mbuff);
            let post = *final(mbuff);
            &&& post.buffer@.len() == pre.buffer@.len()
            &&& forall|k: int|
                0 <= k < 8 ==> #[trigger] post.buffer@[pre.data_end_offset + k]
                    == ((end as int / pow(256, k as nat)) % 256) as u8
            &&& forall|k: int|
                0 <= k < 8 && !(0 <= pre.data_offset + k - pre.data_end_offset < 8)
                    ==> #[trigger] post.buffer@[pre.data_offset + k]
                    == ((start as int / pow(256, k as nat)) % 256) as u8
            &&& forall|i: int|
                0 <= i < pre.buffer@.len() && !(0 <= i - pre.data_offset < 8)
                    && !(0 <= i - pre.data_end_offset < 8)
                    ==> #[trigger] post.buffer@[i] == pre.buffer@[i]
        },
        result matches Err(e) ==> {
            &&& final(mbuff).buffer@ == old(mbuff).buffer@
            &&& e.spec_kind() == ErrorKind::Other
            &&& e.spec_message() == "Error: buffer too small ("@ + decimal(
                old(mbuff).buffer@.len(),
            ) + "), cannot use data_offset "@ + decimal(old(mbuff).data_offset as nat)
                + " and data_end_offset "@ + decimal(old(mbuff).data_end_offset as nat)
        },
{
    if result is Ok {
        lemma_stored_bytes(*old(mbuff), start, end, *final(mbuff));
    }
}

/// What a buffer holds once two addresses have been stored, byte by byte.
proof fn lemma_stored_bytes(pre: MetaBuff, start: u64, end: u64, post: MetaBuff)
    requires
        pre.has_room(),
        pre.stores(start, end, post),
    ensures
        ({
            &&& post.buffer@.len() == pre.buffer@.len()
            &&& forall|k: int|
                0 <= k < 8 ==> #[trigger] post.buffer@[pre.data_end_offset + k]
                    == ((end as int / pow(256, k as nat)) % 256) as u8
            &&& forall|k: int|
                0 <= k < 8 && !(0 <= pre.data_offset + k - pre.data_end_offset < 8)
                    ==> #[trigger] post.buffer@[pre.data_offset + k]
                    == ((start as int / pow(256, k as nat)) % 256) as u8
            &&& forall|i: int|
                0 <= i < pre.buffer@.len() && !(0 <= i - pre.data_offset < 8)
                    && !(0 <= i - pre.data_end_offset < 8)
                    ==> #[trigger] post.buffer@[i] == pre.buffer@[i]
        }),
{
    lemma_le_bytes_len(start as nat, 8);
    lemma_le_bytes_len(end as nat, 8);
    assert forall|k: int| 0 <= k < 8 implies #[trigger] post.buffer@[pre.data_end_offset + k]
        == ((end as int / pow(256, k as nat)) % 256) as u8 by {
        law_le_byte_is_digit(end as nat, 8, k);
    }
    assert forall|k: int|
        0 <= k < 8 && !(0 <= pre.data_offset + k - pre.data_end_offset
            < 8) implies #[trigger] post.buffer@[pre.data_offset + k] == ((start as int / pow(
        256,
        k as nat,
    )) % 256) as u8 by {
        law_le_byte_is_digit(start as nat, 8, k);
    }
}

/// Running an `EbpfVmFixedMbuff` on a packet at the address `start` returns what the interpreter
/// returned for the loaded program, the packet, the metadata buffer and the registered helpers.
/// The buffer that the interpreter gets, and that is left in the machine, holds the digits of
/// the address of the end of the packet at the second offset, those of `start` at the first
/// offset as far as the end does not cover them, and otherwise what it held before.
pub proof fn law_fixed_execute_program_at<'a, E: Engine>(
    vm: &mut EbpfVmFixedMbuff<'a, E>,
    mem: &[u8],
    start: u64,
    result: Result<u64, Error>,
)
    requires
        old(vm).wf(),
        call_ensures(EbpfVmFixedMbuff::<'a, E>::execute_program_at, (vm, mem, start), result),
    ensures
        final(vm).wf(),
        final(vm)@ == old(vm)@,
        final(vm).meta().data_offset == old(vm).meta().data_offset,
        final(vm).meta().data_end_offset == old(vm).meta().data_end_offset,
        exists|mbuff: &[u8]|
            mbuff@ == final(vm).meta().buffer@ && #[trigger] call_ensures(
                E::execute_program,
                (old(vm)@.prog, mem, mbuff, &old(vm)@.helpers),
                result,
            ),
        ({
            let pre = old(vm).meta();
            let post = final(vm).meta();
            &&& post.buffer@.len() == pre.buffer@.len()
            &&& forall|k: int|
                0 <= k < 8 ==> #[trigger] post.buffer@[pre.data_end_offset + k]
                    == (((start + mem@.len()) / pow(256, k as nat)) % 256) as u8
            &&& forall|k: int|
                0 <= k < 8 && !(0 <= pre.data_offset + k - pre.data_end_offset < 8)
                    ==> #[trigger] post.buffer@[pre.data_offset + k]
                    == ((start as int / pow(256, k as nat)) % 256) as u8
            &&& forall|i: int|
                0 <= i < pre.buffer@.len() && !(0 <= i - pre.data_offset < 8)
                    && !(0 <= i - pre.data_end_offset < 8)
                    ==> #[trigger] post.buffer@[i] == pre.buffer@[i]
        }),
{
    lemma_stored_bytes(old(vm).meta(), start, (start + mem@.len()) as u64, final(vm).meta());
}

/// Running an `EbpfVmFixedMbuff` on a packet returns what the interpreter returned for the
/// loaded program, the packet, the metadata buffer and the registered helpers. The buffer that
/// the interpreter gets, and that is left in the machine, holds the digits of the address that
/// the packet ends at at the second offset, those of the address that it lies at at the first
/// offset as far as the end does not cover them, and otherwise what it held before.
pub proof fn law_fixed_execute_program<'a, E: Engine>(
    vm: &mut EbpfVmFixedMbuff<'a, E>,
    mem: &'a mut [u8],
    result: Result<u64, Error>,
)
    requires
        old(vm).wf(),
        call_ensures(EbpfVmFixedMbuff::<'a, E>::execute_program, (vm, mem), result),
    ensures
        final(mem)@ == old(mem)@,
        final(vm).wf(),
        final(vm)@ == old(vm)@,
        final(vm).meta().data_offset == old(vm).meta().data_offset,
        final(vm).meta().data_end_offset == old(vm).meta().data_end_offset,
        exists|mbuff: &[u8]|
            mbuff@ == final(vm).meta().buffer@ && #[trigger] call_ensures(
                E::execute_program,
                (old(vm)@.prog, old(mem), mbuff, &old(vm)@.helpers),
                result,
            ),
        exists|start: u64|
            {
                let pre = old(vm).meta();
                let post = final(vm).meta();
                &&& post.buffer@.len() == pre.buffer@.len()
                &&& forall|k: int|
                    0 <= k < 8 ==> #[trigger] post.buffer@[pre.data_end_offset + k]
                        == (((start + old(mem)@.len()) / pow(256, k as nat)) % 256) as u8
                &&& forall|k: int|
                    0 <= k < 8 && !(0 <= pre.data_offset + k - pre.data_end_offset < 8)
                        ==> #[trigger] post.buffer@[pre.data_offset + k]
                        == ((start as int / pow(256, k as nat)) % 256) as u8
                &&& forall|i: int|
                    0 <= i < pre.buffer@.len() && !(0 <= i - pre.data_offset < 8)
                        && !(0 <= i - pre.data_end_offset < 8)
                        ==> #[trigger] post.buffer@[i] == pre.buffer@[i]
                &&& #[trigger] lies_at(old(mem), start)
            },
{
    let start = choose|start: u64|
        lies_at(old(mem), start) && #[trigger] old(vm).runs_at(
            old(mem),
            start,
            result,
            *final(vm),
        );
    lemma_stored_bytes(
        old(vm).meta(),
        start,
        (start + old(mem)@.len()) as u64,
        final(vm).meta(),
    );
    assert(lies_at(old(mem), start));
}

/// A helper is still there for a program that is loaded after it was registered: running the
/// program hands the interpreter a table that has the helper under its key.
pub proof fn law_helper_outlives_load<'a, E: Engine>(
    vm0: &mut EbpfVmMbuff<'a, E>,
    key: u32,
    function: E::Helper,
    registered: Result<(), Error>,
    vm1: &mut EbpfVmMbuff<'a, E>,
    prog: &'a [u8],
    loaded: Result<(), Error>,
    vm2: &EbpfVmMbuff<'a, E>,
    mem: &[u8],
    mbuff: &[u8],
    result: Result<u64, Error>,
)
    requires
        call_ensures(EbpfVmMbuff::<'a, E>::register_helper, (vm0, key, function), registered),
        *old(vm1) == *final(vm0),
        call_ensures(EbpfVmMbuff::<'a, E>::set_program, (vm1, prog), loaded),
        *vm2 == *final(vm1),
        call_ensures(EbpfVmMbuff::<'a, E>::execute_program, (vm2, mem, mbuff), result),
    ensures
        exists|program: Option<&[u8]>, helpers: HashMap<u32, E::Helper>|
            {
                &&& loaded is Ok ==> program == Some(prog)
                &&& helpers@.contains_key(key)
                &&& helpers@[key] == function
                &&& #[trigger] call_ensures(
                    E::execute_program,
                    (program, mem, mbuff, &helpers),
                    result,
                )
            },
{
}

/// An error gives back the kind and the message that it was made with.
pub proof fn law_error_is_what_it_was_made_with(
    kind: ErrorKind,
    message: &str,
    e: Error,
    kind_back: ErrorKind,
    message_back: &str,
)
    requires
        call_ensures(Error::new, (kind, message), e),
        call_ensures(Error::kind, (&e,), kind_back),
        call_ensures(Error::message, (&e,), message_back),
    ensures
        kind_back == kind,
        message_back@ == message@,
{
}

} // verus!
