//! The state of a machine, the steps that its operations take, and what holds of them.
use std::collections::HashMap;
use vstd::prelude::*;

use crate::engine::Engine;
use crate::error::{no_program_text, Error, ErrorKind};

verus! {

/// The state that every kind of machine has.
pub struct VmState<'a, E: Engine> {
    /// The loaded program, if any.
    pub prog: Option<&'a [u8]>,
    /// The verifier that programs have to pass.
    pub verifier: E::Verifier,
    /// The registered helpers.
    pub helpers: HashMap<u32, E::Helper>,
    /// The outcome of the last successful compilation, if any.
    pub compiled: Option<E::Compiled>,
}

/// `verdict` is an outcome of running `verifier` on `prog`.
pub open spec fn judges<E: Engine>(
    verifier: E::Verifier,
    prog: &[u8],
    verdict: Result<(), Error>,
) -> bool {
    call_ensures(E::verify, (&verifier, prog), verdict)
}

impl<'a, E: Engine> VmState<'a, E> {
    /// The loaded program, if any, has been accepted by the verifier that is in place.
    pub open spec fn checked(self) -> bool {
        self.prog matches Some(p) ==> judges::<E>(self.verifier, p, Ok(()))
    }

    /// The state that a machine starts in when it is given `prog`.
    pub open spec fn is_initial(self, prog: Option<&'a [u8]>) -> bool {
        &&& self.prog == prog
        &&& self.verifier == E::CHECK
        &&& self.helpers@ == Map::<u32, E::Helper>::empty()
        &&& self.compiled is None
    }

    /// Starting a machine with `prog` leads to `result`.
    pub open spec fn starts(prog: Option<&'a [u8]>, result: Result<Self, Error>) -> bool {
        match result {
            Ok(state) => {
                &&& state.is_initial(prog)
                &&& state.checked()
            },
            Err(e) => prog matches Some(p) && judges::<E>(E::CHECK, p, Err(e)),
        }
    }

    /// Loading `prog` returns `result` and leads to `post`: the verifier in place decides,
    /// and only a program that it accepts replaces the one that is loaded.
    pub open spec fn loads(self, prog: &'a [u8], result: Result<(), Error>, post: Self) -> bool {
        &&& judges::<E>(self.verifier, prog, result)
        &&& post == match result {
            Ok(_) => VmState { prog: Some(prog), ..self },
            Err(_) => self,
        }
    }

    /// Setting `verifier` returns `result` and leads to `post`: the new verifier judges the
    /// loaded program, if there is one, and takes its place only if it accepts it.
    pub open spec fn adopts(
        self,
        verifier: E::Verifier,
        result: Result<(), Error>,
        post: Self,
    ) -> bool {
        &&& match self.prog {
            Some(p) => judges::<E>(verifier, p, result),
            None => result is Ok,
        }
        &&& post == match result {
            Ok(_) => VmState { verifier, ..self },
            Err(_) => self,
        }
    }

    /// Registering `function` under `key` leads to `post`.
    pub open spec fn registers(self, key: u32, function: E::Helper, post: Self) -> bool {
        &&& post.helpers@ == self.helpers@.insert(key, function)
        &&& post == (VmState { helpers: post.helpers, ..self })
    }

    /// Interpreting the loaded program on `mem` and `mbuff` can return `result`.
    pub open spec fn runs(self, mem: &[u8], mbuff: &[u8], result: Result<u64, Error>) -> bool {
        call_ensures(E::execute_program, (self.prog, mem, mbuff, &self.helpers), result)
    }

    /// Running the compiled program on `mem` and `mbuff`, which it may write to, can return
    /// `result`.
    pub open spec fn runs_compiled(
        self,
        mem: &mut [u8],
        mbuff: &mut [u8],
        result: Result<u64, Error>,
    ) -> bool {
        match self.compiled {
            Some(program) => call_ensures(
                E::execute_compiled,
                (Some(&program), mem, mbuff, &self.helpers),
                result,
            ),
            None => call_ensures(E::execute_compiled, (None, mem, mbuff, &self.helpers), result),
        }
    }

    /// Handing the registered helpers and `prog` to the compiler can return `outcome`.
    pub open spec fn compiles_to(
        self,
        prog: &[u8],
        outcome: Result<E::Compiled, Error>,
    ) -> bool {
        exists|helpers: HashMap<u32, E::Helper>|
            helpers@ == self.helpers@ && #[trigger] call_ensures(
                E::compile_function,
                (helpers, prog),
                outcome,
            )
    }

    /// Compiling the loaded program returns `result` and leads to `post`. Without a program
    /// it fails; otherwise the compiler decides, and what it makes is kept.
    pub open spec fn compiles(self, result: Result<(), Error>, post: Self) -> bool {
        match self.prog {
            None => {
                &&& result matches Err(e)
                &&& e.spec_kind() == ErrorKind::Other
                &&& e.spec_message() == no_program_text()
                &&& post == self
            },
            Some(p) => match result {
                Ok(_) => {
                    &&& post.compiled matches Some(program)
                    &&& self.compiles_to(p, Ok(program))
                    &&& post == (VmState { compiled: post.compiled, ..self })
                },
                Err(e) => {
                    &&& self.compiles_to(p, Err(e))
                    &&& post == self
                },
            },
        }
    }
}

/// A rejected program changes nothing.
pub proof fn law_rejected_program_changes_nothing<'a, E: Engine>(
    pre: VmState<'a, E>,
    prog: &'a [u8],
    e: Error,
    post: VmState<'a, E>,
)
    requires
        pre.loads(prog, Err(e), post),
    ensures
        post == pre,
{
}

/// A verifier that rejects the loaded program changes nothing.
pub proof fn law_failing_verifier_changes_nothing<'a, E: Engine>(
    pre: VmState<'a, E>,
    verifier: E::Verifier,
    e: Error,
    post: VmState<'a, E>,
)
    requires
        pre.adopts(verifier, Err(e), post),
    ensures
        post == pre,
{
}

/// Every step keeps it that the loaded program has been accepted by the verifier in place.
pub proof fn law_steps_keep_checked<'a, E: Engine>(
    pre: VmState<'a, E>,
    post: VmState<'a, E>,
    prog: &'a [u8],
    verifier: E::Verifier,
    key: u32,
    function: E::Helper,
    result: Result<(), Error>,
)
    requires
        pre.checked(),
        pre.loads(prog, result, post) || pre.adopts(verifier, result, post) || pre.registers(
            key,
            function,
            post,
        ) || pre.compiles(result, post),
    ensures
        post.checked(),
{
    if let Ok(unit) = result {
        assert(unit == ());
    }
}

/// Of two programs loaded one after the other, the first leaves no trace.
pub proof fn law_last_program_stays<'a, E: Engine>(
    pre: VmState<'a, E>,
    first: &'a [u8],
    mid: VmState<'a, E>,
    second: &'a [u8],
    result: Result<(), Error>,
    post: VmState<'a, E>,
)
    requires
        pre.loads(first, Ok(()), mid),
        mid.loads(second, result, post),
    ensures
        result is Ok ==> pre.loads(second, result, post),
        result is Err ==> post.prog == Some(first),
{
}

/// Once a verifier is set, it is the one that programs have to pass.
pub proof fn law_new_verifier_judges<'a, E: Engine>(
    pre: VmState<'a, E>,
    verifier: E::Verifier,
    mid: VmState<'a, E>,
    prog: &'a [u8],
    result: Result<(), Error>,
    post: VmState<'a, E>,
)
    requires
        pre.adopts(verifier, Ok(()), mid),
        mid.loads(prog, result, post),
    ensures
        judges::<E>(verifier, prog, result),
{
}

/// A helper is found under the key that it was registered under, and all other keys are as
/// they were.
pub proof fn law_registered_helper_is_found<'a, E: Engine>(
    pre: VmState<'a, E>,
    key: u32,
    function: E::Helper,
    post: VmState<'a, E>,
    other: u32,
)
    requires
        pre.registers(key, function, post),
    ensures
        post.helpers@.contains_key(key),
        post.helpers@[key] == function,
        other != key ==> post.helpers@.contains_key(other) == pre.helpers@.contains_key(other),
        other != key && pre.helpers@.contains_key(other) ==> post.helpers@[other]
            == pre.helpers@[other],
{
}

/// Of two helpers registered under one key, the first leaves no trace.
pub proof fn law_last_helper_stays<'a, E: Engine>(
    pre: VmState<'a, E>,
    key: u32,
    first: E::Helper,
    mid: VmState<'a, E>,
    second: E::Helper,
    post: VmState<'a, E>,
)
    requires
        pre.registers(key, first, mid),
        mid.registers(key, second, post),
    ensures
        pre.registers(key, second, post),
{
    assert(post.helpers@ =~= pre.helpers@.insert(key, second));
}

/// In which order two helpers are registered under different keys does not matter.
pub proof fn law_registrations_commute<'a, E: Engine>(
    pre: VmState<'a, E>,
    k1: u32,
    f1: E::Helper,
    k2: u32,
    f2: E::Helper,
    a: VmState<'a, E>,
    ab: VmState<'a, E>,
    b: VmState<'a, E>,
    ba: VmState<'a, E>,
)
    requires
        k1 != k2,
        pre.registers(k1, f1, a),
        a.registers(k2, f2, ab),
        pre.registers(k2, f2, b),
        b.registers(k1, f1, ba),
    ensures
        ab.helpers@ == ba.helpers@,
        ab == (VmState { helpers: ab.helpers, ..ba }),
{
    assert(ab.helpers@ =~= ba.helpers@);
}

/// A compiled program stays until the next compilation, whatever is loaded, set or
/// registered in between, and compiling changes nothing else.
pub proof fn law_compiled_program_stays<'a, E: Engine>(
    pre: VmState<'a, E>,
    post: VmState<'a, E>,
    prog: &'a [u8],
    verifier: E::Verifier,
    key: u32,
    function: E::Helper,
    result: Result<(), Error>,
)
    ensures
        pre.loads(prog, result, post) || pre.adopts(verifier, result, post) || pre.registers(
            key,
            function,
            post,
        ) ==> post.compiled == pre.compiled,
        pre.compiles(result, post) ==> post == (VmState { compiled: post.compiled, ..pre }),
{
}

/// The compiler is faithful to the interpreter on `prog`: wherever interpreting `prog` returns
/// a value, running what it was compiled to returns this value, on the same memory and with the
/// same helpers, as long as the keys are those that were registered when it was compiled.
pub open spec fn compiler_is_faithful_on<E: Engine>(prog: &[u8]) -> bool {
    forall|
        compiled_with: HashMap<u32, E::Helper>,
        program: E::Compiled,
        mem: &[u8],
        mbuff: &[u8],
        interpreted_with: HashMap<u32, E::Helper>,
        value: u64,
        m: &mut [u8],
        b: &mut [u8],
        run_with: HashMap<u32, E::Helper>,
        result: Result<u64, Error>,
    |
        {
            &&& #[trigger] call_ensures(E::compile_function, (compiled_with, prog), Ok(program))
            &&& #[trigger] call_ensures(
                E::execute_program,
                (Some(prog), mem, mbuff, &interpreted_with),
                Ok(value),
            )
            &&& #[trigger] call_ensures(
                E::execute_compiled,
                (Some(&program), m, b, &run_with),
                result,
            )
            &&& m@ == mem@
            &&& b@ == mbuff@
            &&& run_with@ == interpreted_with@
            &&& run_with@.dom() == compiled_with@.dom()
        } ==> result == Ok::<u64, Error>(value)
}

/// Where the compiler is faithful on a program, running what the program was compiled to
/// returns what interpreting it returns on the same memory and with the same helpers, which
/// may have been changed since, but not added to.
pub proof fn law_compiled_run_agrees<'a, E: Engine>(
    pre: VmState<'a, E>,
    made: VmState<'a, E>,
    interpreted: VmState<'a, E>,
    mem: &[u8],
    mbuff: &[u8],
    value: u64,
    later: VmState<'a, E>,
    m: &mut [u8],
    b: &mut [u8],
    result: Result<u64, Error>,
)
    requires
        pre.prog matches Some(p) ==> compiler_is_faithful_on::<E>(p),
        pre.compiles(Ok(()), made),
        interpreted.prog == made.prog,
        interpreted.runs(mem, mbuff, Ok(value)),
        later.compiled == made.compiled,
        later.helpers@ == interpreted.helpers@,
        later.helpers@.dom() == made.helpers@.dom(),
        m@ == mem@,
        b@ == mbuff@,
        later.runs_compiled(m, b, result),
    ensures
        result == Ok::<u64, Error>(value),
{
}

/// Where the compiler is faithful on a program, once the program has been compiled and
/// interpreting it has returned a value, the compiled run returns this value on the same
/// memory, even if another program has been loaded since.
pub proof fn law_compiled_run_agrees_after_load<'a, E: Engine>(
    pre: VmState<'a, E>,
    made: VmState<'a, E>,
    mem: &[u8],
    mbuff: &[u8],
    value: u64,
    prog: &'a [u8],
    verdict: Result<(), Error>,
    later: VmState<'a, E>,
    m: &mut [u8],
    b: &mut [u8],
    result: Result<u64, Error>,
)
    requires
        pre.prog matches Some(p) ==> compiler_is_faithful_on::<E>(p),
        pre.compiles(Ok(()), made),
        made.runs(mem, mbuff, Ok(value)),
        later == made || made.loads(prog, verdict, later),
        m@ == mem@,
        b@ == mbuff@,
        later.runs_compiled(m, b, result),
    ensures
        result == Ok::<u64, Error>(value),
{
    law_compiled_run_agrees(pre, made, made, mem, mbuff, value, later, m, b, result);
}

} // verus!
