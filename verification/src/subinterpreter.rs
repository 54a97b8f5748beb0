use vstd::prelude::*;

use crate::errors::RunCodeError;
use crate::lifecycle::Interpreter;
use crate::lifecycle::shutdown_handle_model;
use crate::switcher::ThreadRegister;
use crate::switcher::activate;
use crate::switcher::restore;

verus! {

/// What de-indentation makes of a piece of script text: the result is a
/// function of the characters alone.
pub uninterp spec fn unindent_of(s: Seq<char>) -> Seq<char>;

/// Relies on unindent::unindent: strips the longest common space/tab prefix
/// of the lines after the first from every line; the result depends on the
/// input text alone.
#[verifier::external_body]
fn dedent(code: &str) -> (r: String)
    ensures
        r@ == unindent_of(code@),
{
    unindent::unindent(code)
}

/// The public handle to one isolated execution context.
///
/// All lifecycle-affecting operations demand exclusive access — shutdown
/// through a `&mut` receiver, and the embedding serializes every operation
/// behind a process-wide mutual-exclusion wrapper besides — so no two
/// threads ever work on the same context's lifecycle state at once.
pub struct SubInterpreter {
    interp: Interpreter,
}

impl SubInterpreter {
    /// The owned execution context.
    pub closed spec fn interpreter(self) -> Interpreter {
        self.interp
    }

    /// Valid exactly while the owned context is.
    pub open spec fn valid(self) -> bool {
        self.interpreter().valid()
    }

    /// Running code is admitted exactly on a still-valid handle.
    pub open spec fn run_code_admitted(self) -> bool {
        self.valid()
    }

    /// Takes sole ownership of a created context.
    pub fn new(interp: Interpreter) -> (s: SubInterpreter)
        ensures
            s.interpreter() == interp,
    {
        SubInterpreter { interp }
    }

    /// Reports whether the context is still valid; false from the first
    /// shutdown on.
    pub fn is_valid(&self) -> (b: bool)
        ensures
            b == self.valid(),
    {
        self.interp.is_valid()
    }

    /// Runs a piece of script text within this context.
    ///
    /// The text is first de-indented. On an already-shut-down handle the call
    /// is refused with `InterpreterShutdown` and nothing else happens. On a
    /// valid handle the context is activated, `exec` — the embedding's
    /// execution step, handed the de-indented text, the activated handle and
    /// the displaced one — runs the text under the host's entry point, and
    /// the displaced context is restored, whatever `exec` returned.
    pub fn run_code<T, F: FnOnce(String, usize, usize) -> T>(
        &self,
        reg: &mut ThreadRegister,
        code: &str,
        exec: F,
    ) -> (r: Result<T, RunCodeError>)
        requires
            forall|args: (String, usize, usize)| #[trigger] call_requires(exec, args),
        ensures
            r is Ok <==> self.run_code_admitted(),
            !self.valid() ==> r == Err::<T, RunCodeError>(RunCodeError::InterpreterShutdown)
                && *final(reg) == *old(reg),
            self.valid() ==> final(reg).active() == old(reg).active(),
            self.valid() ==> (exists|c: String, t: T|
                c@ == unindent_of(code@)
                    && #[trigger] call_ensures(
                    exec,
                    (c, self.interpreter().handle(), old(reg).active()),
                    t,
                ) && r == Ok::<T, RunCodeError>(t)),
    {
        let prepared = dedent(code);
        if !self.interp.is_valid() {
            return Err(RunCodeError::InterpreterShutdown);
        }
        let g = activate(reg, self.interp.context_handle());
        let out = exec(prepared, g.target, g.saved);
        restore(reg, g);
        Ok(out)
    }

    /// Shuts the context down, idempotently, and never with an error: the
    /// first call on a valid handle has `teardown` destroy the context — the
    /// embedding's destruction step, handed the doomed handle and the
    /// displaced one — and nulls the handle; every further call is a no-op.
    pub fn shutdown<F: FnOnce(usize, usize) -> ()>(
        &mut self,
        reg: &mut ThreadRegister,
        teardown: F,
    ) -> (performed: bool)
        requires
            forall|args: (usize, usize)| #[trigger] call_requires(teardown, args),
        ensures
            !final(self).valid(),
            (final(self).interpreter().handle(), performed) == shutdown_handle_model(
                old(self).interpreter().handle(),
            ),
            performed == old(self).valid(),
            final(reg).active() == old(reg).active(),
            !old(self).valid() ==> *final(reg) == *old(reg),
            performed ==> call_ensures(
                teardown,
                (old(self).interpreter().handle(), old(reg).active()),
                (),
            ),
    {
        self.interp.shutdown(reg, teardown)
    }
}

/// Shutdown is final: every state a shutdown leaves behind is invalid, it no
/// longer admits `run_code`, and a further shutdown of it performs no
/// teardown.
pub proof fn lemma_shutdown_is_final(s: SubInterpreter, after: SubInterpreter)
    requires
        after.interpreter().handle() == shutdown_handle_model(s.interpreter().handle()).0,
    ensures
        !after.valid(),
        !after.run_code_admitted(),
        shutdown_handle_model(after.interpreter().handle()).1 == false,
{
}

} // verus!
