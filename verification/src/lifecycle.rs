use vstd::prelude::*;

use crate::config::InterpreterConfig;
use crate::config::NativeInterpreterConfig;
use crate::errors::CreateInterpreterError;
use crate::switcher::ThreadRegister;
use crate::switcher::activate;
use crate::switcher::restore;

verus! {

/// An owned execution context of the host runtime.
///
/// The context is named by the pointer-sized handle the host returned for it;
/// a null handle (`0`) means "not created or already shut down" and is the
/// sole validity signal, so flag and handle can never diverge. Exactly one
/// `Interpreter` owns a given handle, and a `&mut` receiver on every
/// lifecycle-affecting operation keeps that ownership exclusive.
#[derive(Debug)]
pub struct Interpreter {
    inner: usize,
}

/// What one shutdown does to a context handle: the handle is nulled, and a
/// teardown is performed exactly when the handle was still live.
pub open spec fn shutdown_handle_model(h: usize) -> (usize, bool) {
    (0, h != 0)
}

impl Interpreter {
    /// The handle of the owned context; `0` after shutdown.
    pub closed spec fn handle(self) -> usize {
        self.inner
    }

    /// A context is valid exactly while its handle is non-null.
    pub open spec fn valid(self) -> bool {
        self.handle() != 0
    }

    /// The outcome of the request stage of creation: an invalid configuration
    /// is rejected as `ConfigError` before the host runtime is consulted, and
    /// a valid one is translated to the host's native record.
    pub open spec fn create_request_model(config: InterpreterConfig) -> Result<
        NativeInterpreterConfig,
        CreateInterpreterError,
    > {
        if config.wf() {
            Ok(config.native_spec())
        } else {
            Err(CreateInterpreterError::ConfigError)
        }
    }

    /// The outcome of the preflight stage: the host runtime must already be
    /// initialised, and the calling thread must hold an active execution
    /// context (the exclusive execution token); each absence is its own
    /// failure.
    pub open spec fn create_preflight_model(initialized: bool, caller_context: usize) -> Result<
        (),
        CreateInterpreterError,
    > {
        if !initialized {
            Err(CreateInterpreterError::InitialisationError)
        } else if caller_context == 0 {
            Err(CreateInterpreterError::MissingGil)
        } else {
            Ok(())
        }
    }

    /// First stage of creation. Validates the configuration and, only when it
    /// is valid, hands back the native record for the host's creation call:
    /// an invalid configuration yields no record at all, so it can never
    /// reach the host.
    pub fn create_request(config: InterpreterConfig) -> (r: Result<
        NativeInterpreterConfig,
        CreateInterpreterError,
    >)
        ensures
            r == Self::create_request_model(config),
    {
        match config.validate() {
            Ok(()) => Ok(config.to_native()),
            Err(e) => Err(e),
        }
    }

    /// Second stage of creation, fed the host signals observed just before
    /// the creation call: whether the runtime is initialised, and which
    /// context the calling thread currently holds.
    pub fn create_preflight(initialized: bool, caller_context: usize) -> (r: Result<
        (),
        CreateInterpreterError,
    >)
        ensures
            r == Self::create_preflight_model(initialized, caller_context),
    {
        if !initialized {
            return Err(CreateInterpreterError::InitialisationError);
        }
        if caller_context == 0 {
            return Err(CreateInterpreterError::MissingGil);
        }
        Ok(())
    }

    /// Last stage of creation, fed the outcome of the host's creation call,
    /// which leaves the new context active on the calling thread. The
    /// caller's own context is restored first, unconditionally — on failure
    /// as on success — so the thread is never left silently repointed; only
    /// then is the outcome interpreted. A failure forwards the host's
    /// diagnostic verbatim as `Other`.
    ///
    /// A null handle beside a success status violates the host's contract;
    /// the embedding checks for it and aborts, so it is excluded here.
    pub fn create_finish(
        reg: &mut ThreadRegister,
        caller_context: usize,
        creation_failed: bool,
        diagnostic: String,
        new_context: usize,
    ) -> (r: Result<Interpreter, CreateInterpreterError>)
        requires
            !creation_failed ==> new_context != 0,
        ensures
            final(reg).active() == caller_context,
            creation_failed ==> r == Err::<Interpreter, CreateInterpreterError>(
                CreateInterpreterError::Other(diagnostic),
            ),
            !creation_failed ==> (r matches Ok(i) && i.handle() == new_context && i.valid()),
    {
        let _displaced: usize = reg.swap(caller_context);
        if creation_failed {
            return Err(CreateInterpreterError::Other(diagnostic));
        }
        Ok(Interpreter { inner: new_context })
    }

    /// Reports whether the context is still valid: true exactly while the
    /// handle is non-null. This is the sole source of truth for "has this
    /// context been shut down".
    pub fn is_valid(&self) -> (b: bool)
        ensures
            b == self.valid(),
    {
        self.inner != 0
    }

    /// The owned handle, for pairing the record of the thread register with
    /// the host's real one.
    pub(crate) fn context_handle(&self) -> (h: usize)
        ensures
            h == self.handle(),
    {
        self.inner
    }

    /// Runs `work` with this context active, then puts the displaced context
    /// back, whatever `work` returned. `work` is handed the activated handle
    /// and the displaced one, in that order, so the embedding can mirror the
    /// activation on the host's real register around the actual execution.
    ///
    /// Activating an invalid context is a programmer error, not a recoverable
    /// condition: callers check validity first, and the embedding asserts it.
    pub fn scope<T, F: FnOnce(usize, usize) -> T>(
        &self,
        reg: &mut ThreadRegister,
        work: F,
    ) -> (r: T)
        requires
            self.valid(),
            forall|args: (usize, usize)| #[trigger] call_requires(work, args),
        ensures
            final(reg).active() == old(reg).active(),
            call_ensures(work, (self.handle(), old(reg).active()), r),
    {
        let g = activate(reg, self.inner);
        let r = work(g.target, g.saved);
        restore(reg, g);
        r
    }

    /// Shuts the context down: activates it, has `teardown` instruct the host
    /// to destroy it, restores the displaced context, and nulls the handle.
    /// On an already-invalid handle this is a no-op — idempotent either way.
    /// `teardown` is handed the doomed handle and the displaced one, in that
    /// order; it is called exactly when the handle was still live, and at
    /// most once.
    pub fn shutdown<F: FnOnce(usize, usize) -> ()>(
        &mut self,
        reg: &mut ThreadRegister,
        teardown: F,
    ) -> (performed: bool)
        requires
            forall|args: (usize, usize)| #[trigger] call_requires(teardown, args),
        ensures
            !final(self).valid(),
            (final(self).handle(), performed) == shutdown_handle_model(old(self).handle()),
            final(reg).active() == old(reg).active(),
            !old(self).valid() ==> *final(reg) == *old(reg),
            performed ==> call_ensures(teardown, (old(self).handle(), old(reg).active()), ()),
    {
        if self.inner == 0 {
            return false;
        }
        let g = activate(reg, self.inner);
        teardown(g.target, g.saved);
        restore(reg, g);
        self.inner = 0;
        true
    }
}

/// An invalid configuration is rejected outright with `ConfigError`: the
/// request stage yields no native record for it, and the native record is the
/// only thing the host's creation call accepts, so the host runtime is never
/// invoked for such a configuration.
pub proof fn lemma_invalid_config_rejected(config: InterpreterConfig)
    requires
        config.allow_daemon_threads,
        !config.allow_threads,
    ensures
        Interpreter::create_request_model(config) == Err::<
            NativeInterpreterConfig,
            CreateInterpreterError,
        >(CreateInterpreterError::ConfigError),
{
}

/// A teardown is performed exactly when the handle is still live: the first
/// shutdown of a live context performs it, every shutdown of the resulting
/// handle performs none. An owner whose context was never explicitly shut
/// down therefore tears it down exactly once on its final implicit shutdown.
pub proof fn lemma_teardown_exactly_once(h: usize)
    requires
        h != 0,
    ensures
        shutdown_handle_model(h).1 == true,
        shutdown_handle_model(shutdown_handle_model(h).0).1 == false,
{
}

} // verus!
