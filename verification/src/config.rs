use vstd::prelude::*;

use crate::errors::CreateInterpreterError;

verus! {

/// Configuration for creating an isolated execution context.
///
/// Daemon threads presuppose threads: a configuration that enables
/// `allow_daemon_threads` while disabling `allow_threads` is invalid and is
/// rejected before the host runtime is ever consulted.
#[derive(Debug, Clone, Copy, PartialEq, Eq, Structural)]
pub struct InterpreterConfig {
    /// Whether the process may be forked from a thread where this context is
    /// active.
    pub allow_fork: bool,
    /// Whether the process may be replaced via exec from a thread where this
    /// context is active.
    pub allow_exec: bool,
    /// Whether the context's threading support may create threads.
    pub allow_threads: bool,
    /// Whether the context's threading support may create daemon threads;
    /// meaningful only together with `allow_threads`.
    pub allow_daemon_threads: bool,
}

/// The host runtime's native configuration record for context creation,
/// held as plain values. The embedding translates it one field at a time
/// into the host's own record before the creation call.
///
/// The fixed fields record the choices this library always makes: the new
/// context gets its own allocator state, extension modules are checked for
/// multi-context support, and the context owns its execution token.
#[derive(Debug, Clone, Copy, PartialEq, Eq, Structural)]
pub struct NativeInterpreterConfig {
    pub use_main_obmalloc: i32,
    pub allow_fork: i32,
    pub allow_exec: i32,
    pub allow_threads: i32,
    pub allow_daemon_threads: i32,
    pub check_multi_interp_extensions: i32,
    /// Whether the context owns its execution token outright.
    pub own_gil: bool,
}

/// How a boolean flag is written in the host's native record.
pub open spec fn native_flag(b: bool) -> i32 {
    if b {
        1
    } else {
        0
    }
}

impl InterpreterConfig {
    /// A configuration is well formed when daemon threads are only enabled
    /// together with threads.
    pub open spec fn wf(self) -> bool {
        self.allow_daemon_threads ==> self.allow_threads
    }

    /// The native record this configuration translates to.
    pub open spec fn native_spec(self) -> NativeInterpreterConfig {
        NativeInterpreterConfig {
            use_main_obmalloc: 0,
            allow_fork: native_flag(self.allow_fork),
            allow_exec: native_flag(self.allow_exec),
            allow_threads: native_flag(self.allow_threads),
            allow_daemon_threads: native_flag(self.allow_daemon_threads),
            check_multi_interp_extensions: 1,
            own_gil: true,
        }
    }

    pub fn new(
        allow_fork: bool,
        allow_exec: bool,
        allow_threads: bool,
        allow_daemon_threads: bool,
    ) -> (c: InterpreterConfig)
        ensures
            c == (InterpreterConfig { allow_fork, allow_exec, allow_threads, allow_daemon_threads }),
    {
        InterpreterConfig { allow_fork, allow_exec, allow_threads, allow_daemon_threads }
    }

    /// Checks the flag invariant; the only failure is `ConfigError`, and it
    /// occurs exactly on the invalid flag combination.
    pub fn validate(&self) -> (r: Result<(), CreateInterpreterError>)
        ensures
            r is Ok <==> self.wf(),
            !self.wf() ==> r == Err::<(), CreateInterpreterError>(CreateInterpreterError::ConfigError),
    {
        if !self.allow_threads && self.allow_daemon_threads {
            Err(CreateInterpreterError::ConfigError)
        } else {
            Ok(())
        }
    }

    /// Translates the configuration into the host's native record.
    pub fn to_native(&self) -> (n: NativeInterpreterConfig)
        ensures
            n == self.native_spec(),
    {
        NativeInterpreterConfig {
            use_main_obmalloc: 0,
            allow_fork: if self.allow_fork {
                1
            } else {
                0
            },
            allow_exec: if self.allow_exec {
                1
            } else {
                0
            },
            allow_threads: if self.allow_threads {
                1
            } else {
                0
            },
            allow_daemon_threads: if self.allow_daemon_threads {
                1
            } else {
                0
            },
            check_multi_interp_extensions: 1,
            own_gil: true,
        }
    }
}

} // verus!
