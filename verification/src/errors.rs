use vstd::prelude::*;

verus! {

/// The ways in which creating an isolated execution context can fail.
///
/// Every failure is reported as a value of this taxonomy; creation never
/// terminates the process. The two documented abort-level invariant
/// violations (activating an invalid handle, and a null handle beside a
/// success status) are excluded by preconditions instead.
#[derive(Debug, PartialEq, Eq)]
pub enum CreateInterpreterError {
    /// The configuration enables daemon threads while disabling threads.
    ConfigError,
    /// The host runtime has not been initialised yet.
    InitialisationError,
    /// The calling thread holds no active execution context.
    MissingGil,
    /// The host runtime itself refused the creation; the diagnostic text is
    /// forwarded verbatim.
    Other(String),
}

impl CreateInterpreterError {
    /// The diagnostic text shown to embedding callers for each failure.
    pub open spec fn message_spec(self) -> Seq<char> {
        match self {
            CreateInterpreterError::ConfigError => "daemon threads cannot be enabled if `allow_threads` is `false`."@,
            CreateInterpreterError::InitialisationError => "a Python interpreter has not yet been initialised and or is not running."@,
            CreateInterpreterError::MissingGil => "no GIL is currently setup within the the current thread."@,
            CreateInterpreterError::Other(m) => m@,
        }
    }

    pub fn message(&self) -> (r: String)
        ensures
            r@ == self.message_spec(),
    {
        match self {
            CreateInterpreterError::ConfigError => "daemon threads cannot be enabled if `allow_threads` is `false`.".to_owned(),
            CreateInterpreterError::InitialisationError => "a Python interpreter has not yet been initialised and or is not running.".to_owned(),
            CreateInterpreterError::MissingGil => "no GIL is currently setup within the the current thread.".to_owned(),
            CreateInterpreterError::Other(m) => m.clone(),
        }
    }
}

/// The failure that running code in a context can report on its own:
/// the context has already been shut down.
///
/// Failures of the script itself are the host runtime's affair and flow
/// through the caller-supplied execution step untouched.
#[derive(Debug, PartialEq, Eq)]
pub enum RunCodeError {
    /// The context handle is no longer valid.
    InterpreterShutdown,
}

impl RunCodeError {
    /// The diagnostic text shown to embedding callers.
    pub open spec fn message_spec(self) -> Seq<char> {
        "Interpreter has shutdown."@
    }

    pub fn message(&self) -> (r: String)
        ensures
            r@ == self.message_spec(),
    {
        "Interpreter has shutdown.".to_owned()
    }
}

} // verus!
