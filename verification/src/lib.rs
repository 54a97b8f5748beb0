//! Isolated, independently lifecycled execution contexts inside one host
//! runtime process.
//!
//! The library manages *which* context is active on a thread and *whether* a
//! context is still valid, never what the executed script does. The host
//! runtime itself (the engine that runs script text) and the language-binding
//! layer around this crate are external collaborators: the embedding performs
//! each host call and feeds the observed outcome back into the verified
//! lifecycle logic here.

pub mod config;
pub mod errors;
pub mod lifecycle;
pub mod subinterpreter;
pub mod switcher;

pub use config::InterpreterConfig;
pub use config::NativeInterpreterConfig;
pub use errors::CreateInterpreterError;
pub use errors::RunCodeError;
pub use lifecycle::Interpreter;
pub use subinterpreter::SubInterpreter;
pub use switcher::ScopeGuard;
pub use switcher::ThreadRegister;
