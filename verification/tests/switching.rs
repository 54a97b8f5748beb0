use subinterpreters::Interpreter;
use subinterpreters::InterpreterConfig;
use subinterpreters::ThreadRegister;
use subinterpreters::switcher::activate;
use subinterpreters::switcher::restore;

const CALLER: usize = 0x1000;
const CONTEXT_A: usize = 0x2000;
const CONTEXT_B: usize = 0x3000;

fn created_interpreter(reg: &mut ThreadRegister, handle: usize) -> Interpreter {
    let config = InterpreterConfig::new(false, false, true, false);
    Interpreter::create_request(config).expect("valid config");
    Interpreter::create_finish(reg, CALLER, false, String::new(), handle)
        .expect("creation succeeded")
}

#[test]
fn register_swap_returns_the_displaced_context() {
    let mut reg = ThreadRegister::new(CALLER);
    assert_eq!(reg.get(), CALLER);
    let prev = reg.swap(CONTEXT_A);
    assert_eq!(prev, CALLER);
    assert_eq!(reg.get(), CONTEXT_A);
}

#[test]
fn scope_restores_the_register_when_the_work_succeeds() {
    let mut reg = ThreadRegister::new(CALLER);
    let interp = created_interpreter(&mut reg, CONTEXT_A);
    let out = interp.scope(&mut reg, |target, saved| {
        assert_eq!(target, CONTEXT_A);
        assert_eq!(saved, CALLER);
        42u64
    });
    assert_eq!(out, 42u64);
    assert_eq!(reg.get(), CALLER);
}

#[test]
fn scope_restores_the_register_when_the_work_fails() {
    let mut reg = ThreadRegister::new(CALLER);
    let interp = created_interpreter(&mut reg, CONTEXT_A);
    let out: Result<(), String> = interp.scope(&mut reg, |_target, _saved| {
        Err("the script raised".to_string())
    });
    assert!(out.is_err());
    // The register is back where it was even though the work reported failure.
    assert_eq!(reg.get(), CALLER);
}

#[test]
fn nested_activations_unwind_in_reverse_order() {
    let mut reg = ThreadRegister::new(CALLER);
    let outer = activate(&mut reg, CONTEXT_A);
    assert_eq!(reg.get(), CONTEXT_A);
    let inner = activate(&mut reg, CONTEXT_B);
    assert_eq!(reg.get(), CONTEXT_B);
    restore(&mut reg, inner);
    assert_eq!(reg.get(), CONTEXT_A);
    restore(&mut reg, outer);
    assert_eq!(reg.get(), CALLER);
}
