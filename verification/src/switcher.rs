use vstd::prelude::*;

verus! {

/// The calling thread's "currently active execution context" register.
///
/// The real register is global per-thread state owned by the host runtime and
/// reachable only through its get/swap primitives; this value is the
/// library's record of it. The embedding observes the real register once,
/// builds a `ThreadRegister` from the observation, and mirrors every `swap`
/// the library performs with the corresponding host swap, so the record and
/// the real register move in lockstep. A context is named by its
/// pointer-sized handle; `0` means "no context".
pub struct ThreadRegister {
    current: usize,
}

impl ThreadRegister {
    /// The handle of the context currently recorded as active.
    pub closed spec fn active(self) -> usize {
        self.current
    }

    pub fn new(initial: usize) -> (r: ThreadRegister)
        ensures
            r.active() == initial,
    {
        ThreadRegister { current: initial }
    }

    /// Reads the recorded register.
    pub fn get(&self) -> (h: usize)
        ensures
            h == self.active(),
    {
        self.current
    }

    /// Points the register at `next` and hands back what it pointed at
    /// before, exactly as the host's swap primitive does.
    pub fn swap(&mut self, next: usize) -> (prev: usize)
        ensures
            final(self).active() == next,
            prev == old(self).active(),
    {
        let prev: usize = self.current;
        self.current = next;
        prev
    }
}

/// The receipt of one activation: which context was activated and which one
/// it displaced. Restoration consumes the receipt, so each activation is
/// paired with exactly one restoration.
#[derive(Debug)]
pub struct ScopeGuard {
    /// The context that was active before the activation.
    pub saved: usize,
    /// The context the activation made active.
    pub target: usize,
}

/// What one activation does to a register pointing at `current`: the
/// register moves to `target` and the receipt remembers `current`.
pub open spec fn activate_model(current: usize, target: usize) -> (usize, ScopeGuard) {
    (target, ScopeGuard { saved: current, target })
}

/// What the paired restoration puts back: the displaced context, exactly.
pub open spec fn restore_model(g: ScopeGuard) -> usize {
    g.saved
}

/// Makes `target` the active context. Activating "no context" is never
/// meaningful, so a null target is excluded; callers check validity first.
pub fn activate(reg: &mut ThreadRegister, target: usize) -> (g: ScopeGuard)
    requires
        target != 0,
    ensures
        (final(reg).active(), g) == activate_model(old(reg).active(), target),
        final(reg).active() == target,
        g.saved == old(reg).active(),
        g.target == target,
{
    let saved: usize = reg.swap(target);
    ScopeGuard { saved, target }
}

/// Puts the displaced context back. The precondition pins the register to the
/// guard's own target, so nested activations can only be unwound in reverse
/// order of activation.
pub fn restore(reg: &mut ThreadRegister, g: ScopeGuard)
    requires
        old(reg).active() == g.target,
    ensures
        final(reg).active() == restore_model(g),
        final(reg).active() == g.saved,
{
    let _displaced: usize = reg.swap(g.saved);
}

/// An activation followed by its restoration leaves the register exactly as
/// it was before the activation.
pub proof fn lemma_activate_restore_round_trip(current: usize, target: usize)
    ensures
        restore_model(activate_model(current, target).1) == current,
{
}

/// Nested activations restore in reverse order: unwinding the inner
/// activation returns the register to the outer activation's state, and
/// unwinding the outer one returns it to the original state.
pub proof fn lemma_nested_activations_unwind(current: usize, outer: usize, inner: usize)
    ensures
        restore_model(activate_model(activate_model(current, outer).0, inner).1)
            == activate_model(current, outer).0,
        restore_model(activate_model(current, outer).1) == current,
{
}

} // verus!
