use vstd::prelude::*;
use std::sync::Arc;
use std::sync::atomic::AtomicBool;

verus! {

/// The shared flags of a running function: whether it failed and whether
/// it is shutting down. Clones share the flags.
#[derive(Clone, Debug)]
pub struct FunctionSignal {
    is_erroneous: Arc<AtomicBool>,
    is_terminating: Arc<AtomicBool>,
}

impl FunctionSignal {
    /// A signal with neither flag set.
    pub fn new() -> (s: Self) {
        FunctionSignal {
            is_erroneous: Arc::new(AtomicBool::new(false)),
            is_terminating: Arc::new(AtomicBool::new(false)),
        }
    }

    /// Asks the function to shut down gracefully.
    pub fn terminate(&self) {
        self.is_terminating.store(true, std::sync::atomic::Ordering::SeqCst)
    }

    /// Marks the function as failed and asks it to shut down.
    pub fn terminate_on_panic(&self) {
        self.is_erroneous.store(true, std::sync::atomic::Ordering::SeqCst);
        self.terminate()
    }

    /// Has shutting down been asked for?
    pub fn is_terminating(&self) -> (b: bool) {
        self.is_terminating.load(std::sync::atomic::Ordering::SeqCst)
    }

    /// Has the function failed?
    pub fn is_erroneous(&self) -> (b: bool) {
        self.is_erroneous.load(std::sync::atomic::Ordering::SeqCst)
    }

    /// Shuts the function down on an interrupt (SIGINT).
    pub fn trap_on_sigint(&self) -> (r: core::result::Result<(), String>) {
        set_sigint_handler(self.clone())
    }
}

/// The exit code of a function that stopped: one where it failed, else
/// zero.
pub fn exit_code(is_erroneous: bool) -> (code: i32)
    ensures
        code == (if is_erroneous { 1i32 } else { 0i32 }),
{
    if is_erroneous {
        1
    } else {
        0
    }
}

/// Calls `ctrlc::set_handler` with a handler that asks `signal` to shut
/// down. Trusted: nothing is claimed of the outcome, which depends on
/// whether the process already has a handler.
#[verifier::external_body]
fn set_sigint_handler(signal: FunctionSignal) -> (r: core::result::Result<(), String>) {
    ::ctrlc::set_handler(move || signal.terminate())
        .map_err(|error| format!("failed to set SIGINT handler: {error}"))
}

} // verus!
