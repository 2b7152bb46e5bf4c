//! The closed set of backends and what a dispatch can end in.

use libc::c_int;
use vstd::prelude::*;

verus! {

/// The backends a build can be configured for. The dispatcher takes
/// the backend as an argument and does not choose it: it is for the
/// caller to fix one per build, from the target it is built for, and to
/// pass the same one on every call.
#[derive(Debug, Clone, Copy, PartialEq, Eq)]
pub enum Backend {
    /// Native entry point producing Mach-O output.
    MachO,
    /// Native entry point producing ELF output.
    Elf,
    /// Native entry point producing PE output in the MinGW flavour.
    MinGW,
    /// Placeholder for WebAssembly: no entry point is called.
    WasmStub,
    /// No backend exists for this configuration.
    Unsupported,
}

impl Backend {
    /// The variants behind which a native entry point stands.
    pub open spec fn is_native(self) -> bool {
        self is MachO || self is Elf || self is MinGW
    }

    /// Whether a native entry point stands behind this variant.
    pub fn has_entry_point(&self) -> (b: bool)
        ensures
            b == self.is_native(),
    {
        match self {
            Backend::MachO | Backend::Elf | Backend::MinGW => true,
            Backend::WasmStub | Backend::Unsupported => false,
        }
    }
}

/// How one dispatch ended.
#[derive(Debug, Clone, Copy, PartialEq, Eq)]
pub enum DispatchOutcome {
    /// The native entry point ran and returned `code`.
    Exited { code: c_int },
    /// The placeholder backend was selected: nothing was linked.
    NotImplemented,
    /// No backend exists: nothing was linked.
    Unsupported,
    /// The lock was poisoned by an earlier holder: nothing was linked.
    LockPoisoned,
}

impl DispatchOutcome {
    /// The boolean a caller of the dispatcher is handed: a zero exit
    /// code, or the placeholder backend, which reports success although
    /// it links nothing.
    pub open spec fn reports_success(self) -> bool {
        match self {
            DispatchOutcome::Exited { code } => code == 0,
            DispatchOutcome::NotImplemented => true,
            DispatchOutcome::Unsupported => false,
            DispatchOutcome::LockPoisoned => false,
        }
    }

    /// An output artifact was produced: the entry point ran and
    /// returned zero.
    pub open spec fn is_linked(self) -> bool {
        self matches DispatchOutcome::Exited { code } && code == 0
    }

    /// The outcome of a native entry point that returned `code`.
    pub fn from_exit_code(code: c_int) -> (outcome: DispatchOutcome)
        ensures
            outcome == (DispatchOutcome::Exited { code }),
            outcome.reports_success() <==> code == 0,
            outcome.is_linked() <==> code == 0,
    {
        DispatchOutcome::Exited { code }
    }

    /// The success flag. True for the placeholder backend too; use
    /// [`DispatchOutcome::linked`] to tell a real link apart.
    pub fn succeeded(&self) -> (b: bool)
        ensures
            b == self.reports_success(),
    {
        match self {
            DispatchOutcome::Exited { code } => *code == 0,
            DispatchOutcome::NotImplemented => true,
            DispatchOutcome::Unsupported => false,
            DispatchOutcome::LockPoisoned => false,
        }
    }

    /// Whether an output artifact was really produced.
    pub fn linked(&self) -> (b: bool)
        ensures
            b == self.is_linked(),
    {
        match self {
            DispatchOutcome::Exited { code } => *code == 0,
            _ => false,
        }
    }
}

} // verus!
