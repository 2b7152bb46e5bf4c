//! Dispatch to the native backend under the lock.

use crate::argv::{argv_of, contents, entries_nul_free, ArgumentVector};
use crate::backend::{Backend, DispatchOutcome};
use crate::lock::{BackendAccess, BackendLock, LockError};
use crate::native_string::{program_name, NativeString};
use libc::c_int;
use vstd::prelude::*;

verus! {

/// `outcome` is what running `backend` on `argv` under `lock` can end
/// in, where `entry` reaches the native entry points.
///
/// A native backend ends in an exit code that `entry` can return when
/// it is handed an access of `lock`, that backend and that vector. The
/// placeholder and the missing backend end in their own outcomes,
/// whatever `entry` is.
pub open spec fn ran<F: FnOnce(&BackendAccess, Backend, &ArgumentVector) -> c_int>(
    lock: &BackendLock,
    backend: Backend,
    argv: Seq<Seq<u8>>,
    entry: F,
    outcome: DispatchOutcome,
) -> bool {
    match backend {
        Backend::Unsupported => outcome is Unsupported,
        Backend::WasmStub => outcome is NotImplemented,
        _ => exists|access: BackendAccess, v: ArgumentVector, code: c_int|
            access.lock() == lock && v@ == argv && #[trigger] entry.ensures(
                (&access, backend, &v),
                code,
            ) && outcome == (DispatchOutcome::Exited { code }),
    }
}

/// Only a native backend can link: whatever a run of the placeholder or
/// of the missing backend ends in, it is not a link, and it is no exit
/// code either, so it cannot be taken for one.
pub proof fn lemma_only_native_backends_link<
    F: FnOnce(&BackendAccess, Backend, &ArgumentVector) -> c_int,
>(lock: &BackendLock, backend: Backend, argv: Seq<Seq<u8>>, entry: F, outcome: DispatchOutcome)
    requires
        ran(lock, backend, argv, entry, outcome),
        !backend.is_native(),
    ensures
        !outcome.is_linked(),
        !(outcome is Exited),
        backend is Unsupported ==> !outcome.reports_success(),
{
}

/// The flag a native run reports is true for exit code zero and for no
/// other code.
pub proof fn lemma_native_success_is_exit_zero<
    F: FnOnce(&BackendAccess, Backend, &ArgumentVector) -> c_int,
>(lock: &BackendLock, backend: Backend, argv: Seq<Seq<u8>>, entry: F, outcome: DispatchOutcome)
    requires
        ran(lock, backend, argv, entry, outcome),
        backend.is_native(),
    ensures
        outcome is Exited,
        outcome.reports_success() <==> outcome->code == 0,
        outcome.is_linked() <==> outcome->code == 0,
{
}

impl<'a> BackendAccess<'a> {
    /// Runs `backend` on `argv` while the lock is held.
    ///
    /// For a native backend `entry` is called once, with this access,
    /// that backend and `argv`, and its exit code is the outcome. For
    /// the other two it is not called.
    pub fn run<F>(&self, backend: Backend, argv: &ArgumentVector, entry: F) -> (outcome:
        DispatchOutcome) where F: FnOnce(&BackendAccess, Backend, &ArgumentVector) -> c_int
        requires
            backend.is_native() ==> entry.requires((self, backend, argv)),
        ensures
            ran(self.lock(), backend, argv@, entry, outcome),
            !(outcome is LockPoisoned),
            !backend.is_native() ==> !outcome.is_linked(),
    {
        match backend {
            Backend::MachO | Backend::Elf | Backend::MinGW => {
                let code = entry(self, backend, argv);
                DispatchOutcome::from_exit_code(code)
            },
            Backend::WasmStub => DispatchOutcome::NotImplemented,
            Backend::Unsupported => DispatchOutcome::Unsupported,
        }
    }
}

/// What a dispatch ends in once a lock has answered: the poisoned
/// outcome if the lock could not be had, else whatever the backend run
/// under that lock ends in. The entry point is handed the access, so it
/// runs before the access is given back; the access is given back
/// before this returns, whatever the exit code was.
pub fn dispatch_with<F>(
    held: Result<BackendAccess<'_>, LockError>,
    backend: Backend,
    argv: &ArgumentVector,
    entry: F,
) -> (outcome: DispatchOutcome) where F: FnOnce(&BackendAccess, Backend, &ArgumentVector) -> c_int
    requires
        held matches Ok(access) ==> (backend.is_native() ==> entry.requires(
            (&access, backend, argv),
        )),
    ensures
        held is Err <==> outcome is LockPoisoned,
        held matches Ok(access) ==> ran(access.lock(), backend, argv@, entry, outcome),
        !backend.is_native() ==> !outcome.is_linked(),
{
    match held {
        Err(_) => DispatchOutcome::LockPoisoned,
        Ok(access) => {
            let outcome = access.run(backend, argv, entry);
            access.release();
            outcome
        },
    }
}

/// Runs the backend on `args` with the program name put in front,
/// given what the lock answered.
///
/// `held` is the answer of the lock that serialises the backend: the
/// caller has asked it until it was free. With an access in hand the
/// vector is built, `backend` is run under that access, and the access
/// is given back before this returns, also when the backend reports
/// failure. With a poisoned lock nothing is run.
///
/// `entry` must reach the native entry point of each native backend.
pub fn lld_main<F>(
    held: Result<BackendAccess<'_>, LockError>,
    backend: Backend,
    args: &[NativeString],
    entry: F,
) -> (outcome: DispatchOutcome) where F: FnOnce(&BackendAccess, Backend, &ArgumentVector) -> c_int
    requires
        held matches Ok(access) ==> (backend.is_native() ==> forall|argv: ArgumentVector|
            argv@ == argv_of(program_name(), contents(args@)) && entries_nul_free(argv@)
                ==> #[trigger] entry.requires((&access, backend, &argv))),
    ensures
        held is Err <==> outcome is LockPoisoned,
        held matches Ok(access) ==> ran(
            access.lock(),
            backend,
            argv_of(program_name(), contents(args@)),
            entry,
            outcome,
        ),
        !backend.is_native() ==> !outcome.is_linked(),
{
    let program = NativeString::program_name();
    let argv = ArgumentVector::build(&program, args);
    dispatch_with(held, backend, &argv, entry)
}

} // verus!
