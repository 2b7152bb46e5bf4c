//! Linking through the host's compiler driver, run as a process.

use crate::request::{request_of, LinkRequest, LinkRequestView};
use vstd::prelude::*;

verus! {

/// What came of trying to run the external link command.
#[derive(Debug, PartialEq, Eq)]
pub enum ProcessOutcome {
    /// The process could not be started.
    SpawnFailed { diagnostics: String },
    /// The process ran and ended with `code`.
    Exited { code: i32, diagnostics: String },
    /// The process was started and ended without an exit code, as one
    /// stopped by a signal does.
    Killed { diagnostics: String },
}

/// The result of one link through the toolchain.
#[derive(Debug, PartialEq, Eq)]
pub enum LinkResult {
    /// The process ended with zero: `output` was written.
    Linked { output: String, diagnostics: String },
    /// The link failed. `outcome` is what the process ended in, exit
    /// code and diagnostics as they came.
    Failed { outcome: ProcessOutcome },
    /// The output path was empty. No process was run.
    InvalidRequest,
}

impl ProcessOutcome {
    /// The process ran and ended with zero.
    pub open spec fn exited_zero(self) -> bool {
        self matches ProcessOutcome::Exited { code, .. } && code == 0
    }

    /// What the process wrote.
    pub open spec fn diagnostics(self) -> Seq<char> {
        match self {
            ProcessOutcome::SpawnFailed { diagnostics } => diagnostics@,
            ProcessOutcome::Exited { diagnostics, .. } => diagnostics@,
            ProcessOutcome::Killed { diagnostics } => diagnostics@,
        }
    }
}

/// `result` is what `request` ends in when the process ends in
/// `outcome`: success for exit code zero and for nothing else, and
/// otherwise a failure that carries `outcome` unchanged.
pub open spec fn concludes(request: LinkRequestView, outcome: ProcessOutcome, result: LinkResult) -> bool {
    if outcome.exited_zero() {
        result matches LinkResult::Linked { output, diagnostics } && output@ == request.output
            && diagnostics@ == outcome.diagnostics()
    } else {
        result == (LinkResult::Failed { outcome })
    }
}

/// For every request, the link is a success when the process exits with
/// zero, and a failure that keeps the exit code when it exits with
/// anything else.
pub proof fn lemma_result_follows_exit_code(
    request: LinkRequestView,
    code: i32,
    diagnostics: String,
    result: LinkResult,
)
    requires
        concludes(request, ProcessOutcome::Exited { code, diagnostics }, result),
    ensures
        code == 0 ==> result is Linked,
        code != 0 ==> result == (LinkResult::Failed {
            outcome: ProcessOutcome::Exited { code, diagnostics },
        }),
{
}

impl LinkResult {
    /// Whether the link succeeded.
    pub fn is_success(&self) -> (b: bool)
        ensures
            b == (self is Linked),
    {
        match self {
            LinkResult::Linked { .. } => true,
            _ => false,
        }
    }
}

impl LinkRequest {
    /// Turns what the process ended in into the result of the link.
    ///
    /// The link succeeded if and only if the process ran and ended with
    /// zero. No status is dropped: a failure carries the outcome as it
    /// came.
    pub fn conclude(self, outcome: ProcessOutcome) -> (result: LinkResult)
        ensures
            concludes(self@, outcome, result),
            result is Linked <==> outcome.exited_zero(),
            !(result is InvalidRequest),
    {
        match outcome {
            ProcessOutcome::Exited { code, diagnostics } => {
                if code == 0 {
                    let output = self.into_output();
                    LinkResult::Linked { output, diagnostics }
                } else {
                    LinkResult::Failed { outcome: ProcessOutcome::Exited { code, diagnostics } }
                }
            },
            failed => LinkResult::Failed { outcome: failed },
        }
    }
}

/// Links the libraries that the compiler stages produced.
pub struct KclvmLinker;

impl KclvmLinker {
    /// Links `lib_paths` into `lib_path` by way of `driver`, which runs
    /// the external link command for the request it is handed and
    /// reports what the process ended in.
    ///
    /// A request with an empty output path is refused and `driver` is
    /// not run. Every other request is handed to `driver` once, with
    /// undefined symbols fatal, and the result follows the process:
    /// success for exit code zero, failure for any other code, for a
    /// process that ended without one and for one that could not be
    /// started.
    pub fn link_all_libs<F>(lib_paths: Vec<String>, lib_path: String, driver: F) -> (result:
        LinkResult) where F: FnOnce(&LinkRequest) -> ProcessOutcome
        requires
            lib_path@.len() > 0 ==> forall|request: LinkRequest|
                request@ == request_of(lib_paths.deep_view(), lib_path@)
                    ==> #[trigger] driver.requires((&request,)),
        ensures
            lib_path@.len() == 0 <==> result is InvalidRequest,
            lib_path@.len() > 0 ==> exists|request: LinkRequest, outcome: ProcessOutcome|
                request@ == request_of(lib_paths.deep_view(), lib_path@)
                    && #[trigger] driver.ensures((&request,), outcome) && concludes(
                    request@,
                    outcome,
                    result,
                ),
    {
        match LinkRequest::new(lib_paths, lib_path) {
            Err(_) => LinkResult::InvalidRequest,
            Ok(request) => {
                let outcome = driver(&request);
                request.conclude(outcome)
            },
        }
    }
}

} // verus!
