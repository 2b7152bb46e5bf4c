use kclvm_linker::request::{LinkRequest, RequestError, UndefinedSymbols};
use kclvm_linker::toolchain::{KclvmLinker, LinkResult, ProcessOutcome};
use std::cell::{Cell, RefCell};

fn paths(texts: &[&str]) -> Vec<String> {
    texts.iter().map(|t| t.to_string()).collect()
}

fn exited(code: i32, diagnostics: &str) -> ProcessOutcome {
    ProcessOutcome::Exited { code, diagnostics: diagnostics.to_string() }
}

fn spawn_failed(diagnostics: &str) -> ProcessOutcome {
    ProcessOutcome::SpawnFailed { diagnostics: diagnostics.to_string() }
}

fn linked(output: &str, diagnostics: &str) -> LinkResult {
    LinkResult::Linked { output: output.to_string(), diagnostics: diagnostics.to_string() }
}

#[test]
fn request_keeps_paths_and_output_as_given() {
    let request = LinkRequest::new(paths(&["b.so", "a.so", "b.so"]), "out/app".to_string()).unwrap();
    assert_eq!(request.lib_paths(), &paths(&["b.so", "a.so", "b.so"]));
    assert_eq!(request.output(), "out/app");
    assert_eq!(request.undefined_symbols(), UndefinedSymbols::Fatal);
    assert_eq!(request.into_output(), "out/app");
}

#[test]
fn request_without_search_paths_is_valid() {
    let request = LinkRequest::new(Vec::new(), "a.out".to_string()).unwrap();
    assert!(request.lib_paths().is_empty());
    assert_eq!(request.output(), "a.out");
}

#[test]
fn request_with_empty_output_path_is_refused() {
    let refused = LinkRequest::new(paths(&["a.so"]), String::new());
    assert_eq!(refused.unwrap_err(), RequestError::EmptyOutputPath);
}

#[test]
fn exit_zero_concludes_in_success() {
    let request = LinkRequest::new(paths(&["a.so"]), "out".to_string()).unwrap();
    let result = request.conclude(exited(0, "warning: unused"));
    assert!(result.is_success());
    assert_eq!(result, linked("out", "warning: unused"));
}

#[test]
fn nonzero_exit_concludes_in_failure_with_code_and_text() {
    for code in [1, 2, -1, 127, 255, i32::MIN, i32::MAX] {
        let request = LinkRequest::new(paths(&["a.so"]), "out".to_string()).unwrap();
        let result = request.conclude(exited(code, "undefined symbol: f"));
        assert!(!result.is_success());
        assert_eq!(result, LinkResult::Failed { outcome: exited(code, "undefined symbol: f") });
    }
}

#[test]
fn spawn_failure_concludes_in_failure_with_text() {
    let request = LinkRequest::new(paths(&["a.so"]), "out".to_string()).unwrap();
    let result = request.conclude(spawn_failed("cc: not found"));
    assert!(!result.is_success());
    assert_eq!(result, LinkResult::Failed { outcome: spawn_failed("cc: not found") });
}

#[test]
fn killed_process_concludes_in_failure_with_text() {
    let request = LinkRequest::new(paths(&["a.so"]), "out".to_string()).unwrap();
    let result = request.conclude(ProcessOutcome::Killed { diagnostics: "partial output".to_string() });
    assert!(!result.is_success());
    assert_eq!(
        result,
        LinkResult::Failed { outcome: ProcessOutcome::Killed { diagnostics: "partial output".to_string() } }
    );
}

#[test]
fn link_all_libs_hands_the_driver_the_request() {
    let seen: RefCell<Option<(Vec<String>, String, UndefinedSymbols)>> = RefCell::new(None);
    let result = KclvmLinker::link_all_libs(paths(&["x.ll", "y.ll"]), "lib/out.so".to_string(), |request: &LinkRequest| {
        *seen.borrow_mut() =
            Some((request.lib_paths().clone(), request.output().clone(), request.undefined_symbols()));
        exited(0, "")
    });
    assert_eq!(
        seen.into_inner(),
        Some((paths(&["x.ll", "y.ll"]), "lib/out.so".to_string(), UndefinedSymbols::Fatal))
    );
    assert!(result.is_success());
    assert_eq!(result, linked("lib/out.so", ""));
}

#[test]
fn link_all_libs_follows_fabricated_exit_codes() {
    for code in [0, 1, 2, -1, 42, 255] {
        let runs = Cell::new(0);
        let result = KclvmLinker::link_all_libs(paths(&["a.so"]), "out".to_string(), |_: &LinkRequest| {
            runs.set(runs.get() + 1);
            exited(code, "text")
        });
        assert_eq!(runs.get(), 1);
        assert_eq!(result.is_success(), code == 0);
        if code == 0 {
            assert_eq!(result, linked("out", "text"));
        } else {
            assert_eq!(result, LinkResult::Failed { outcome: exited(code, "text") });
        }
    }
}

#[test]
fn link_all_libs_reports_spawn_failure() {
    let result = KclvmLinker::link_all_libs(paths(&["a.so"]), "out".to_string(), |_: &LinkRequest| {
        spawn_failed("No such file or directory")
    });
    assert!(!result.is_success());
    assert_eq!(result, LinkResult::Failed { outcome: spawn_failed("No such file or directory") });
}

#[test]
fn link_all_libs_refuses_empty_output_without_running_the_driver() {
    let runs = Cell::new(0);
    let result = KclvmLinker::link_all_libs(paths(&["a.so"]), String::new(), |_: &LinkRequest| {
        runs.set(runs.get() + 1);
        exited(0, "")
    });
    assert_eq!(result, LinkResult::InvalidRequest);
    assert!(!result.is_success());
    assert_eq!(runs.get(), 0);
}
