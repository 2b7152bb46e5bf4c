//! What one link through the host toolchain is asked to do.

use vstd::prelude::*;

verus! {

/// How the link treats a symbol that none of its inputs defines.
#[derive(Debug, Clone, Copy, PartialEq, Eq)]
pub enum UndefinedSymbols {
    /// The link fails. The output has to stand on its own.
    Fatal,
    /// The symbol is left to be bound when the output is loaded.
    Deferred,
}

/// Why a request was not accepted.
#[derive(Debug, Clone, Copy, PartialEq, Eq)]
pub enum RequestError {
    /// The output path was the empty string.
    EmptyOutputPath,
}

/// The mathematical content of a [`LinkRequest`].
pub struct LinkRequestView {
    /// The search paths, in the order given.
    pub lib_paths: Seq<Seq<char>>,
    /// The path of the artifact to produce.
    pub output: Seq<char>,
    /// The policy on undefined symbols.
    pub undefined_symbols: UndefinedSymbols,
}

/// The request that `lib_paths` and `output` make up. Undefined symbols
/// are always fatal: this is the last link, nothing is bound later.
pub open spec fn request_of(lib_paths: Seq<Seq<char>>, output: Seq<char>) -> LinkRequestView {
    LinkRequestView { lib_paths, output, undefined_symbols: UndefinedSymbols::Fatal }
}

/// Library search paths and the one path to write the result to.
///
/// The output path is never empty. The search paths are kept as given:
/// not checked, not deduplicated, not reordered.
#[derive(Debug)]
pub struct LinkRequest {
    lib_paths: Vec<String>,
    output: String,
    undefined_symbols: UndefinedSymbols,
}

impl View for LinkRequest {
    type V = LinkRequestView;

    closed spec fn view(&self) -> LinkRequestView {
        LinkRequestView {
            lib_paths: self.lib_paths.deep_view(),
            output: self.output@,
            undefined_symbols: self.undefined_symbols,
        }
    }
}

impl LinkRequest {
    #[verifier::type_invariant]
    spec fn well_formed(&self) -> bool {
        &&& self.output@.len() > 0
        &&& self.undefined_symbols is Fatal
    }

    /// Accepts every request but one with an empty output path.
    pub fn new(lib_paths: Vec<String>, output: String) -> (r: Result<LinkRequest, RequestError>)
        ensures
            match r {
                Ok(request) => output@.len() > 0 && request@ == request_of(
                    lib_paths.deep_view(),
                    output@,
                ),
                Err(e) => output@.len() == 0 && e == RequestError::EmptyOutputPath,
            },
    {
        if output.as_str().is_empty() {
            Err(RequestError::EmptyOutputPath)
        } else {
            Ok(LinkRequest { lib_paths, output, undefined_symbols: UndefinedSymbols::Fatal })
        }
    }

    /// The search paths, in the order given.
    pub fn lib_paths(&self) -> (paths: &Vec<String>)
        ensures
            paths.deep_view() == self@.lib_paths,
    {
        &self.lib_paths
    }

    /// The path of the artifact to produce. Never empty.
    pub fn output(&self) -> (path: &String)
        ensures
            path@ == self@.output,
            path@.len() > 0,
    {
        proof {
            use_type_invariant(self);
        }
        &self.output
    }

    /// Takes the request apart, keeping the output path.
    pub fn into_output(self) -> (path: String)
        ensures
            path@ == self@.output,
            path@.len() > 0,
    {
        proof {
            use_type_invariant(&self);
        }
        self.output
    }

    /// The policy on undefined symbols. Always fatal.
    pub fn undefined_symbols(&self) -> (policy: UndefinedSymbols)
        ensures
            policy == self@.undefined_symbols,
            policy is Fatal,
    {
        proof {
            use_type_invariant(self);
        }
        self.undefined_symbols
    }
}

} // verus!
